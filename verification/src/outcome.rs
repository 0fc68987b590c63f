use vstd::prelude::*;

verus! {

/// How one reconciliation call ended.
///
/// `Created`: no stored row matched the id, so the full entity was inserted.
/// `Updated`: exactly one row matched and was updated.
/// `Anomalous`: more than one row matched the id — stored-data corruption.
/// The update has already touched those rows, but no insert follows and the
/// write is not confirmed; the condition is reported, never raised as a hard
/// error.
#[derive(Clone, Copy, Debug, PartialEq, Eq, Structural)]
pub enum ReconcileOutcome {
    Created,
    Updated,
    Anomalous,
}

/// A hard storage failure (connectivity or statement execution).  `detail`
/// is the text surfaced to the caller.  It always aborts the current
/// reconciliation and the enclosing pipeline stage.
#[derive(Clone, Debug, PartialEq)]
pub struct StorageError {
    pub detail: String,
}

/// The follow-up owed after the update statement of a reconciliation has
/// reported its affected-row count.
#[derive(Clone, Copy, Debug, PartialEq, Eq, Structural)]
pub enum ReconcileAction {
    /// No row matched: insert the full entity.
    Insert,
    /// Exactly one row matched: the write is confirmed, nothing follows.
    Confirmed,
    /// More than one row matched: record the anomaly, write nothing further.
    Anomaly,
}

pub open spec fn spec_action(rows_modified: u64) -> ReconcileAction {
    if rows_modified == 0 {
        ReconcileAction::Insert
    } else if rows_modified == 1 {
        ReconcileAction::Confirmed
    } else {
        ReconcileAction::Anomaly
    }
}

/// Decide the follow-up from the affected-row count of an update statement.
pub fn interpret_rows_modified(rows_modified: u64) -> (r: ReconcileAction)
    ensures
        r == spec_action(rows_modified),
{
    if rows_modified == 0 {
        ReconcileAction::Insert
    } else if rows_modified == 1 {
        ReconcileAction::Confirmed
    } else {
        ReconcileAction::Anomaly
    }
}

/// The outcome of a whole reconciliation, as a function of how many stored
/// rows matched the entity's id before the call.
pub open spec fn spec_outcome(matching: nat) -> ReconcileOutcome {
    if matching == 0 {
        ReconcileOutcome::Created
    } else if matching == 1 {
        ReconcileOutcome::Updated
    } else {
        ReconcileOutcome::Anomalous
    }
}

} // verus!

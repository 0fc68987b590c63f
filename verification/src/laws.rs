use vstd::prelude::*;

use crate::builder::{
    dollar_count, lemma_update_text_placeholders, update_message_param_count,
    update_message_params, update_message_text,
};
use crate::entities::{Channel, Guild, IncomingMessage, Message, User};
use crate::outcome::ReconcileOutcome;
use crate::outcome::spec_outcome;
use crate::pipeline::spec_message_of;
use crate::store::{
    channel_row, channel_updated, count_channels, count_guilds, count_messages, count_users,
    guild_row, guild_updated, lemma_count_channels_push, lemma_count_channels_updated,
    lemma_count_channels_zero, lemma_count_guilds_push, lemma_count_guilds_updated,
    lemma_count_guilds_zero, lemma_count_messages_push, lemma_count_messages_updated,
    lemma_count_messages_zero, lemma_count_users_push, lemma_count_users_updated,
    lemma_count_users_zero, message_row, message_updated, spec_reconcile_channels,
    spec_reconcile_guilds, spec_reconcile_messages, spec_reconcile_users, user_row, user_updated,
};

verus! {

/// Reconciling an id no row holds yields Created, and any subsequent
/// reconciliation of the same id against the resulting table yields
/// Updated.
pub proof fn law_create_then_update_user(rows: Seq<User>, u: User, next: User)
    requires
        count_users(rows, u.id) == 0,
        next.id == u.id,
    ensures
        spec_outcome(count_users(rows, u.id)) == ReconcileOutcome::Created,
        spec_outcome(count_users(spec_reconcile_users(rows, u), next.id)) == ReconcileOutcome::Updated,
{
    lemma_count_users_push(rows, user_row(u), u.id);
}

pub proof fn law_create_then_update_guild(rows: Seq<Guild>, g: Guild, next: Guild)
    requires
        count_guilds(rows, g.id) == 0,
        next.id == g.id,
    ensures
        spec_outcome(count_guilds(rows, g.id)) == ReconcileOutcome::Created,
        spec_outcome(count_guilds(spec_reconcile_guilds(rows, g), next.id)) == ReconcileOutcome::Updated,
{
    lemma_count_guilds_push(rows, guild_row(g), g.id);
}

pub proof fn law_create_then_update_channel(rows: Seq<Channel>, c: Channel, next: Channel)
    requires
        count_channels(rows, c.id) == 0,
        next.id == c.id,
    ensures
        spec_outcome(count_channels(rows, c.id)) == ReconcileOutcome::Created,
        spec_outcome(count_channels(spec_reconcile_channels(rows, c), next.id)) == ReconcileOutcome::Updated,
{
    lemma_count_channels_push(rows, channel_row(c), c.id);
}

pub proof fn law_create_then_update_message(rows: Seq<Message>, m: Message, next: Message)
    requires
        count_messages(rows, m.id) == 0,
        next.id == m.id,
    ensures
        spec_outcome(count_messages(rows, m.id)) == ReconcileOutcome::Created,
        spec_outcome(count_messages(spec_reconcile_messages(rows, m), next.id)) == ReconcileOutcome::Updated,
{
    lemma_count_messages_push(rows, message_row(m), m.id);
}

/// Reconciling the same full user twice leaves the table exactly as
/// reconciling it once does.
pub proof fn law_reconcile_user_idempotent(rows: Seq<User>, u: User)
    ensures
        spec_reconcile_users(spec_reconcile_users(rows, u), u) == spec_reconcile_users(rows, u),
{
    let once = spec_reconcile_users(rows, u);
    if count_users(rows, u.id) == 0 {
        lemma_count_users_push(rows, user_row(u), u.id);
        lemma_count_users_zero(rows, u.id);
        assert(user_updated(once, u) =~= once);
    } else {
        lemma_count_users_updated(rows, u, u.id);
        assert(user_updated(once, u) =~= once);
    }
}

/// Reconciling the same full guild twice equals reconciling it once —
/// except on the one input family where the fallback insert genuinely
/// differs from the update: a guild marked deleted whose id holds no row
/// yet is created with `deleted` false, and only the second run sets the
/// flag.  That input is excluded here.
pub proof fn law_reconcile_guild_idempotent(rows: Seq<Guild>, g: Guild)
    requires
        count_guilds(rows, g.id) > 0 || !g.deleted,
    ensures
        spec_reconcile_guilds(spec_reconcile_guilds(rows, g), g) == spec_reconcile_guilds(rows, g),
{
    let once = spec_reconcile_guilds(rows, g);
    if count_guilds(rows, g.id) == 0 {
        lemma_count_guilds_push(rows, guild_row(g), g.id);
        lemma_count_guilds_zero(rows, g.id);
        assert(guild_updated(once, g) =~= once);
    } else {
        lemma_count_guilds_updated(rows, g, g.id);
        assert(guild_updated(once, g) =~= once);
    }
}

/// As for guilds: a deleted channel with a fresh id is the one excluded
/// input family.
pub proof fn law_reconcile_channel_idempotent(rows: Seq<Channel>, c: Channel)
    requires
        count_channels(rows, c.id) > 0 || !c.deleted,
    ensures
        spec_reconcile_channels(spec_reconcile_channels(rows, c), c) == spec_reconcile_channels(rows, c),
{
    let once = spec_reconcile_channels(rows, c);
    if count_channels(rows, c.id) == 0 {
        lemma_count_channels_push(rows, channel_row(c), c.id);
        lemma_count_channels_zero(rows, c.id);
        assert(channel_updated(once, c) =~= once);
    } else {
        lemma_count_channels_updated(rows, c, c.id);
        assert(channel_updated(once, c) =~= once);
    }
}

/// Reconciling the same full message twice equals reconciling it once,
/// except where the fallback insert differs from the update by design: a
/// message with a fresh id whose update carries `edited_timestamp` or a
/// true `deleted` is created without either, and only the second run
/// writes them.  Those inputs are excluded here.
pub proof fn law_reconcile_message_idempotent(rows: Seq<Message>, m: Message)
    requires
        count_messages(rows, m.id) > 0 || (m.edited_timestamp is None && !m.deleted),
    ensures
        spec_reconcile_messages(spec_reconcile_messages(rows, m), m) == spec_reconcile_messages(rows, m),
{
    let once = spec_reconcile_messages(rows, m);
    if count_messages(rows, m.id) == 0 {
        lemma_count_messages_push(rows, message_row(m), m.id);
        lemma_count_messages_zero(rows, m.id);
        assert(message_updated(once, m) =~= once);
    } else {
        lemma_count_messages_updated(rows, m, m.id);
        assert(message_updated(once, m) =~= once);
    }
}

/// Deletion is monotone through the partial-update path: a message update
/// with `deleted` false omits the column, so it never clears a stored
/// deletion — every stored row keeps its `deleted` flag, and no row is
/// lost.
pub proof fn law_monotone_deletion(rows: Seq<Message>, m: Message, j: int)
    requires
        !m.deleted,
        0 <= j < rows.len(),
    ensures
        spec_reconcile_messages(rows, m).len() >= rows.len(),
        spec_reconcile_messages(rows, m)[j].deleted == rows[j].deleted,
{
}

/// Corrupted storage is handled softly: where several rows share the
/// reconciled id, the outcome is Anomalous, the update has touched those
/// rows, and no insert follows — the table does not grow, and no hard
/// error arises (the model reconciler returns an outcome, never a
/// failure).
pub proof fn law_duplicate_ids_are_anomalous_users(rows: Seq<User>, u: User)
    requires
        count_users(rows, u.id) >= 2,
    ensures
        spec_outcome(count_users(rows, u.id)) == ReconcileOutcome::Anomalous,
        spec_reconcile_users(rows, u) == user_updated(rows, u),
        spec_reconcile_users(rows, u).len() == rows.len(),
{
}

pub proof fn law_duplicate_ids_are_anomalous_messages(rows: Seq<Message>, m: Message)
    requires
        count_messages(rows, m.id) >= 2,
    ensures
        spec_outcome(count_messages(rows, m.id)) == ReconcileOutcome::Anomalous,
        spec_reconcile_messages(rows, m) == message_updated(rows, m),
        spec_reconcile_messages(rows, m).len() == rows.len(),
{
}

/// Enrichment failure is isolated: a message ingested with no enrichment
/// result and a fresh id is stored with both sentiment fields absent, and
/// the ingestion run itself still completes — the model run answers 200
/// unconditionally, enrichment present or not.
pub proof fn law_enrichment_failure_isolation(rows: Seq<Message>, inc: IncomingMessage)
    requires
        count_messages(rows, inc.id) == 0,
    ensures
        spec_reconcile_messages(rows, spec_message_of(inc, None)) == rows.push(
            message_row(spec_message_of(inc, None)),
        ),
        message_row(spec_message_of(inc, None)).sentiment is None,
        message_row(spec_message_of(inc, None)).sentiment_confidence is None,
{
}

/// The builder's parameter list always matches its placeholders: one
/// placeholder per included field plus the id predicate, numbered in
/// append order, and the emitted text holds exactly that many `$` marks.
pub proof fn law_update_builder_alignment(m: Message)
    ensures
        update_message_params(m).len() == update_message_param_count(m),
        dollar_count(update_message_text(m)) == update_message_params(m).len(),
{
    lemma_update_text_placeholders(m);
}

} // verus!

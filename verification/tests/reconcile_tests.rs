use chatstore::entities::{Channel, Guild, Message, User};
use chatstore::outcome::{interpret_rows_modified, ReconcileAction, ReconcileOutcome};
use chatstore::store::{
    reconcile_channel, reconcile_guild, reconcile_message, reconcile_user, Store,
};

fn message(id: i64, content: &str) -> Message {
    Message {
        id,
        content: content.to_string(),
        timestamp: 1111,
        user_id: 10,
        guild_id: 20,
        channel_id: 30,
        sentiment: None,
        sentiment_confidence: None,
        edited_timestamp: None,
        deleted: false,
    }
}

#[test]
fn interpret_rows_modified_covers_all_counts() {
    assert_eq!(interpret_rows_modified(0), ReconcileAction::Insert);
    assert_eq!(interpret_rows_modified(1), ReconcileAction::Confirmed);
    assert_eq!(interpret_rows_modified(2), ReconcileAction::Anomaly);
    assert_eq!(interpret_rows_modified(u64::MAX), ReconcileAction::Anomaly);
}

#[test]
fn fresh_id_is_created_then_updated() {
    let mut s = Store::empty();
    let u = User { id: 7, name: "a".to_string() };
    assert_eq!(reconcile_user(&mut s, &u), ReconcileOutcome::Created);
    assert_eq!(s.users, vec![User { id: 7, name: "a".to_string() }]);
    let u2 = User { id: 7, name: "b".to_string() };
    assert_eq!(reconcile_user(&mut s, &u2), ReconcileOutcome::Updated);
    assert_eq!(s.users, vec![User { id: 7, name: "b".to_string() }]);
}

#[test]
fn reconcile_same_guild_twice_is_idempotent() {
    let mut once = Store::empty();
    let g = Guild { id: 20, name: "g".to_string(), deleted: false };
    assert_eq!(reconcile_guild(&mut once, &g), ReconcileOutcome::Created);
    let mut twice = Store::empty();
    assert_eq!(reconcile_guild(&mut twice, &g), ReconcileOutcome::Created);
    assert_eq!(reconcile_guild(&mut twice, &g), ReconcileOutcome::Updated);
    assert_eq!(once.guilds, twice.guilds);
}

#[test]
fn reconcile_same_message_twice_is_idempotent() {
    let mut m = message(1, "hi");
    m.sentiment = Some("positive".to_string());
    m.sentiment_confidence = Some(77);
    let mut once = Store::empty();
    assert_eq!(reconcile_message(&mut once, &m), ReconcileOutcome::Created);
    let mut twice = Store::empty();
    assert_eq!(reconcile_message(&mut twice, &m), ReconcileOutcome::Created);
    assert_eq!(reconcile_message(&mut twice, &m), ReconcileOutcome::Updated);
    assert_eq!(once.messages, twice.messages);
}

#[test]
fn created_guild_row_starts_not_deleted() {
    let mut s = Store::empty();
    let g = Guild { id: 20, name: "g".to_string(), deleted: true };
    assert_eq!(reconcile_guild(&mut s, &g), ReconcileOutcome::Created);
    assert_eq!(s.guilds.len(), 1);
    assert!(!s.guilds[0].deleted);
    assert_eq!(reconcile_guild(&mut s, &g), ReconcileOutcome::Updated);
    assert!(s.guilds[0].deleted);
}

#[test]
fn channel_update_keeps_stored_guild_id() {
    let mut s = Store::empty();
    let c = Channel { id: 30, name: "c".to_string(), guild_id: 20, deleted: false };
    assert_eq!(reconcile_channel(&mut s, &c), ReconcileOutcome::Created);
    let moved = Channel { id: 30, name: "c2".to_string(), guild_id: 99, deleted: false };
    assert_eq!(reconcile_channel(&mut s, &moved), ReconcileOutcome::Updated);
    assert_eq!(s.channels[0].name, "c2");
    assert_eq!(s.channels[0].guild_id, 20);
}

#[test]
fn partial_update_leaves_absent_fields_untouched() {
    let mut s = Store::empty();
    let mut stored = message(1, "hi");
    stored.sentiment = Some("positive".to_string());
    stored.sentiment_confidence = Some(77);
    assert_eq!(reconcile_message(&mut s, &stored), ReconcileOutcome::Created);
    let plain = message(1, "edited text");
    assert_eq!(reconcile_message(&mut s, &plain), ReconcileOutcome::Updated);
    assert_eq!(s.messages.len(), 1);
    assert_eq!(s.messages[0].content, "edited text");
    assert_eq!(s.messages[0].sentiment, Some("positive".to_string()));
    assert_eq!(s.messages[0].sentiment_confidence, Some(77));
}

#[test]
fn deletion_is_monotone_through_the_update_path() {
    let mut s = Store::empty();
    let mut gone = message(1, "hi");
    gone.deleted = true;
    s.messages.push(gone);
    let update = message(1, "hi again");
    assert_eq!(reconcile_message(&mut s, &update), ReconcileOutcome::Updated);
    assert_eq!(s.messages.len(), 1);
    assert!(s.messages[0].deleted);
    assert_eq!(s.messages[0].content, "hi again");
}

#[test]
fn duplicate_ids_yield_anomalous_without_insert() {
    let mut s = Store::empty();
    s.users.push(User { id: 7, name: "a".to_string() });
    s.users.push(User { id: 7, name: "b".to_string() });
    let u = User { id: 7, name: "c".to_string() };
    assert_eq!(reconcile_user(&mut s, &u), ReconcileOutcome::Anomalous);
    assert_eq!(s.users.len(), 2);
    assert_eq!(s.users[0].name, "c");
    assert_eq!(s.users[1].name, "c");
}

#[test]
fn duplicate_message_ids_yield_anomalous_without_insert() {
    let mut s = Store::empty();
    s.messages.push(message(1, "a"));
    s.messages.push(message(1, "b"));
    let m = message(1, "c");
    assert_eq!(reconcile_message(&mut s, &m), ReconcileOutcome::Anomalous);
    assert_eq!(s.messages.len(), 2);
    assert_eq!(s.messages[0].content, "c");
    assert_eq!(s.messages[1].content, "c");
}

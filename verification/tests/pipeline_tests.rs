use chatstore::entities::{Channel, Guild, IncomingMessage, Message, Sentiment, User};
use chatstore::outcome::{ReconcileOutcome, StorageError};
use chatstore::pipeline::{ingest, on_stage_result, Response, Stage, StepDecision};
use chatstore::store::Store;

fn incoming() -> IncomingMessage {
    IncomingMessage {
        id: 1,
        content: "hi".to_string(),
        timestamp: 1111,
        user_id: 10,
        user_name: "a".to_string(),
        guild_id: 20,
        guild_name: "g".to_string(),
        channel_id: 30,
        channel_name: "c".to_string(),
        edited_timestamp: None,
    }
}

#[test]
fn end_to_end_ingest_populates_every_table() {
    let mut s = Store::empty();
    let enrichment = Some(Sentiment { label: "positive".to_string(), confidence: 77 });
    let r = ingest(&mut s, &incoming(), &enrichment);
    assert_eq!(r, Response { status: 200, body: "OK".to_string() });
    assert_eq!(s.users, vec![User { id: 10, name: "a".to_string() }]);
    assert_eq!(s.guilds, vec![Guild { id: 20, name: "g".to_string(), deleted: false }]);
    assert_eq!(
        s.channels,
        vec![Channel { id: 30, name: "c".to_string(), guild_id: 20, deleted: false }]
    );
    assert_eq!(
        s.messages,
        vec![Message {
            id: 1,
            content: "hi".to_string(),
            timestamp: 1111,
            user_id: 10,
            guild_id: 20,
            channel_id: 30,
            sentiment: Some("positive".to_string()),
            sentiment_confidence: Some(77),
            edited_timestamp: None,
            deleted: false,
        }]
    );
}

#[test]
fn enrichment_failure_still_persists_with_empty_sentiment() {
    let mut s = Store::empty();
    let r = ingest(&mut s, &incoming(), &None);
    assert_eq!(r.status, 200);
    assert_eq!(r.body, "OK");
    assert_eq!(s.messages.len(), 1);
    assert_eq!(s.messages[0].sentiment, None);
    assert_eq!(s.messages[0].sentiment_confidence, None);
    assert_eq!(s.users.len(), 1);
    assert_eq!(s.guilds.len(), 1);
    assert_eq!(s.channels.len(), 1);
}

#[test]
fn repeated_ingest_of_one_event_changes_nothing() {
    let mut s = Store::empty();
    let inc = incoming();
    ingest(&mut s, &inc, &None);
    let users = s.users.clone();
    let guilds = s.guilds.clone();
    let channels = s.channels.clone();
    let messages = s.messages.clone();
    ingest(&mut s, &inc, &None);
    assert_eq!(s.users, users);
    assert_eq!(s.guilds, guilds);
    assert_eq!(s.channels, channels);
    assert_eq!(s.messages, messages);
}

#[test]
fn stages_proceed_in_order_on_success() {
    let ok: Result<ReconcileOutcome, StorageError> = Ok(ReconcileOutcome::Updated);
    assert_eq!(on_stage_result(Stage::User, &ok), StepDecision::Proceed(Stage::Guild));
    assert_eq!(on_stage_result(Stage::Guild, &ok), StepDecision::Proceed(Stage::Channel));
    assert_eq!(on_stage_result(Stage::Channel, &ok), StepDecision::Proceed(Stage::Message));
    assert_eq!(
        on_stage_result(Stage::Message, &ok),
        StepDecision::Respond(Response { status: 200, body: "OK".to_string() })
    );
}

#[test]
fn an_anomalous_stage_is_soft_and_proceeds() {
    let anomalous: Result<ReconcileOutcome, StorageError> = Ok(ReconcileOutcome::Anomalous);
    assert_eq!(
        on_stage_result(Stage::User, &anomalous),
        StepDecision::Proceed(Stage::Guild)
    );
    assert_eq!(
        on_stage_result(Stage::Message, &anomalous),
        StepDecision::Respond(Response { status: 200, body: "OK".to_string() })
    );
}

#[test]
fn a_hard_failure_aborts_with_its_text_at_any_stage() {
    let boom: Result<ReconcileOutcome, StorageError> =
        Err(StorageError { detail: "connection reset".to_string() });
    for stage in [Stage::User, Stage::Guild, Stage::Channel, Stage::Message] {
        assert_eq!(
            on_stage_result(stage, &boom),
            StepDecision::Respond(Response { status: 500, body: "connection reset".to_string() })
        );
    }
}

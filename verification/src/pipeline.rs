use vstd::prelude::*;

use crate::entities::{Channel, Guild, IncomingMessage, Message, Sentiment, User, sentiment_paired};
use crate::outcome::{ReconcileOutcome, StorageError};
use crate::store::{
    Store, reconcile_channel, reconcile_guild, reconcile_message, reconcile_user,
    spec_reconcile_channels, spec_reconcile_guilds, spec_reconcile_messages, spec_reconcile_users,
};

verus! {

/// The persistence stages of one ingestion run, in the order they execute.
/// Enrichment precedes them and is advisory: it has no stage because its
/// failure never short-circuits anything.
#[derive(Clone, Copy, Debug, PartialEq, Eq, Structural)]
pub enum Stage {
    User,
    Guild,
    Channel,
    Message,
}

/// The reply owed to the ingestion caller.
#[derive(Clone, Debug, PartialEq)]
pub struct Response {
    pub status: u16,
    pub body: String,
}

/// What the pipeline does after a stage reports: go on to the given stage,
/// or stop and answer the caller.
#[derive(Clone, Debug, PartialEq)]
pub enum StepDecision {
    Proceed(Stage),
    Respond(Response),
}

/// The user an incoming message describes.
pub open spec fn spec_user_of(inc: IncomingMessage) -> User {
    User { id: inc.user_id, name: inc.user_name }
}

/// The guild an incoming message describes; an ingested event never marks
/// it deleted.
pub open spec fn spec_guild_of(inc: IncomingMessage) -> Guild {
    Guild { id: inc.guild_id, name: inc.guild_name, deleted: false }
}

/// The channel an incoming message describes.
pub open spec fn spec_channel_of(inc: IncomingMessage) -> Channel {
    Channel { id: inc.channel_id, name: inc.channel_name, guild_id: inc.guild_id, deleted: false }
}

/// The message to persist: the incoming fields, with the sentiment pair
/// filled from the enrichment result where there is one and left absent
/// where enrichment failed.
pub open spec fn spec_message_of(inc: IncomingMessage, enrichment: Option<Sentiment>) -> Message {
    Message {
        id: inc.id,
        content: inc.content,
        timestamp: inc.timestamp,
        user_id: inc.user_id,
        guild_id: inc.guild_id,
        channel_id: inc.channel_id,
        sentiment: match enrichment {
            Some(s) => Some(s.label),
            None => None,
        },
        sentiment_confidence: match enrichment {
            Some(s) => Some(s.confidence),
            None => None,
        },
        edited_timestamp: inc.edited_timestamp,
        deleted: false,
    }
}

/// However enrichment went, the message it yields keeps the pairing
/// invariant: label and confidence both present or both absent.
pub proof fn lemma_message_of_paired(inc: IncomingMessage, enrichment: Option<Sentiment>)
    ensures
        sentiment_paired(spec_message_of(inc, enrichment)),
{
}

pub fn user_of(inc: &IncomingMessage) -> (r: User)
    ensures
        r == spec_user_of(*inc),
{
    User { id: inc.user_id, name: inc.user_name.clone() }
}

pub fn guild_of(inc: &IncomingMessage) -> (r: Guild)
    ensures
        r == spec_guild_of(*inc),
{
    Guild { id: inc.guild_id, name: inc.guild_name.clone(), deleted: false }
}

pub fn channel_of(inc: &IncomingMessage) -> (r: Channel)
    ensures
        r == spec_channel_of(*inc),
{
    Channel { id: inc.channel_id, name: inc.channel_name.clone(), guild_id: inc.guild_id, deleted: false }
}

pub fn message_of(inc: &IncomingMessage, enrichment: &Option<Sentiment>) -> (r: Message)
    ensures
        r == spec_message_of(*inc, *enrichment),
{
    let (sentiment, sentiment_confidence): (Option<String>, Option<u32>) = match enrichment {
        Some(s) => (Some(s.label.clone()), Some(s.confidence)),
        None => (None, None),
    };
    Message {
        id: inc.id,
        content: inc.content.clone(),
        timestamp: inc.timestamp,
        user_id: inc.user_id,
        guild_id: inc.guild_id,
        channel_id: inc.channel_id,
        sentiment,
        sentiment_confidence,
        edited_timestamp: inc.edited_timestamp,
        deleted: false,
    }
}

/// The short-circuit policy of the pipeline.  A hard storage failure at any
/// stage stops the run and answers 500 with the failure's text; a completed
/// message stage answers 200 "OK"; any other completed stage, whatever its
/// outcome — an anomalous reconciliation included — proceeds to the next
/// stage in order.
pub fn on_stage_result(stage: Stage, result: &Result<ReconcileOutcome, StorageError>) -> (d: StepDecision)
    ensures
        match result {
            Result::Err(e) => (d matches StepDecision::Respond(resp)
                && resp.status == 500 && resp.body == e.detail),
            Result::Ok(_) => match stage {
                Stage::User => d == StepDecision::Proceed(Stage::Guild),
                Stage::Guild => d == StepDecision::Proceed(Stage::Channel),
                Stage::Channel => d == StepDecision::Proceed(Stage::Message),
                Stage::Message => (d matches StepDecision::Respond(resp)
                    && resp.status == 200 && resp.body@ == "OK"@),
            },
        },
{
    match result {
        Err(e) => StepDecision::Respond(Response { status: 500, body: e.detail.clone() }),
        Ok(_) => match stage {
            Stage::User => StepDecision::Proceed(Stage::Guild),
            Stage::Guild => StepDecision::Proceed(Stage::Channel),
            Stage::Channel => StepDecision::Proceed(Stage::Message),
            Stage::Message => StepDecision::Respond(Response { status: 200, body: String::from_str("OK") }),
        },
    }
}

/// One whole ingestion run against the store model: reconcile the user,
/// the guild, the channel and then the message, the message carrying the
/// enrichment result or nothing at all.  The model's statements cannot
/// fail, so the run always completes and answers 200 "OK"; each table ends
/// exactly as its reconciliation alone prescribes, and an absent enrichment
/// leaves the persisted sentiment pair absent.
pub fn ingest(store: &mut Store, inc: &IncomingMessage, enrichment: &Option<Sentiment>) -> (r: Response)
    ensures
        final(store).users@ == spec_reconcile_users(old(store).users@, spec_user_of(*inc)),
        final(store).guilds@ == spec_reconcile_guilds(old(store).guilds@, spec_guild_of(*inc)),
        final(store).channels@ == spec_reconcile_channels(old(store).channels@, spec_channel_of(*inc)),
        final(store).messages@ == spec_reconcile_messages(old(store).messages@, spec_message_of(*inc, *enrichment)),
        r.status == 200,
        r.body@ == "OK"@,
{
    let user = user_of(inc);
    let guild = guild_of(inc);
    let channel = channel_of(inc);
    let message = message_of(inc, enrichment);
    let _ = reconcile_user(store, &user);
    let _ = reconcile_guild(store, &guild);
    let _ = reconcile_channel(store, &channel);
    let _ = reconcile_message(store, &message);
    Response { status: 200, body: String::from_str("OK") }
}

} // verus!

use vstd::prelude::*;

verus! {

/// A chat user.  Identifiers are stable 64-bit integers assigned by the
/// upstream platform, never generated here.
#[derive(Clone, Debug, PartialEq)]
pub struct User {
    pub id: i64,
    pub name: String,
}

/// A guild.  `deleted` defaults to false on creation and is only ever set by
/// a later reconciliation; rows are never physically removed.
#[derive(Clone, Debug, PartialEq)]
pub struct Guild {
    pub id: i64,
    pub name: String,
    pub deleted: bool,
}

/// A channel.  `guild_id` is a non-owning reference to a guild; no
/// referential integrity is enforced in this layer.
#[derive(Clone, Debug, PartialEq)]
pub struct Channel {
    pub id: i64,
    pub name: String,
    pub guild_id: i64,
    pub deleted: bool,
}

/// A message.  Timestamps are microseconds since the Unix epoch; the
/// boundary converts to and from the platform's clock representation.
/// `sentiment_confidence` carries the enrichment service's 32-bit confidence
/// value as its raw bit pattern: the write path only tests its presence and
/// hands it through, never interprets it numerically.
#[derive(Clone, Debug, PartialEq)]
pub struct Message {
    pub id: i64,
    pub content: String,
    pub timestamp: i64,
    pub user_id: i64,
    pub guild_id: i64,
    pub channel_id: i64,
    pub sentiment: Option<String>,
    pub sentiment_confidence: Option<u32>,
    pub edited_timestamp: Option<i64>,
    pub deleted: bool,
}

/// The label and confidence returned by the enrichment service for one text.
#[derive(Clone, Debug, PartialEq)]
pub struct Sentiment {
    pub label: String,
    pub confidence: u32,
}

/// The body of a message-ingestion request: a full description of the
/// message together with the names of the entities it references.
#[derive(Clone, Debug, PartialEq)]
pub struct IncomingMessage {
    pub id: i64,
    pub content: String,
    pub timestamp: i64,
    pub user_id: i64,
    pub user_name: String,
    pub guild_id: i64,
    pub guild_name: String,
    pub channel_id: i64,
    pub channel_name: String,
    pub edited_timestamp: Option<i64>,
}

/// `sentiment` and `sentiment_confidence` are either both present or both
/// absent.
pub open spec fn sentiment_paired(m: Message) -> bool {
    m.sentiment is Some <==> m.sentiment_confidence is Some
}

/// Clone an optional string field by value.
pub fn clone_opt_string(s: &Option<String>) -> (r: Option<String>)
    ensures
        r == *s,
{
    match s {
        Some(x) => Some(x.clone()),
        None => None,
    }
}

} // verus!

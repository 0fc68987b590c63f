use vstd::prelude::*;

use crate::entities::{Channel, Guild, Message, User, clone_opt_string};

verus! {

/// One positional statement parameter, tagged with the column type the
/// boundary must bind it as.  `Time` carries microseconds since the Unix
/// epoch; `Confidence` and `NullableConfidence` carry the enrichment
/// confidence's raw bit pattern.  The nullable variants bind the two
/// columns an insert may set to null.
#[derive(Clone, Debug, PartialEq)]
pub enum Value {
    Int(i64),
    Text(String),
    Flag(bool),
    Time(i64),
    Confidence(u32),
    NullableText(Option<String>),
    NullableConfidence(Option<u32>),
}

/// A parameterized statement: its text, with positional placeholders
/// `$1, $2, ...`, and the parameters in placeholder order.
pub struct Statement {
    pub text: String,
    pub params: Vec<Value>,
}

/// Full-field update for a user: the one mutable field, then the id
/// predicate last.
pub open spec fn user_update_text() -> Seq<char> {
    "UPDATE users SET name = $1 WHERE id = $2"@
}

pub open spec fn user_update_params(u: User) -> Seq<Value> {
    seq![Value::Text(u.name), Value::Int(u.id)]
}

pub fn user_update(u: &User) -> (r: Statement)
    ensures
        r.text@ == user_update_text(),
        r.params@ == user_update_params(*u),
{
    let text = String::from_str("UPDATE users SET name = $1 WHERE id = $2");
    let mut params: Vec<Value> = Vec::new();
    params.push(Value::Text(u.name.clone()));
    params.push(Value::Int(u.id));
    proof {
        assert(params@ =~= user_update_params(*u));
    }
    Statement { text, params }
}

pub open spec fn user_insert_text() -> Seq<char> {
    "INSERT INTO users (id, name) VALUES ($1, $2)"@
}

pub open spec fn user_insert_params(u: User) -> Seq<Value> {
    seq![Value::Int(u.id), Value::Text(u.name)]
}

pub fn user_insert(u: &User) -> (r: Statement)
    ensures
        r.text@ == user_insert_text(),
        r.params@ == user_insert_params(*u),
{
    let text = String::from_str("INSERT INTO users (id, name) VALUES ($1, $2)");
    let mut params: Vec<Value> = Vec::new();
    params.push(Value::Int(u.id));
    params.push(Value::Text(u.name.clone()));
    proof {
        assert(params@ =~= user_insert_params(*u));
    }
    Statement { text, params }
}

/// Full-field update for a guild: both mutable fields, id last.
pub open spec fn guild_update_text() -> Seq<char> {
    "UPDATE guilds SET name = $1, deleted = $2 WHERE id = $3"@
}

pub open spec fn guild_update_params(g: Guild) -> Seq<Value> {
    seq![Value::Text(g.name), Value::Flag(g.deleted), Value::Int(g.id)]
}

pub fn guild_update(g: &Guild) -> (r: Statement)
    ensures
        r.text@ == guild_update_text(),
        r.params@ == guild_update_params(*g),
{
    let text = String::from_str("UPDATE guilds SET name = $1, deleted = $2 WHERE id = $3");
    let mut params: Vec<Value> = Vec::new();
    params.push(Value::Text(g.name.clone()));
    params.push(Value::Flag(g.deleted));
    params.push(Value::Int(g.id));
    proof {
        assert(params@ =~= guild_update_params(*g));
    }
    Statement { text, params }
}

/// Insert of a new guild.  `deleted` is not sent: it defaults to false on
/// creation.
pub open spec fn guild_insert_text() -> Seq<char> {
    "INSERT INTO guilds (id, name) VALUES ($1, $2)"@
}

pub open spec fn guild_insert_params(g: Guild) -> Seq<Value> {
    seq![Value::Int(g.id), Value::Text(g.name)]
}

pub fn guild_insert(g: &Guild) -> (r: Statement)
    ensures
        r.text@ == guild_insert_text(),
        r.params@ == guild_insert_params(*g),
{
    let text = String::from_str("INSERT INTO guilds (id, name) VALUES ($1, $2)");
    let mut params: Vec<Value> = Vec::new();
    params.push(Value::Int(g.id));
    params.push(Value::Text(g.name.clone()));
    proof {
        assert(params@ =~= guild_insert_params(*g));
    }
    Statement { text, params }
}

/// Full-field update for a channel.  `guild_id` is set at creation and not
/// mutable through reconciliation.
pub open spec fn channel_update_text() -> Seq<char> {
    "UPDATE channels SET name = $1, deleted = $2 WHERE id = $3"@
}

pub open spec fn channel_update_params(c: Channel) -> Seq<Value> {
    seq![Value::Text(c.name), Value::Flag(c.deleted), Value::Int(c.id)]
}

pub fn channel_update(c: &Channel) -> (r: Statement)
    ensures
        r.text@ == channel_update_text(),
        r.params@ == channel_update_params(*c),
{
    let text = String::from_str("UPDATE channels SET name = $1, deleted = $2 WHERE id = $3");
    let mut params: Vec<Value> = Vec::new();
    params.push(Value::Text(c.name.clone()));
    params.push(Value::Flag(c.deleted));
    params.push(Value::Int(c.id));
    proof {
        assert(params@ =~= channel_update_params(*c));
    }
    Statement { text, params }
}

/// Insert of a new channel; `deleted` defaults to false on creation.
pub open spec fn channel_insert_text() -> Seq<char> {
    "INSERT INTO channels (id, name, guild_id) VALUES ($1, $2, $3)"@
}

pub open spec fn channel_insert_params(c: Channel) -> Seq<Value> {
    seq![Value::Int(c.id), Value::Text(c.name), Value::Int(c.guild_id)]
}

pub fn channel_insert(c: &Channel) -> (r: Statement)
    ensures
        r.text@ == channel_insert_text(),
        r.params@ == channel_insert_params(*c),
{
    let text = String::from_str("INSERT INTO channels (id, name, guild_id) VALUES ($1, $2, $3)");
    let mut params: Vec<Value> = Vec::new();
    params.push(Value::Int(c.id));
    params.push(Value::Text(c.name.clone()));
    params.push(Value::Int(c.guild_id));
    proof {
        assert(params@ =~= channel_insert_params(*c));
    }
    Statement { text, params }
}

/// Insert of a new message.  `edited_timestamp` and `deleted` are not sent:
/// a created row starts unedited and not deleted, whatever the incoming
/// update carried for them.
pub open spec fn message_insert_text() -> Seq<char> {
    "INSERT INTO messages (id, user_id, guild_id, channel_id, content, timestamp, sentiment, sentiment_confidence) VALUES ($1, $2, $3, $4, $5, $6, $7, $8)"@
}

pub open spec fn message_insert_params(m: Message) -> Seq<Value> {
    seq![
        Value::Int(m.id),
        Value::Int(m.user_id),
        Value::Int(m.guild_id),
        Value::Int(m.channel_id),
        Value::Text(m.content),
        Value::Time(m.timestamp),
        Value::NullableText(m.sentiment),
        Value::NullableConfidence(m.sentiment_confidence),
    ]
}

pub fn message_insert(m: &Message) -> (r: Statement)
    ensures
        r.text@ == message_insert_text(),
        r.params@ == message_insert_params(*m),
{
    let text = String::from_str(
        "INSERT INTO messages (id, user_id, guild_id, channel_id, content, timestamp, sentiment, sentiment_confidence) VALUES ($1, $2, $3, $4, $5, $6, $7, $8)",
    );
    let mut params: Vec<Value> = Vec::new();
    params.push(Value::Int(m.id));
    params.push(Value::Int(m.user_id));
    params.push(Value::Int(m.guild_id));
    params.push(Value::Int(m.channel_id));
    params.push(Value::Text(m.content.clone()));
    params.push(Value::Time(m.timestamp));
    params.push(Value::NullableText(clone_opt_string(&m.sentiment)));
    params.push(Value::NullableConfidence(m.sentiment_confidence));
    proof {
        assert(params@ =~= message_insert_params(*m));
    }
    Statement { text, params }
}

/// The decimal digit of a placeholder index, for the at most six parameters
/// a message update can carry.
pub open spec fn placeholder_digit(n: int) -> Seq<char> {
    if n == 1 {
        "1"@
    } else if n == 2 {
        "2"@
    } else if n == 3 {
        "3"@
    } else if n == 4 {
        "4"@
    } else if n == 5 {
        "5"@
    } else {
        "6"@
    }
}

fn digit_str(n: usize) -> (r: &'static str)
    requires
        1 <= n <= 6,
    ensures
        r@ == placeholder_digit(n as int),
{
    if n == 1 {
        "1"
    } else if n == 2 {
        "2"
    } else if n == 3 {
        "3"
    } else if n == 4 {
        "4"
    } else if n == 5 {
        "5"
    } else {
        "6"
    }
}

/// The partial-update statement text for a message: `content` always, each
/// optional field only if present, `deleted` only if true, the id predicate
/// last.  Placeholders are numbered in the exact order fields are appended.
pub open spec fn update_message_text(m: Message) -> Seq<char> {
    let t0 = "UPDATE messages SET content = $1"@;
    let n0 = 2int;
    let t1 = if m.sentiment is Some {
        t0 + ", sentiment = $"@ + placeholder_digit(n0)
    } else {
        t0
    };
    let n1 = if m.sentiment is Some {
        n0 + 1
    } else {
        n0
    };
    let t2 = if m.sentiment_confidence is Some {
        t1 + ", sentiment_confidence = $"@ + placeholder_digit(n1)
    } else {
        t1
    };
    let n2 = if m.sentiment_confidence is Some {
        n1 + 1
    } else {
        n1
    };
    let t3 = if m.edited_timestamp is Some {
        t2 + ", edited_timestamp = $"@ + placeholder_digit(n2)
    } else {
        t2
    };
    let n3 = if m.edited_timestamp is Some {
        n2 + 1
    } else {
        n2
    };
    let t4 = if m.deleted {
        t3 + ", deleted = $"@ + placeholder_digit(n3)
    } else {
        t3
    };
    let n4 = if m.deleted {
        n3 + 1
    } else {
        n3
    };
    t4 + " WHERE id = $"@ + placeholder_digit(n4)
}

/// The parameters of the partial update, in placeholder order, the id last.
pub open spec fn update_message_params(m: Message) -> Seq<Value> {
    let p0 = seq![Value::Text(m.content)];
    let p1 = if m.sentiment is Some {
        p0.push(Value::Text(m.sentiment->0))
    } else {
        p0
    };
    let p2 = if m.sentiment_confidence is Some {
        p1.push(Value::Confidence(m.sentiment_confidence->0))
    } else {
        p1
    };
    let p3 = if m.edited_timestamp is Some {
        p2.push(Value::Time(m.edited_timestamp->0))
    } else {
        p2
    };
    let p4 = if m.deleted {
        p3.push(Value::Flag(true))
    } else {
        p3
    };
    p4.push(Value::Int(m.id))
}

/// How many parameters, and therefore placeholders, the partial update for
/// `m` carries: `content` and the id predicate always, plus one for each
/// optional field present and one when `deleted` is true.
pub open spec fn update_message_param_count(m: Message) -> int {
    2 + (if m.sentiment is Some { 1int } else { 0 })
      + (if m.sentiment_confidence is Some { 1int } else { 0 })
      + (if m.edited_timestamp is Some { 1int } else { 0 })
      + (if m.deleted { 1int } else { 0 })
}

/// How many `$` characters a statement text holds.  Each placeholder
/// contributes exactly one, and no column or keyword contains one, so this
/// is the placeholder count of the texts built here.
pub open spec fn dollar_count(s: Seq<char>) -> int
    decreases s.len(),
{
    if s.len() == 0 {
        0
    } else {
        dollar_count(s.drop_last()) + (if s.last() == '$' { 1int } else { 0 })
    }
}

proof fn lemma_dollar_count_add(a: Seq<char>, b: Seq<char>)
    ensures
        dollar_count(a + b) == dollar_count(a) + dollar_count(b),
    decreases b.len(),
{
    if b.len() == 0 {
        assert(a + b =~= a);
    } else {
        lemma_dollar_count_add(a, b.drop_last());
        assert((a + b).drop_last() =~= a + b.drop_last());
        assert((a + b).last() == b.last());
    }
}

proof fn lemma_digit_no_dollar(n: int)
    ensures
        dollar_count(placeholder_digit(n)) == 0,
{
    reveal_strlit("1");
    reveal_strlit("2");
    reveal_strlit("3");
    reveal_strlit("4");
    reveal_strlit("5");
    reveal_strlit("6");
    reveal_with_fuel(dollar_count, 3);
}

/// The statement the builder emits holds exactly as many placeholders as
/// it has parameters: one per included field, plus the id predicate.
pub proof fn lemma_update_text_placeholders(m: Message)
    ensures
        dollar_count(update_message_text(m)) == update_message_param_count(m),
{
    reveal_strlit("UPDATE messages SET content = $1");
    reveal_strlit(", sentiment = $");
    reveal_strlit(", sentiment_confidence = $");
    reveal_strlit(", edited_timestamp = $");
    reveal_strlit(", deleted = $");
    reveal_strlit(" WHERE id = $");
    reveal_with_fuel(dollar_count, 34);
    assert(dollar_count("UPDATE messages SET content = $1"@) == 1);
    assert(dollar_count(", sentiment = $"@) == 1);
    assert(dollar_count(", sentiment_confidence = $"@) == 1);
    assert(dollar_count(", edited_timestamp = $"@) == 1);
    assert(dollar_count(", deleted = $"@) == 1);
    assert(dollar_count(" WHERE id = $"@) == 1);
    let t0 = "UPDATE messages SET content = $1"@;
    let n0 = 2int;
    if m.sentiment is Some {
        lemma_dollar_count_add(t0, ", sentiment = $"@);
        lemma_dollar_count_add(t0 + ", sentiment = $"@, placeholder_digit(n0));
        lemma_digit_no_dollar(n0);
    }
    let t1 = if m.sentiment is Some {
        t0 + ", sentiment = $"@ + placeholder_digit(n0)
    } else {
        t0
    };
    let n1 = if m.sentiment is Some {
        n0 + 1
    } else {
        n0
    };
    if m.sentiment_confidence is Some {
        lemma_dollar_count_add(t1, ", sentiment_confidence = $"@);
        lemma_dollar_count_add(t1 + ", sentiment_confidence = $"@, placeholder_digit(n1));
        lemma_digit_no_dollar(n1);
    }
    let t2 = if m.sentiment_confidence is Some {
        t1 + ", sentiment_confidence = $"@ + placeholder_digit(n1)
    } else {
        t1
    };
    let n2 = if m.sentiment_confidence is Some {
        n1 + 1
    } else {
        n1
    };
    if m.edited_timestamp is Some {
        lemma_dollar_count_add(t2, ", edited_timestamp = $"@);
        lemma_dollar_count_add(t2 + ", edited_timestamp = $"@, placeholder_digit(n2));
        lemma_digit_no_dollar(n2);
    }
    let t3 = if m.edited_timestamp is Some {
        t2 + ", edited_timestamp = $"@ + placeholder_digit(n2)
    } else {
        t2
    };
    let n3 = if m.edited_timestamp is Some {
        n2 + 1
    } else {
        n2
    };
    if m.deleted {
        lemma_dollar_count_add(t3, ", deleted = $"@);
        lemma_dollar_count_add(t3 + ", deleted = $"@, placeholder_digit(n3));
        lemma_digit_no_dollar(n3);
    }
    let t4 = if m.deleted {
        t3 + ", deleted = $"@ + placeholder_digit(n3)
    } else {
        t3
    };
    let n4 = if m.deleted {
        n3 + 1
    } else {
        n3
    };
    lemma_dollar_count_add(t4, " WHERE id = $"@);
    lemma_dollar_count_add(t4 + " WHERE id = $"@, placeholder_digit(n4));
    lemma_digit_no_dollar(n4);
}

/// Build the partial update for a message.  Fields absent from the update
/// are omitted from the statement and left untouched in storage; `deleted`
/// is sent only when true, so this path can never clear a stored deletion.
pub fn build_update(m: &Message) -> (r: Statement)
    ensures
        r.text@ == update_message_text(*m),
        r.params@ == update_message_params(*m),
        r.params@.len() == update_message_param_count(*m),
        dollar_count(r.text@) == r.params@.len(),
{
    let mut text = String::from_str("UPDATE messages SET content = $1");
    let mut params: Vec<Value> = Vec::new();
    params.push(Value::Text(m.content.clone()));
    let mut index: usize = 2;

    if let Some(s) = &m.sentiment {
        text.append(", sentiment = $");
        text.append(digit_str(index));
        index = index + 1;
        params.push(Value::Text(s.clone()));
    }

    if let Some(c) = &m.sentiment_confidence {
        text.append(", sentiment_confidence = $");
        text.append(digit_str(index));
        index = index + 1;
        params.push(Value::Confidence(*c));
    }

    if let Some(t) = &m.edited_timestamp {
        text.append(", edited_timestamp = $");
        text.append(digit_str(index));
        index = index + 1;
        params.push(Value::Time(*t));
    }

    if m.deleted {
        text.append(", deleted = $");
        text.append(digit_str(index));
        index = index + 1;
        params.push(Value::Flag(true));
    }

    text.append(" WHERE id = $");
    text.append(digit_str(index));
    params.push(Value::Int(m.id));

    proof {
        assert(text@ =~= update_message_text(*m));
        assert(params@ =~= update_message_params(*m));
        lemma_update_text_placeholders(*m);
    }
    Statement { text, params }
}

} // verus!

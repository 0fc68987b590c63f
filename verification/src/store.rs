use vstd::prelude::*;

use crate::entities::{Channel, Guild, Message, User, clone_opt_string};
use crate::outcome::{ReconcileOutcome, spec_outcome};

verus! {

/// The stored state the reconciliation engine is verified against: one
/// table per entity, rows in insertion order.  Duplicate ids are
/// representable on purpose — they are the corruption that the anomalous
/// outcome reports.  The relational store at the boundary executes the same
/// statements this crate builds; this model gives those statements their
/// meaning.
pub struct Store {
    pub users: Vec<User>,
    pub guilds: Vec<Guild>,
    pub channels: Vec<Channel>,
    pub messages: Vec<Message>,
}

impl Store {
    /// A store with no rows in any table.
    pub fn empty() -> (s: Store)
        ensures
            s.users@ == Seq::<User>::empty(),
            s.guilds@ == Seq::<Guild>::empty(),
            s.channels@ == Seq::<Channel>::empty(),
            s.messages@ == Seq::<Message>::empty(),
    {
        Store { users: Vec::new(), guilds: Vec::new(), channels: Vec::new(), messages: Vec::new() }
    }
}

/// How many rows of the table match an id.
pub open spec fn count_users(rows: Seq<User>, id: i64) -> nat
    decreases rows.len(),
{
    if rows.len() == 0 {
        0
    } else {
        count_users(rows.drop_last(), id) + (if rows.last().id == id { 1nat } else { 0 })
    }
}

pub open spec fn count_guilds(rows: Seq<Guild>, id: i64) -> nat
    decreases rows.len(),
{
    if rows.len() == 0 {
        0
    } else {
        count_guilds(rows.drop_last(), id) + (if rows.last().id == id { 1nat } else { 0 })
    }
}

pub open spec fn count_channels(rows: Seq<Channel>, id: i64) -> nat
    decreases rows.len(),
{
    if rows.len() == 0 {
        0
    } else {
        count_channels(rows.drop_last(), id) + (if rows.last().id == id { 1nat } else { 0 })
    }
}

pub open spec fn count_messages(rows: Seq<Message>, id: i64) -> nat
    decreases rows.len(),
{
    if rows.len() == 0 {
        0
    } else {
        count_messages(rows.drop_last(), id) + (if rows.last().id == id { 1nat } else { 0 })
    }
}

/// The effect of the full-field user update on one row.
pub open spec fn apply_user(r: User, u: User) -> User {
    if r.id == u.id {
        User { id: r.id, name: u.name }
    } else {
        r
    }
}

/// The effect of the full-field guild update on one row.
pub open spec fn apply_guild(r: Guild, g: Guild) -> Guild {
    if r.id == g.id {
        Guild { id: r.id, name: g.name, deleted: g.deleted }
    } else {
        r
    }
}

/// The effect of the full-field channel update on one row.  `guild_id` is
/// not among the updated columns: it keeps its stored value.
pub open spec fn apply_channel(r: Channel, c: Channel) -> Channel {
    if r.id == c.id {
        Channel { id: r.id, name: c.name, guild_id: r.guild_id, deleted: c.deleted }
    } else {
        r
    }
}

/// The effect of the partial message update on one row: `content` always,
/// each optional field only where the update carries it, `deleted` only
/// when true — an absent field and a false `deleted` leave the stored value
/// untouched.  The referenced ids and the timestamp are not updated columns.
pub open spec fn apply_message(r: Message, m: Message) -> Message {
    if r.id == m.id {
        Message {
            id: r.id,
            content: m.content,
            timestamp: r.timestamp,
            user_id: r.user_id,
            guild_id: r.guild_id,
            channel_id: r.channel_id,
            sentiment: if m.sentiment is Some {
                m.sentiment
            } else {
                r.sentiment
            },
            sentiment_confidence: if m.sentiment_confidence is Some {
                m.sentiment_confidence
            } else {
                r.sentiment_confidence
            },
            edited_timestamp: if m.edited_timestamp is Some {
                m.edited_timestamp
            } else {
                r.edited_timestamp
            },
            deleted: if m.deleted {
                true
            } else {
                r.deleted
            },
        }
    } else {
        r
    }
}

/// The whole-table effect of one update statement: every matching row is
/// touched, every other row is untouched.
pub open spec fn user_updated(rows: Seq<User>, u: User) -> Seq<User> {
    rows.map_values(|r: User| apply_user(r, u))
}

pub open spec fn guild_updated(rows: Seq<Guild>, g: Guild) -> Seq<Guild> {
    rows.map_values(|r: Guild| apply_guild(r, g))
}

pub open spec fn channel_updated(rows: Seq<Channel>, c: Channel) -> Seq<Channel> {
    rows.map_values(|r: Channel| apply_channel(r, c))
}

pub open spec fn message_updated(rows: Seq<Message>, m: Message) -> Seq<Message> {
    rows.map_values(|r: Message| apply_message(r, m))
}

/// The row the fallback insert writes.  For a user it is the full entity.
pub open spec fn user_row(u: User) -> User {
    u
}

/// A created guild row: `deleted` is not an inserted column, it starts
/// false whatever the entity carried.
pub open spec fn guild_row(g: Guild) -> Guild {
    Guild { id: g.id, name: g.name, deleted: false }
}

/// A created channel row: `deleted` starts false.
pub open spec fn channel_row(c: Channel) -> Channel {
    Channel { id: c.id, name: c.name, guild_id: c.guild_id, deleted: false }
}

/// A created message row: `edited_timestamp` and `deleted` are not inserted
/// columns, so a created row starts unedited and not deleted.
pub open spec fn message_row(m: Message) -> Message {
    Message {
        id: m.id,
        content: m.content,
        timestamp: m.timestamp,
        user_id: m.user_id,
        guild_id: m.guild_id,
        channel_id: m.channel_id,
        sentiment: m.sentiment,
        sentiment_confidence: m.sentiment_confidence,
        edited_timestamp: None,
        deleted: false,
    }
}

/// The table after one whole reconciliation: update every matching row,
/// and append the fallback row only when nothing matched.
pub open spec fn spec_reconcile_users(rows: Seq<User>, u: User) -> Seq<User> {
    if count_users(rows, u.id) == 0 {
        rows.push(user_row(u))
    } else {
        user_updated(rows, u)
    }
}

pub open spec fn spec_reconcile_guilds(rows: Seq<Guild>, g: Guild) -> Seq<Guild> {
    if count_guilds(rows, g.id) == 0 {
        rows.push(guild_row(g))
    } else {
        guild_updated(rows, g)
    }
}

pub open spec fn spec_reconcile_channels(rows: Seq<Channel>, c: Channel) -> Seq<Channel> {
    if count_channels(rows, c.id) == 0 {
        rows.push(channel_row(c))
    } else {
        channel_updated(rows, c)
    }
}

pub open spec fn spec_reconcile_messages(rows: Seq<Message>, m: Message) -> Seq<Message> {
    if count_messages(rows, m.id) == 0 {
        rows.push(message_row(m))
    } else {
        message_updated(rows, m)
    }
}

/// A table holds no row of an id exactly when its match count is zero.
pub proof fn lemma_count_users_zero(rows: Seq<User>, id: i64)
    ensures
        (count_users(rows, id) == 0) <==> (forall|j: int| 0 <= j < rows.len() ==> rows[j].id != id),
    decreases rows.len(),
{
    if rows.len() > 0 {
        lemma_count_users_zero(rows.drop_last(), id);
        assert(forall|j: int| 0 <= j < rows.len() - 1 ==> rows[j] == rows.drop_last()[j]);
        assert(rows.last() == rows[rows.len() - 1]);
    }
}

pub proof fn lemma_count_guilds_zero(rows: Seq<Guild>, id: i64)
    ensures
        (count_guilds(rows, id) == 0) <==> (forall|j: int| 0 <= j < rows.len() ==> rows[j].id != id),
    decreases rows.len(),
{
    if rows.len() > 0 {
        lemma_count_guilds_zero(rows.drop_last(), id);
        assert(forall|j: int| 0 <= j < rows.len() - 1 ==> rows[j] == rows.drop_last()[j]);
        assert(rows.last() == rows[rows.len() - 1]);
    }
}

pub proof fn lemma_count_channels_zero(rows: Seq<Channel>, id: i64)
    ensures
        (count_channels(rows, id) == 0) <==> (forall|j: int| 0 <= j < rows.len() ==> rows[j].id != id),
    decreases rows.len(),
{
    if rows.len() > 0 {
        lemma_count_channels_zero(rows.drop_last(), id);
        assert(forall|j: int| 0 <= j < rows.len() - 1 ==> rows[j] == rows.drop_last()[j]);
        assert(rows.last() == rows[rows.len() - 1]);
    }
}

pub proof fn lemma_count_messages_zero(rows: Seq<Message>, id: i64)
    ensures
        (count_messages(rows, id) == 0) <==> (forall|j: int| 0 <= j < rows.len() ==> rows[j].id != id),
    decreases rows.len(),
{
    if rows.len() > 0 {
        lemma_count_messages_zero(rows.drop_last(), id);
        assert(forall|j: int| 0 <= j < rows.len() - 1 ==> rows[j] == rows.drop_last()[j]);
        assert(rows.last() == rows[rows.len() - 1]);
    }
}

/// An update statement changes no id, so it changes no match count.
pub proof fn lemma_count_users_updated(rows: Seq<User>, u: User, id: i64)
    ensures
        count_users(user_updated(rows, u), id) == count_users(rows, id),
    decreases rows.len(),
{
    if rows.len() > 0 {
        lemma_count_users_updated(rows.drop_last(), u, id);
        assert(user_updated(rows, u).drop_last() =~= user_updated(rows.drop_last(), u));
        assert(user_updated(rows, u).last() == apply_user(rows.last(), u));
    }
}

pub proof fn lemma_count_guilds_updated(rows: Seq<Guild>, g: Guild, id: i64)
    ensures
        count_guilds(guild_updated(rows, g), id) == count_guilds(rows, id),
    decreases rows.len(),
{
    if rows.len() > 0 {
        lemma_count_guilds_updated(rows.drop_last(), g, id);
        assert(guild_updated(rows, g).drop_last() =~= guild_updated(rows.drop_last(), g));
        assert(guild_updated(rows, g).last() == apply_guild(rows.last(), g));
    }
}

pub proof fn lemma_count_channels_updated(rows: Seq<Channel>, c: Channel, id: i64)
    ensures
        count_channels(channel_updated(rows, c), id) == count_channels(rows, id),
    decreases rows.len(),
{
    if rows.len() > 0 {
        lemma_count_channels_updated(rows.drop_last(), c, id);
        assert(channel_updated(rows, c).drop_last() =~= channel_updated(rows.drop_last(), c));
        assert(channel_updated(rows, c).last() == apply_channel(rows.last(), c));
    }
}

pub proof fn lemma_count_messages_updated(rows: Seq<Message>, m: Message, id: i64)
    ensures
        count_messages(message_updated(rows, m), id) == count_messages(rows, id),
    decreases rows.len(),
{
    if rows.len() > 0 {
        lemma_count_messages_updated(rows.drop_last(), m, id);
        assert(message_updated(rows, m).drop_last() =~= message_updated(rows.drop_last(), m));
        assert(message_updated(rows, m).last() == apply_message(rows.last(), m));
    }
}

/// Appending a row changes exactly the appended id's match count, by one.
pub proof fn lemma_count_users_push(rows: Seq<User>, x: User, id: i64)
    ensures
        count_users(rows.push(x), id) == count_users(rows, id) + (if x.id == id { 1int } else { 0 }),
{
    assert(rows.push(x).drop_last() =~= rows);
    assert(rows.push(x).last() == x);
}

pub proof fn lemma_count_guilds_push(rows: Seq<Guild>, x: Guild, id: i64)
    ensures
        count_guilds(rows.push(x), id) == count_guilds(rows, id) + (if x.id == id { 1int } else { 0 }),
{
    assert(rows.push(x).drop_last() =~= rows);
    assert(rows.push(x).last() == x);
}

pub proof fn lemma_count_channels_push(rows: Seq<Channel>, x: Channel, id: i64)
    ensures
        count_channels(rows.push(x), id) == count_channels(rows, id) + (if x.id == id { 1int } else { 0 }),
{
    assert(rows.push(x).drop_last() =~= rows);
    assert(rows.push(x).last() == x);
}

pub proof fn lemma_count_messages_push(rows: Seq<Message>, x: Message, id: i64)
    ensures
        count_messages(rows.push(x), id) == count_messages(rows, id) + (if x.id == id { 1int } else { 0 }),
{
    assert(rows.push(x).drop_last() =~= rows);
    assert(rows.push(x).last() == x);
}

/// Run the full-field user update against the table: every matching row is
/// rewritten, and the affected-row count comes back.
fn update_users(rows: &mut Vec<User>, u: &User) -> (matched: usize)
    ensures
        final(rows)@ == user_updated(old(rows)@, *u),
        matched == count_users(old(rows)@, u.id),
{
    let ghost rows0 = rows@;
    let n = rows.len();
    let mut out: Vec<User> = Vec::new();
    let mut matched: usize = 0;
    let mut i: usize = 0;
    while i < n
        invariant
            i <= n,
            n == rows0.len(),
            rows@ == rows0,
            out@.len() == i,
            forall|j: int| 0 <= j < i ==> out@[j] == apply_user(rows0[j], *u),
            matched <= i,
            matched == count_users(rows0.take(i as int), u.id),
        decreases n - i,
    {
        proof {
            assert(rows0.take(i as int + 1).drop_last() =~= rows0.take(i as int));
            assert(rows0.take(i as int + 1).last() == rows0[i as int]);
        }
        let r = &rows[i];
        if r.id == u.id {
            out.push(User { id: r.id, name: u.name.clone() });
            matched = matched + 1;
        } else {
            out.push(User { id: r.id, name: r.name.clone() });
        }
        i = i + 1;
    }
    proof {
        assert(rows0.take(n as int) =~= rows0);
        assert(out@ =~= user_updated(rows0, *u));
    }
    *rows = out;
    matched
}

fn update_guilds(rows: &mut Vec<Guild>, g: &Guild) -> (matched: usize)
    ensures
        final(rows)@ == guild_updated(old(rows)@, *g),
        matched == count_guilds(old(rows)@, g.id),
{
    let ghost rows0 = rows@;
    let n = rows.len();
    let mut out: Vec<Guild> = Vec::new();
    let mut matched: usize = 0;
    let mut i: usize = 0;
    while i < n
        invariant
            i <= n,
            n == rows0.len(),
            rows@ == rows0,
            out@.len() == i,
            forall|j: int| 0 <= j < i ==> out@[j] == apply_guild(rows0[j], *g),
            matched <= i,
            matched == count_guilds(rows0.take(i as int), g.id),
        decreases n - i,
    {
        proof {
            assert(rows0.take(i as int + 1).drop_last() =~= rows0.take(i as int));
            assert(rows0.take(i as int + 1).last() == rows0[i as int]);
        }
        let r = &rows[i];
        if r.id == g.id {
            out.push(Guild { id: r.id, name: g.name.clone(), deleted: g.deleted });
            matched = matched + 1;
        } else {
            out.push(Guild { id: r.id, name: r.name.clone(), deleted: r.deleted });
        }
        i = i + 1;
    }
    proof {
        assert(rows0.take(n as int) =~= rows0);
        assert(out@ =~= guild_updated(rows0, *g));
    }
    *rows = out;
    matched
}

fn update_channels(rows: &mut Vec<Channel>, c: &Channel) -> (matched: usize)
    ensures
        final(rows)@ == channel_updated(old(rows)@, *c),
        matched == count_channels(old(rows)@, c.id),
{
    let ghost rows0 = rows@;
    let n = rows.len();
    let mut out: Vec<Channel> = Vec::new();
    let mut matched: usize = 0;
    let mut i: usize = 0;
    while i < n
        invariant
            i <= n,
            n == rows0.len(),
            rows@ == rows0,
            out@.len() == i,
            forall|j: int| 0 <= j < i ==> out@[j] == apply_channel(rows0[j], *c),
            matched <= i,
            matched == count_channels(rows0.take(i as int), c.id),
        decreases n - i,
    {
        proof {
            assert(rows0.take(i as int + 1).drop_last() =~= rows0.take(i as int));
            assert(rows0.take(i as int + 1).last() == rows0[i as int]);
        }
        let r = &rows[i];
        if r.id == c.id {
            out.push(Channel { id: r.id, name: c.name.clone(), guild_id: r.guild_id, deleted: c.deleted });
            matched = matched + 1;
        } else {
            out.push(Channel { id: r.id, name: r.name.clone(), guild_id: r.guild_id, deleted: r.deleted });
        }
        i = i + 1;
    }
    proof {
        assert(rows0.take(n as int) =~= rows0);
        assert(out@ =~= channel_updated(rows0, *c));
    }
    *rows = out;
    matched
}

/// Clone a message row field by field.
pub fn clone_message(r: &Message) -> (out: Message)
    ensures
        out == *r,
{
    Message {
        id: r.id,
        content: r.content.clone(),
        timestamp: r.timestamp,
        user_id: r.user_id,
        guild_id: r.guild_id,
        channel_id: r.channel_id,
        sentiment: clone_opt_string(&r.sentiment),
        sentiment_confidence: r.sentiment_confidence,
        edited_timestamp: r.edited_timestamp,
        deleted: r.deleted,
    }
}

/// The partial update's effect on one row, executably.
fn apply_message_row(r: &Message, m: &Message) -> (out: Message)
    ensures
        out == apply_message(*r, *m),
{
    if r.id == m.id {
        Message {
            id: r.id,
            content: m.content.clone(),
            timestamp: r.timestamp,
            user_id: r.user_id,
            guild_id: r.guild_id,
            channel_id: r.channel_id,
            sentiment: match &m.sentiment {
                Some(_) => clone_opt_string(&m.sentiment),
                None => clone_opt_string(&r.sentiment),
            },
            sentiment_confidence: match m.sentiment_confidence {
                Some(c) => Some(c),
                None => r.sentiment_confidence,
            },
            edited_timestamp: match m.edited_timestamp {
                Some(t) => Some(t),
                None => r.edited_timestamp,
            },
            deleted: if m.deleted {
                true
            } else {
                r.deleted
            },
        }
    } else {
        clone_message(r)
    }
}

fn update_messages(rows: &mut Vec<Message>, m: &Message) -> (matched: usize)
    ensures
        final(rows)@ == message_updated(old(rows)@, *m),
        matched == count_messages(old(rows)@, m.id),
{
    let ghost rows0 = rows@;
    let n = rows.len();
    let mut out: Vec<Message> = Vec::new();
    let mut matched: usize = 0;
    let mut i: usize = 0;
    while i < n
        invariant
            i <= n,
            n == rows0.len(),
            rows@ == rows0,
            out@.len() == i,
            forall|j: int| 0 <= j < i ==> out@[j] == apply_message(rows0[j], *m),
            matched <= i,
            matched == count_messages(rows0.take(i as int), m.id),
        decreases n - i,
    {
        proof {
            assert(rows0.take(i as int + 1).drop_last() =~= rows0.take(i as int));
            assert(rows0.take(i as int + 1).last() == rows0[i as int]);
        }
        let r = &rows[i];
        let is_match = r.id == m.id;
        out.push(apply_message_row(r, m));
        if is_match {
            matched = matched + 1;
        }
        i = i + 1;
    }
    proof {
        assert(rows0.take(n as int) =~= rows0);
        assert(out@ =~= message_updated(rows0, *m));
    }
    *rows = out;
    matched
}

/// Reconcile a user: update the matching row, insert the full entity when
/// nothing matched, report the anomaly when more than one row matched.
/// Exactly the users table changes, and exactly as `spec_reconcile_users`
/// says.
pub fn reconcile_user(store: &mut Store, u: &User) -> (r: ReconcileOutcome)
    ensures
        final(store).users@ == spec_reconcile_users(old(store).users@, *u),
        r == spec_outcome(count_users(old(store).users@, u.id)),
        final(store).guilds == old(store).guilds,
        final(store).channels == old(store).channels,
        final(store).messages == old(store).messages,
{
    let matched = update_users(&mut store.users, u);
    if matched == 0 {
        proof {
            lemma_count_users_zero(old(store).users@, u.id);
            assert(user_updated(old(store).users@, *u) =~= old(store).users@);
        }
        store.users.push(User { id: u.id, name: u.name.clone() });
        ReconcileOutcome::Created
    } else if matched == 1 {
        ReconcileOutcome::Updated
    } else {
        ReconcileOutcome::Anomalous
    }
}

pub fn reconcile_guild(store: &mut Store, g: &Guild) -> (r: ReconcileOutcome)
    ensures
        final(store).guilds@ == spec_reconcile_guilds(old(store).guilds@, *g),
        r == spec_outcome(count_guilds(old(store).guilds@, g.id)),
        final(store).users == old(store).users,
        final(store).channels == old(store).channels,
        final(store).messages == old(store).messages,
{
    let matched = update_guilds(&mut store.guilds, g);
    if matched == 0 {
        proof {
            lemma_count_guilds_zero(old(store).guilds@, g.id);
            assert(guild_updated(old(store).guilds@, *g) =~= old(store).guilds@);
        }
        store.guilds.push(Guild { id: g.id, name: g.name.clone(), deleted: false });
        ReconcileOutcome::Created
    } else if matched == 1 {
        ReconcileOutcome::Updated
    } else {
        ReconcileOutcome::Anomalous
    }
}

pub fn reconcile_channel(store: &mut Store, c: &Channel) -> (r: ReconcileOutcome)
    ensures
        final(store).channels@ == spec_reconcile_channels(old(store).channels@, *c),
        r == spec_outcome(count_channels(old(store).channels@, c.id)),
        final(store).users == old(store).users,
        final(store).guilds == old(store).guilds,
        final(store).messages == old(store).messages,
{
    let matched = update_channels(&mut store.channels, c);
    if matched == 0 {
        proof {
            lemma_count_channels_zero(old(store).channels@, c.id);
            assert(channel_updated(old(store).channels@, *c) =~= old(store).channels@);
        }
        store.channels.push(Channel { id: c.id, name: c.name.clone(), guild_id: c.guild_id, deleted: false });
        ReconcileOutcome::Created
    } else if matched == 1 {
        ReconcileOutcome::Updated
    } else {
        ReconcileOutcome::Anomalous
    }
}

/// Reconcile a message: the update attempt is the partial update the
/// builder constructs; the fallback insert writes the full entity except
/// `edited_timestamp` and `deleted`, which a created row starts without.
pub fn reconcile_message(store: &mut Store, m: &Message) -> (r: ReconcileOutcome)
    ensures
        final(store).messages@ == spec_reconcile_messages(old(store).messages@, *m),
        r == spec_outcome(count_messages(old(store).messages@, m.id)),
        final(store).users == old(store).users,
        final(store).guilds == old(store).guilds,
        final(store).channels == old(store).channels,
{
    let matched = update_messages(&mut store.messages, m);
    if matched == 0 {
        proof {
            lemma_count_messages_zero(old(store).messages@, m.id);
            assert(message_updated(old(store).messages@, *m) =~= old(store).messages@);
        }
        store.messages.push(Message {
            id: m.id,
            content: m.content.clone(),
            timestamp: m.timestamp,
            user_id: m.user_id,
            guild_id: m.guild_id,
            channel_id: m.channel_id,
            sentiment: clone_opt_string(&m.sentiment),
            sentiment_confidence: m.sentiment_confidence,
            edited_timestamp: None,
            deleted: false,
        });
        ReconcileOutcome::Created
    } else if matched == 1 {
        ReconcileOutcome::Updated
    } else {
        ReconcileOutcome::Anomalous
    }
}

} // verus!

use chatstore::builder::{
    build_update, channel_insert, channel_update, guild_insert, guild_update, message_insert,
    user_insert, user_update, Value,
};
use chatstore::entities::{Channel, Guild, Message, User};

fn bare_message() -> Message {
    Message {
        id: 1,
        content: "hi".to_string(),
        timestamp: 1111,
        user_id: 10,
        guild_id: 20,
        channel_id: 30,
        sentiment: None,
        sentiment_confidence: None,
        edited_timestamp: None,
        deleted: false,
    }
}

fn dollar_count(s: &str) -> usize {
    s.chars().filter(|c| *c == '$').count()
}

#[test]
fn update_with_no_optional_fields_touches_only_content() {
    let st = build_update(&bare_message());
    assert_eq!(st.text, "UPDATE messages SET content = $1 WHERE id = $2");
    assert_eq!(st.params, vec![Value::Text("hi".to_string()), Value::Int(1)]);
    assert_eq!(st.params.len(), dollar_count(&st.text));
}

#[test]
fn update_with_all_optional_fields_touches_them_in_order() {
    let mut m = bare_message();
    m.sentiment = Some("positive".to_string());
    m.sentiment_confidence = Some(0x3f000000);
    m.edited_timestamp = Some(2222);
    let st = build_update(&m);
    assert_eq!(
        st.text,
        "UPDATE messages SET content = $1, sentiment = $2, sentiment_confidence = $3, \
         edited_timestamp = $4 WHERE id = $5"
    );
    assert_eq!(
        st.params,
        vec![
            Value::Text("hi".to_string()),
            Value::Text("positive".to_string()),
            Value::Confidence(0x3f000000),
            Value::Time(2222),
            Value::Int(1),
        ]
    );
    assert_eq!(st.params.len(), dollar_count(&st.text));
}

#[test]
fn update_sends_deleted_only_when_true() {
    let mut m = bare_message();
    m.deleted = true;
    let st = build_update(&m);
    assert_eq!(
        st.text,
        "UPDATE messages SET content = $1, deleted = $2 WHERE id = $3"
    );
    assert_eq!(
        st.params,
        vec![
            Value::Text("hi".to_string()),
            Value::Flag(true),
            Value::Int(1),
        ]
    );
    assert_eq!(st.params.len(), dollar_count(&st.text));
}

#[test]
fn update_numbers_placeholders_in_append_order_with_gaps() {
    let mut m = bare_message();
    m.edited_timestamp = Some(2222);
    m.deleted = true;
    let st = build_update(&m);
    assert_eq!(
        st.text,
        "UPDATE messages SET content = $1, edited_timestamp = $2, deleted = $3 WHERE id = $4"
    );
    assert_eq!(st.params.len(), 4);
    assert_eq!(st.params.len(), dollar_count(&st.text));
    assert_eq!(st.params[3], Value::Int(1));
}

#[test]
fn user_statements_are_full_field() {
    let u = User { id: 7, name: "a".to_string() };
    let upd = user_update(&u);
    assert_eq!(upd.text, "UPDATE users SET name = $1 WHERE id = $2");
    assert_eq!(upd.params, vec![Value::Text("a".to_string()), Value::Int(7)]);
    let ins = user_insert(&u);
    assert_eq!(ins.text, "INSERT INTO users (id, name) VALUES ($1, $2)");
    assert_eq!(ins.params, vec![Value::Int(7), Value::Text("a".to_string())]);
}

#[test]
fn guild_statements_align_name_deleted_id() {
    let g = Guild { id: 20, name: "g".to_string(), deleted: true };
    let upd = guild_update(&g);
    assert_eq!(upd.text, "UPDATE guilds SET name = $1, deleted = $2 WHERE id = $3");
    assert_eq!(
        upd.params,
        vec![Value::Text("g".to_string()), Value::Flag(true), Value::Int(20)]
    );
    assert_eq!(upd.params.len(), dollar_count(&upd.text));
    let ins = guild_insert(&g);
    assert_eq!(ins.text, "INSERT INTO guilds (id, name) VALUES ($1, $2)");
    assert_eq!(ins.params, vec![Value::Int(20), Value::Text("g".to_string())]);
}

#[test]
fn channel_statements_keep_guild_id_immutable() {
    let c = Channel { id: 30, name: "c".to_string(), guild_id: 20, deleted: false };
    let upd = channel_update(&c);
    assert_eq!(upd.text, "UPDATE channels SET name = $1, deleted = $2 WHERE id = $3");
    assert_eq!(
        upd.params,
        vec![Value::Text("c".to_string()), Value::Flag(false), Value::Int(30)]
    );
    let ins = channel_insert(&c);
    assert_eq!(ins.text, "INSERT INTO channels (id, name, guild_id) VALUES ($1, $2, $3)");
    assert_eq!(
        ins.params,
        vec![Value::Int(30), Value::Text("c".to_string()), Value::Int(20)]
    );
}

#[test]
fn message_insert_omits_edited_timestamp_and_deleted() {
    let mut m = bare_message();
    m.sentiment = Some("negative".to_string());
    m.sentiment_confidence = Some(5);
    m.edited_timestamp = Some(2222);
    m.deleted = true;
    let ins = message_insert(&m);
    assert_eq!(
        ins.text,
        "INSERT INTO messages (id, user_id, guild_id, channel_id, content, timestamp, \
         sentiment, sentiment_confidence) VALUES ($1, $2, $3, $4, $5, $6, $7, $8)"
    );
    assert_eq!(
        ins.params,
        vec![
            Value::Int(1),
            Value::Int(10),
            Value::Int(20),
            Value::Int(30),
            Value::Text("hi".to_string()),
            Value::Time(1111),
            Value::NullableText(Some("negative".to_string())),
            Value::NullableConfidence(Some(5)),
        ]
    );
    assert_eq!(ins.params.len(), dollar_count(&ins.text));
}

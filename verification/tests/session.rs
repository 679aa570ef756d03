use chat_relay::session::{
    advance_writes, bot_variant, check_join, clear_record, clear_record_with, join_key_text,
    model_key_text, record_bot, resolve_model, session_key_text, session_key_texts, set_join,
    set_model, set_model_with, Session, StoreCommand, StoreError, StoreQuery,
};
use chat_relay::token::{random_name, FreshTokens, OBJECT_ID_LENGTH};
use std::collections::HashMap;

fn looks_like_a_token(text: &str) -> bool {
    let chars: Vec<char> = text.chars().collect();
    chars.len() == 36
        && chars.iter().enumerate().all(|(i, c)| {
            if i == 8 || i == 13 || i == 18 || i == 23 {
                *c == '-'
            } else {
                c.is_ascii_digit() || ('a'..='f').contains(c)
            }
        })
}

/// A store in memory that takes the writes as the real one does.
fn apply(store: &mut HashMap<String, String>, writes: &[StoreCommand]) {
    for write in writes {
        match write {
            StoreCommand::Put { key, value } => {
                store.insert(key.clone(), value.clone());
            }
            StoreCommand::Increment { key } => {
                let before: u64 = match store.get(key) {
                    Some(text) => text.parse().unwrap(),
                    None => 0,
                };
                store.insert(key.clone(), (before + 1).to_string());
            }
            StoreCommand::Expire { .. } => {}
        }
    }
}

fn read(store: &HashMap<String, String>, room: u64, variant: &str) -> Result<Session, StoreError> {
    let keys = session_key_texts(room, variant);
    Session::read(
        store.get(&keys[0]).cloned(),
        store.get(&keys[1]).cloned(),
        store.get(&keys[2]).cloned(),
        store.get(&keys[3]).cloned(),
    )
}

#[test]
fn fresh_tokens_have_the_shape_of_tokens_and_differ() {
    let tokens = FreshTokens::draw();
    let all = [&tokens.conversation, &tokens.parent, &tokens.item, &tokens.reply, &tokens.task];
    for (i, token) in all.iter().enumerate() {
        assert!(looks_like_a_token(token), "{:?}", token);
        for other in &all[i + 1..] {
            assert_ne!(token, other);
        }
    }
    assert_ne!(FreshTokens::draw(), tokens);
    assert_eq!(FreshTokens::blank().conversation, "");
}

#[test]
fn random_names_are_letters_and_digits() {
    assert_eq!(OBJECT_ID_LENGTH, 22);
    let name = random_name(OBJECT_ID_LENGTH);
    assert_eq!(name.chars().count(), 22);
    assert!(name.chars().all(|c| c.is_ascii_alphanumeric()));
    assert_eq!(random_name(0), "");
    assert_ne!(random_name(22), name);
}

#[test]
fn keys_follow_the_schema() {
    assert_eq!(session_key_text(123, "gpt_4", "conv"), "ai:123:gpt_4:conv");
    assert_eq!(
        session_key_texts(0, "main"),
        vec!["ai:0:main:conv", "ai:0:main:prev", "ai:0:main:now", "ai:0:main:count"]
    );
    assert_eq!(model_key_text(77), "ai:77:model");
    assert_eq!(join_key_text(u64::MAX), "ai:18446744073709551615:JOIN");
}

#[test]
fn variant_replaces_hyphens_and_dots() {
    assert_eq!(bot_variant("openai-o-3-mini"), "openai_o_3_mini");
    assert_eq!(bot_variant("gemini-2.0"), "gemini_2_0");
    assert_eq!(bot_variant("plain"), "plain");
    assert_eq!(bot_variant(""), "");
    assert_eq!(bot_variant("a_b:c"), "a_b:c");
}

#[test]
fn resolve_model_falls_back_to_the_default() {
    assert_eq!(
        resolve_model(None, "openai-o-3-mini"),
        ("openai-o-3-mini".to_string(), "openai_o_3_mini".to_string())
    );
    assert_eq!(
        resolve_model(Some("deepseek-v3.1".to_string()), "openai-o-3-mini"),
        ("deepseek-v3.1".to_string(), "deepseek_v3_1".to_string())
    );
}

#[test]
fn record_bot_resolves_main_only() {
    assert_eq!(record_bot("main", None, "gpt-4.1"), "gpt_4_1");
    assert_eq!(record_bot("main", Some("x-1".to_string()), "gpt-4.1"), "x_1");
    assert_eq!(record_bot("jv6tFQ5q", Some("x-1".to_string()), "gpt-4.1"), "jv6tFQ5q");
}

#[test]
fn read_needs_all_four_fields() {
    let some = |s: &str| Some(s.to_string());
    assert_eq!(
        Session::read(some("c"), some("p"), some("n"), some("3")),
        Ok(Session {
            conversation_id: "c".to_string(),
            prev_item_id: "p".to_string(),
            current_item_id: "n".to_string(),
            turn_count: 3,
        })
    );
    assert_eq!(Session::read(None, some("p"), some("n"), some("3")), Err(StoreError::Missing));
    assert_eq!(Session::read(some("c"), None, some("n"), some("3")), Err(StoreError::Missing));
    assert_eq!(Session::read(some("c"), some("p"), None, some("3")), Err(StoreError::Missing));
    assert_eq!(Session::read(some("c"), some("p"), some("n"), None), Err(StoreError::Missing));
    assert_eq!(Session::read(None, None, None, None), Err(StoreError::Missing));
    assert_eq!(Session::read(some("c"), some("p"), some("n"), some("x")), Err(StoreError::Missing));
    assert_eq!(Session::read(some("c"), some("p"), some("n"), some("-1")), Err(StoreError::Missing));
}

#[test]
fn advance_moves_the_session_one_turn_on() {
    let session = Session::fresh("c".to_string(), "p".to_string(), "n".to_string());
    assert_eq!(session.turn_count, 0);
    let next = session.advance("r1".to_string(), "n1".to_string());
    assert_eq!(
        next,
        Session {
            conversation_id: "c".to_string(),
            prev_item_id: "r1".to_string(),
            current_item_id: "n1".to_string(),
            turn_count: 1,
        }
    );
}

#[test]
fn reset_writes_three_tokens_and_a_zero() {
    let writes =
        clear_record_with(5, "bot", "c".to_string(), "p".to_string(), "n".to_string());
    assert_eq!(
        writes,
        vec![
            StoreCommand::Put { key: "ai:5:bot:conv".to_string(), value: "c".to_string() },
            StoreCommand::Put { key: "ai:5:bot:prev".to_string(), value: "p".to_string() },
            StoreCommand::Put { key: "ai:5:bot:now".to_string(), value: "n".to_string() },
            StoreCommand::Put { key: "ai:5:bot:count".to_string(), value: "0".to_string() },
        ]
    );
}

#[test]
fn reset_yields_no_turn_and_tokens_unlike_the_old_ones() {
    let mut store = HashMap::new();
    apply(&mut store, &clear_record(9, "bot"));
    let first = read(&store, 9, "bot").unwrap();
    assert_eq!(first.turn_count, 0);
    apply(&mut store, &advance_writes(9, "bot", "r".to_string(), "n".to_string()));
    let used = read(&store, 9, "bot").unwrap();
    assert_eq!(used.turn_count, 1);
    apply(&mut store, &clear_record(9, "bot"));
    let second = read(&store, 9, "bot").unwrap();
    assert_eq!(second.turn_count, 0);
    let old = [&used.conversation_id, &used.prev_item_id, &used.current_item_id];
    for token in [&second.conversation_id, &second.prev_item_id, &second.current_item_id] {
        assert!(looks_like_a_token(token));
        assert!(!old.contains(&token));
    }
}

#[test]
fn sequential_turns_count_up_and_chain_the_replies() {
    let mut store = HashMap::new();
    apply(
        &mut store,
        &clear_record_with(1, "bot", "c".to_string(), "p0".to_string(), "n0".to_string()),
    );
    for turn in 0..5u64 {
        let before = read(&store, 1, "bot").unwrap();
        assert_eq!(before.turn_count, turn);
        let reply = format!("reply{}", turn);
        let next = format!("next{}", turn);
        apply(&mut store, &advance_writes(1, "bot", reply.clone(), next.clone()));
        let after = read(&store, 1, "bot").unwrap();
        assert_eq!(after.turn_count, turn + 1);
        assert_eq!(after.prev_item_id, reply);
        assert_eq!(after.current_item_id, next);
        assert_eq!(after.conversation_id, "c");
        assert_eq!(after, before.advance(reply, next));
    }
}

#[test]
fn set_model_stores_the_model_and_resets_its_session() {
    let writes =
        set_model_with(3, "gpt-4.1", "c".to_string(), "p".to_string(), "n".to_string());
    assert_eq!(writes.len(), 5);
    assert_eq!(
        writes[0],
        StoreCommand::Put { key: "ai:3:model".to_string(), value: "gpt-4.1".to_string() }
    );
    assert_eq!(
        writes[1..].to_vec(),
        clear_record_with(3, "gpt_4_1", "c".to_string(), "p".to_string(), "n".to_string())
    );
    let drawn = set_model(3, "gpt-4.1");
    assert_eq!(drawn.len(), 5);
    assert_eq!(drawn[0], writes[0]);
    match &drawn[1] {
        StoreCommand::Put { key, value } => {
            assert_eq!(key, "ai:3:gpt_4_1:conv");
            assert!(looks_like_a_token(value));
        }
        other => panic!("{:?}", other),
    }
}

#[test]
fn engagement_always_carries_an_expiry() {
    assert_eq!(check_join(8), StoreQuery::Exists("ai:8:JOIN".to_string()));
    assert_eq!(
        set_join(8, false, 60),
        vec![
            StoreCommand::Put { key: "ai:8:JOIN".to_string(), value: "1".to_string() },
            StoreCommand::Expire { key: "ai:8:JOIN".to_string(), seconds: 60 },
        ]
    );
    assert_eq!(
        set_join(8, true, 60),
        vec![StoreCommand::Expire { key: "ai:8:JOIN".to_string(), seconds: 60 }]
    );
}

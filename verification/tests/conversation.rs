use chat_relay::dto::ChatData;
use chat_relay::orchestrator::{
    main_conversation, main_conversation_with, normalize_room, ConverseState, Outcome,
    LOCK_WAIT_SECONDS, NO_ROOM,
};
use chat_relay::request::{build_chat_request, explain_image};
use chat_relay::round::{
    conversation, conversation_with, Action, ConverseError, Event, RoundState, Turn,
};
use chat_relay::session::{clear_record_with, Session, StoreCommand, StoreError};
use chat_relay::settings::{set_ai_default_model, set_ai_init_prompt, Settings};
use chat_relay::stream::{StreamError, StreamInput};
use chat_relay::token::FreshTokens;
use std::collections::HashMap;

fn tokens(tag: &str) -> FreshTokens {
    FreshTokens {
        conversation: format!("conv-{}", tag),
        parent: format!("parent-{}", tag),
        item: format!("item-{}", tag),
        reply: format!("reply-{}", tag),
        task: format!("task-{}", tag),
    }
}

fn settings() -> Settings {
    let mut settings = Settings::new();
    set_ai_default_model(&mut settings, "base-1.0".to_string());
    set_ai_init_prompt(&mut settings, "PROMPT ".to_string());
    settings
}

fn message(text: &str, finished: bool) -> Event {
    let payload = format!(
        "{{\"text\":\"{}\",\"finished\":{}}}",
        text,
        if finished { "true" } else { "false" }
    );
    Event::Stream(StreamInput::Message(payload))
}

/// What the backend, the store and the lock do in a test, and what was
/// asked of them.
struct World {
    store: HashMap<String, String>,
    replies: Vec<String>,
    requests: Vec<ChatData>,
    trace: Vec<&'static str>,
}

impl World {
    fn new(replies: &[&str]) -> World {
        World {
            store: HashMap::new(),
            replies: replies.iter().rev().map(|r| r.to_string()).collect(),
            requests: Vec::new(),
            trace: Vec::new(),
        }
    }

    fn write(&mut self, writes: &[StoreCommand]) {
        for write in writes {
            match write {
                StoreCommand::Put { key, value } => {
                    self.store.insert(key.clone(), value.clone());
                }
                StoreCommand::Increment { key } => {
                    let before: u64 =
                        self.store.get(key).map(|t| t.parse().unwrap()).unwrap_or(0);
                    self.store.insert(key.clone(), (before + 1).to_string());
                }
                StoreCommand::Expire { .. } => {}
            }
        }
    }

    /// Runs a conversation to its end, with numbered tokens.
    fn converse(&mut self, room: Option<u64>, input: &str) -> Result<String, ConverseError> {
        let settings = settings();
        let mut state = ConverseState::Idle;
        let mut event = Event::Start;
        let mut step = 0;
        loop {
            step += 1;
            assert!(step < 200);
            let drawn = tokens(&step.to_string());
            let (next, action) =
                main_conversation_with(room, input, &settings, state, event, &drawn);
            state = next;
            event = match action {
                Action::AcquireLock { wait_seconds } => {
                    assert_eq!(wait_seconds, 120);
                    self.trace.push("lock");
                    Event::LockGranted
                }
                Action::ReleaseLock => {
                    self.trace.push("release");
                    Event::Released
                }
                Action::Fetch(keys) => {
                    self.trace.push("fetch");
                    Event::Values(keys.iter().map(|k| self.store.get(k).cloned()).collect())
                }
                Action::Ask(request) => {
                    self.trace.push("ask");
                    self.requests.push(request);
                    let reply = self.replies.pop().unwrap();
                    message(&reply, true)
                }
                Action::Listen { .. } => unreachable!(),
                Action::Write(writes) => {
                    self.trace.push("write");
                    self.write(&writes);
                    Event::Written
                }
                Action::Reply(text) => {
                    assert_eq!(state, ConverseState::Finished);
                    return Ok(text);
                }
                Action::Fail(error) => {
                    assert_eq!(state, ConverseState::Finished);
                    return Err(error);
                }
            };
        }
    }
}

fn world_with_session(room: u64, variant: &str, replies: &[&str]) -> World {
    let mut world = World::new(replies);
    let writes =
        clear_record_with(room, variant, "c0".to_string(), "p0".to_string(), "n0".to_string());
    world.write(&writes);
    world
}

#[test]
fn a_plain_answer_takes_one_round_trip() {
    let mut world = world_with_session(7, "base_1_0", &["hello there"]);
    assert_eq!(world.converse(Some(7), "hi"), Ok("hello there".to_string()));
    assert_eq!(world.trace, vec!["lock", "fetch", "fetch", "ask", "write", "release"]);
    assert_eq!(world.requests.len(), 1);
    let request = &world.requests[0];
    assert_eq!(request.bot_uid, "base_1_0");
    assert_eq!(request.data.use_model, "base-1.0");
    assert_eq!(request.data.conversation_id, "conv:c0");
    assert_eq!(request.data.pre_parent_item_id, "msg:n0");
    assert!(!request.data.is_incognito);
    assert_eq!(world.store["ai:7:base_1_0:count"], "1");
    assert_eq!(world.store["ai:7:base_1_0:conv"], "c0");
    assert_eq!(
        format!("msg:{}", world.store["ai:7:base_1_0:prev"]),
        request.data.pre_generated_reply_id
    );
}

#[test]
fn a_search_call_goes_to_the_lookup_bot_and_comes_back_once() {
    let mut world =
        world_with_session(7, "base_1_0", &["!#[search(x)]", "found: 42", "The answer is 42."]);
    assert_eq!(world.converse(Some(7), "what is x"), Ok("The answer is 42.".to_string()));
    assert_eq!(
        world.trace,
        vec!["lock", "fetch", "fetch", "ask", "write", "ask", "fetch", "ask", "write", "release"]
    );
    assert_eq!(world.requests.len(), 3);
    let helper = &world.requests[1];
    assert_eq!(helper.bot_uid, "zzWzZzSg");
    assert!(helper.data.is_incognito);
    assert_eq!(helper.data.items.len(), 2);
    assert_eq!(helper.data.items[1].data.content, "PROMPT !#[search(x)]");
    assert_eq!(helper.data.items[1].data.is_incognito, Some(true));
    assert_ne!(helper.data.conversation_id, "conv:c0");
    let second = &world.requests[2];
    assert_eq!(second.bot_uid, "base_1_0");
    assert_eq!(second.data.items.len(), 1);
    assert_eq!(second.data.items[0].data.content, "found: 42");
    assert_eq!(second.data.items[0].parent_item_id, Some(world.requests[0].data.pre_generated_reply_id.clone()));
    assert_eq!(world.store["ai:7:base_1_0:count"], "2");
    assert!(world.replies.is_empty());
}

#[test]
fn an_unknown_tool_yields_the_invalid_call_text_without_a_helper() {
    let mut world = world_with_session(7, "base_1_0", &["!#[unknown(x)]"]);
    assert_eq!(world.converse(Some(7), "hi"), Ok("无效的工具调用".to_string()));
    assert_eq!(world.requests.len(), 1);
    assert_eq!(world.trace, vec!["lock", "fetch", "fetch", "ask", "write", "release"]);
    assert_eq!(world.store["ai:7:base_1_0:count"], "1");
}

#[test]
fn a_read_call_goes_to_the_reader_bot() {
    let mut world = world_with_session(7, "base_1_0", &["!#[read(u)] now", "page text", "done"]);
    assert_eq!(world.converse(Some(7), "hi"), Ok("done".to_string()));
    assert_eq!(world.requests[1].bot_uid, "jv6tFQ5q");
    assert_eq!(world.requests[1].data.items[1].data.content, "PROMPT !#[read(u)]");
}

#[test]
fn turns_count_up_one_by_one() {
    let mut world = world_with_session(3, "base_1_0", &["a", "b", "c"]);
    for turn in 1..=3u64 {
        world.converse(Some(3), "q").unwrap();
        assert_eq!(world.store["ai:3:base_1_0:count"], turn.to_string());
        let issued = &world.requests[turn as usize - 1].data.pre_generated_reply_id;
        assert_eq!(&format!("msg:{}", world.store["ai:3:base_1_0:prev"]), issued);
    }
    assert_eq!(world.requests[0].data.items.len(), 2);
    assert_eq!(world.requests[0].data.items[1].data.content, "PROMPT q");
    assert_eq!(world.requests[1].data.items.len(), 1);
    assert_eq!(world.requests[1].data.items[0].data.content, "q");
    assert_eq!(
        world.requests[2].data.items[0].parent_item_id,
        Some(world.requests[1].data.pre_generated_reply_id.clone())
    );
}

#[test]
fn the_room_has_its_own_model() {
    let mut world = world_with_session(7, "fancy_2", &["ok"]);
    world.store.insert("ai:7:model".to_string(), "fancy-2".to_string());
    assert_eq!(world.converse(Some(7), "hi"), Ok("ok".to_string()));
    assert_eq!(world.requests[0].bot_uid, "fancy_2");
    assert_eq!(world.requests[0].data.use_model, "fancy-2");
}

#[test]
fn no_room_is_room_zero() {
    assert_eq!(NO_ROOM, 0);
    assert_eq!(normalize_room(None), 0);
    assert_eq!(normalize_room(Some(12)), 12);
    let mut world = world_with_session(0, "base_1_0", &["ok"]);
    assert_eq!(world.converse(None, "hi"), Ok("ok".to_string()));
    assert_eq!(world.store["ai:0:base_1_0:count"], "1");
}

#[test]
fn a_missing_session_ends_the_conversation_after_the_release() {
    let mut world = World::new(&[]);
    assert_eq!(world.converse(Some(7), "hi"), Err(ConverseError::Store(StoreError::Missing)));
    assert_eq!(world.trace, vec!["lock", "fetch", "fetch", "release"]);
    assert!(world.requests.is_empty());
}

#[test]
fn a_lock_that_is_not_granted_touches_nothing() {
    assert_eq!(LOCK_WAIT_SECONDS, 120);
    let settings = settings();
    let (state, action) =
        main_conversation(Some(1), "hi", &settings, ConverseState::Idle, Event::Start);
    assert_eq!(state, ConverseState::AwaitingLock);
    assert_eq!(action, Action::AcquireLock { wait_seconds: 120 });
    let (state, action) = main_conversation(Some(1), "hi", &settings, state, Event::LockTimedOut);
    assert_eq!(state, ConverseState::Finished);
    assert_eq!(action, Action::Fail(ConverseError::LockTimeout));
}

#[test]
fn a_store_that_cannot_tell_the_model_leaves_the_default() {
    let settings = settings();
    let (state, action) = main_conversation(
        Some(4),
        "hi",
        &settings,
        ConverseState::AwaitingLock,
        Event::LockGranted,
    );
    assert_eq!(state, ConverseState::Resolving);
    assert_eq!(action, Action::Fetch(vec!["ai:4:model".to_string()]));
    let (state, action) =
        main_conversation(Some(4), "hi", &settings, state, Event::StoreFailed("down".to_string()));
    assert_eq!(
        state,
        ConverseState::InRound {
            model: "base-1.0".to_string(),
            bot: "base_1_0".to_string(),
            input: "hi".to_string(),
            round: RoundState::Reading,
        }
    );
    assert_eq!(
        action,
        Action::Fetch(vec![
            "ai:4:base_1_0:conv".to_string(),
            "ai:4:base_1_0:prev".to_string(),
            "ai:4:base_1_0:now".to_string(),
            "ai:4:base_1_0:count".to_string(),
        ])
    );
    let (state, action) =
        main_conversation(Some(4), "hi", &settings, state, Event::StoreFailed("down".to_string()));
    assert_eq!(action, Action::ReleaseLock);
    let (state, action) = main_conversation(Some(4), "hi", &settings, state, Event::Released);
    assert_eq!(state, ConverseState::Finished);
    assert_eq!(
        action,
        Action::Fail(ConverseError::Store(StoreError::Connectivity("down".to_string())))
    );
}

#[test]
fn a_failing_stream_leaves_the_session_as_it_was() {
    let settings = settings();
    let state = ConverseState::InRound {
        model: "m".to_string(),
        bot: "b".to_string(),
        input: "q".to_string(),
        round: RoundState::Listening {
            reply: "r".to_string(),
            next: "n".to_string(),
            so_far: "half".to_string(),
        },
    };
    let (state, action) =
        main_conversation(Some(1), "q", &settings, state, Event::Stream(StreamInput::Idle));
    assert_eq!(
        state,
        ConverseState::Releasing {
            outcome: Outcome::Failure(ConverseError::Stream(StreamError::Timeout))
        }
    );
    assert_eq!(action, Action::ReleaseLock);
    let (state, action) = main_conversation(Some(1), "q", &settings, state, Event::Written);
    assert_eq!(action, Action::ReleaseLock);
    let (_, action) = main_conversation(Some(1), "q", &settings, state, Event::Released);
    assert_eq!(action, Action::Fail(ConverseError::Stream(StreamError::Timeout)));
}

#[test]
fn an_event_out_of_turn_ends_the_conversation() {
    let settings = settings();
    let unexpected = ConverseError::Stream(StreamError::Transport("unexpected event".to_string()));
    let (state, action) =
        main_conversation(Some(1), "q", &settings, ConverseState::Idle, Event::Written);
    assert_eq!(state, ConverseState::Finished);
    assert_eq!(action, Action::Fail(unexpected.clone()));
    let (state, action) =
        main_conversation(Some(1), "q", &settings, ConverseState::Resolving, Event::Written);
    assert_eq!(state, ConverseState::Releasing { outcome: Outcome::Failure(unexpected.clone()) });
    assert_eq!(action, Action::ReleaseLock);
    let (_, action) =
        main_conversation(Some(1), "q", &settings, ConverseState::Finished, Event::Start);
    assert_eq!(action, Action::Fail(unexpected));
}

#[test]
fn a_round_trip_reads_asks_listens_and_writes() {
    let turn = Turn { room: 2, model: "m-1", bot: "m_1", input: "q", init_prompt: "P:" };
    let (state, action) = conversation_with(&turn, RoundState::Idle, Event::Start, &tokens("a"));
    assert_eq!(state, RoundState::Reading);
    assert!(matches!(&action, Action::Fetch(keys) if keys.len() == 4));
    let values = vec![
        Some("c".to_string()),
        Some("p".to_string()),
        Some("n".to_string()),
        Some("4".to_string()),
    ];
    let (state, action) = conversation_with(&turn, state, Event::Values(values), &tokens("b"));
    assert_eq!(
        state,
        RoundState::Listening {
            reply: "reply-b".to_string(),
            next: "item-b".to_string(),
            so_far: String::new(),
        }
    );
    let session = Session {
        conversation_id: "c".to_string(),
        prev_item_id: "p".to_string(),
        current_item_id: "n".to_string(),
        turn_count: 4,
    };
    assert_eq!(
        action,
        Action::Ask(build_chat_request(&session, "m-1", "m_1", "q", "P:", "reply-b", "task-b", false))
    );
    let (state, action) = conversation_with(&turn, state, message("He", false), &tokens("c"));
    assert_eq!(action, Action::Listen { idle_seconds: 30 });
    let (state, action) =
        conversation_with(&turn, state, Event::Stream(StreamInput::Open), &tokens("d"));
    assert_eq!(action, Action::Listen { idle_seconds: 30 });
    let (state, action) = conversation_with(&turn, state, message("llo", true), &tokens("e"));
    assert_eq!(state, RoundState::Writing { answer: "Hello".to_string() });
    assert_eq!(
        action,
        Action::Write(vec![
            StoreCommand::Put { key: "ai:2:m_1:prev".to_string(), value: "reply-b".to_string() },
            StoreCommand::Put { key: "ai:2:m_1:now".to_string(), value: "item-b".to_string() },
            StoreCommand::Increment { key: "ai:2:m_1:count".to_string() },
        ])
    );
    let (state, action) = conversation_with(&turn, state, Event::Written, &tokens("f"));
    assert_eq!(state, RoundState::Finished);
    assert_eq!(action, Action::Reply("Hello".to_string()));
}

#[test]
fn a_round_trip_without_a_session_fails() {
    let turn = Turn { room: 2, model: "m-1", bot: "m_1", input: "q", init_prompt: "" };
    for values in [
        vec![None, None, None, None],
        vec![Some("c".to_string()), Some("p".to_string()), Some("n".to_string()), None],
        vec![Some("c".to_string()), Some("p".to_string()), Some("n".to_string())],
        vec![],
    ] {
        let (state, action) = conversation(&turn, RoundState::Reading, Event::Values(values));
        assert_eq!(state, RoundState::Finished);
        assert_eq!(action, Action::Fail(ConverseError::Store(StoreError::Missing)));
    }
    let (_, action) = conversation(
        &turn,
        RoundState::Writing { answer: "a".to_string() },
        Event::StoreFailed("gone".to_string()),
    );
    assert_eq!(
        action,
        Action::Fail(ConverseError::Store(StoreError::Connectivity("gone".to_string())))
    );
    let (_, action) = conversation(&turn, RoundState::Idle, Event::Released);
    assert_eq!(
        action,
        Action::Fail(ConverseError::Stream(StreamError::Transport("unexpected event".to_string())))
    );
}

#[test]
fn a_round_trip_draws_its_tokens() {
    let turn = Turn { room: 2, model: "m-1", bot: "m_1", input: "q", init_prompt: "" };
    let values = vec![
        Some("c".to_string()),
        Some("p".to_string()),
        Some("n".to_string()),
        Some("0".to_string()),
    ];
    let (state, action) = conversation(&turn, RoundState::Reading, Event::Values(values));
    let request = match action {
        Action::Ask(request) => request,
        other => panic!("{:?}", other),
    };
    match state {
        RoundState::Listening { reply, next, so_far } => {
            assert_eq!(reply.len(), 36);
            assert_eq!(next.len(), 36);
            assert_ne!(reply, next);
            assert_eq!(so_far, "");
            assert_eq!(request.data.pre_generated_reply_id, format!("msg:{}", reply));
        }
        other => panic!("{:?}", other),
    }
    assert_eq!(request.task_uid.len(), 41);
    assert!(request.task_uid.starts_with("task:"));
}

#[test]
fn the_first_request_of_a_session_carries_the_greeting_and_the_prompt() {
    let session = Session::fresh("c".to_string(), "p".to_string(), "n".to_string());
    let request = build_chat_request(&session, "m-1", "m_1", "hi", "PROMPT ", "r", "t", false);
    assert_eq!(request.task_uid, "task:t");
    assert_eq!(request.bot_uid, "m_1");
    assert_eq!(request.language, "auto");
    assert_eq!(request.locale, "zh_CN");
    assert_eq!(request.task_type, "chat");
    assert_eq!(request.ai_resp_language, "Chinese (Simplified)");
    assert!(request.tool_data.sys_skill_list.is_empty());
    assert_eq!(request.data.conversation_id, "conv:c");
    assert_eq!(request.data.pre_generated_reply_id, "msg:r");
    assert_eq!(request.data.pre_parent_item_id, "msg:n");
    assert_eq!(request.data.origin, "https://monica.im/home/chat/DeepSeek%20V3/deepseek_chat");
    assert_eq!(request.data.origin_page_title, "o3-mini - Monica 智能体");
    assert_eq!(request.data.trigger_by, "auto");
    assert_eq!(request.data.use_model, "m-1");
    assert!(request.data.use_new_memory);
    assert_eq!(request.data.items.len(), 2);
    let welcome = &request.data.items[0];
    assert_eq!(welcome.item_id, "msg:p");
    assert_eq!(welcome.conversation_id, "conv:c");
    assert_eq!(welcome.item_type, "reply");
    assert_eq!(welcome.summary, "__RENDER_BOT_WELCOME_MSG__");
    assert_eq!(welcome.parent_item_id, None);
    assert_eq!(welcome.data.data_type, "text");
    assert_eq!(welcome.data.content, "__RENDER_BOT_WELCOME_MSG__");
    assert_eq!(welcome.data.quote_content, None);
    assert_eq!(welcome.data.max_token, None);
    assert_eq!(welcome.data.is_incognito, None);
    let question = &request.data.items[1];
    assert_eq!(question.item_id, "msg:n");
    assert_eq!(question.item_type, "question");
    assert_eq!(question.summary, "PROMPT hi");
    assert_eq!(question.parent_item_id, Some("msg:p".to_string()));
    assert_eq!(question.data.content, "PROMPT hi");
    assert_eq!(question.data.quote_content, Some(String::new()));
    assert_eq!(question.data.max_token, Some(0));
    assert_eq!(question.data.is_incognito, Some(false));
    assert_eq!(question.data.file_infos, None);
}

#[test]
fn a_later_request_is_the_question_alone() {
    let session = Session::fresh("c".to_string(), "p".to_string(), "n".to_string())
        .advance("r0".to_string(), "n1".to_string());
    let request = build_chat_request(&session, "m-1", "m_1", "hi", "PROMPT ", "r", "t", false);
    assert_eq!(request.data.items.len(), 1);
    assert_eq!(request.data.items[0].item_id, "msg:n1");
    assert_eq!(request.data.items[0].parent_item_id, Some("msg:r0".to_string()));
    assert_eq!(request.data.items[0].summary, "hi");
    assert_eq!(request.data.pre_parent_item_id, "msg:n1");
}

#[test]
fn explain_image_draws_five_tokens() {
    let image = chat_relay::dto::ImageItem {
        use_full_text: true,
        file_name: "a.png".to_string(),
        file_type: "png".to_string(),
        file_ext: "png".to_string(),
        file_size: 1,
        file_url: "u".to_string(),
        file_uid: "f".to_string(),
        file_chunks: 1,
        file_tokens: 1,
    };
    let request = explain_image(image.clone());
    assert_eq!(request.data.conversation_id.len(), 36);
    assert_eq!(request.data.items[0].conversation_id, format!("conv:{}", request.data.conversation_id));
    assert_eq!(request.data.items[1].data.file_infos, Some(vec![image]));
    assert_eq!(request.data.pre_parent_item_id, request.data.items[1].item_id);
    assert_eq!(request.data.items[1].parent_item_id, Some(request.data.items[0].item_id.clone()));
    assert_ne!(request.data.pre_generated_reply_id, request.data.items[1].item_id);
}

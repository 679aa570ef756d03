//! A conversation from the question to the answer. Only one conversation
//! talks to the backend at a time: each one takes a lock before it touches
//! the store or the backend and gives it back before it hands out its
//! answer. In between it makes round trips; an answer that calls for a tool
//! goes to a helper bot, and what the helper says becomes the next question.

use crate::request::{build_chat_request, chat_request};
use crate::round::{
    conversation_with, round_step, Action, ActionView, ConverseError, ConverseErrorView, Event,
    EventView, RoundState, RoundStateView, Turn, TurnView,
};
use crate::session::{
    fresh_session, model_key, model_key_text, model_of, resolve_model, session_keys, variant_of,
    Session,
};
use crate::settings::{Settings, SettingsView};
use crate::stream::{
    send_request, stream_step, StreamError, StreamErrorView, StreamStep, StreamStepView, STREAM_IDLE_SECONDS,
};
use crate::token::{FreshTokens, FreshTokensView};
use crate::tool::{
    dispatch, dispatch_of, invalid_call, invalid_call_text, sub_bot_uid, Dispatch, DispatchView,
    SubBot, ToolInvocationView,
};
use crate::upload::unexpected_event;
use vstd::prelude::*;

verus! {

/// How long a conversation waits for the lock, in seconds.
pub const LOCK_WAIT_SECONDS: u64 = 120;

/// The room that stands for a conversation outside of any room.
pub const NO_ROOM: u64 = 0;

/// How a conversation ends.
#[derive(Clone, Debug, PartialEq, Eq)]
pub enum Outcome {
    /// With this answer.
    Answer(String),
    /// Without one.
    Failure(ConverseError),
}

/// The mathematical value of [`Outcome`].
pub enum OutcomeView {
    Answer(Seq<char>),
    Failure(ConverseErrorView),
}

impl View for Outcome {
    type V = OutcomeView;

    open spec fn view(&self) -> OutcomeView {
        match self {
            Outcome::Answer(text) => OutcomeView::Answer(text@),
            Outcome::Failure(error) => OutcomeView::Failure(error@),
        }
    }
}

/// Where a conversation stands.
#[derive(Clone, Debug, PartialEq, Eq)]
pub enum ConverseState {
    /// Nothing has happened yet.
    Idle,
    /// The lock was asked for.
    AwaitingLock,
    /// The store was asked for the room's model.
    Resolving,
    /// A round trip with the room's bot is under way.
    InRound { model: String, bot: String, input: String, round: RoundState },
    /// A helper bot is answering; `so_far` is what has come of its answer.
    InTool { model: String, bot: String, so_far: String },
    /// The lock is being given back; then the outcome is handed out.
    Releasing { outcome: Outcome },
    /// The conversation is over.
    Finished,
}

/// The mathematical value of [`ConverseState`].
pub enum ConverseStateView {
    Idle,
    AwaitingLock,
    Resolving,
    InRound { model: Seq<char>, bot: Seq<char>, input: Seq<char>, round: RoundStateView },
    InTool { model: Seq<char>, bot: Seq<char>, so_far: Seq<char> },
    Releasing { outcome: OutcomeView },
    Finished,
}

impl View for ConverseState {
    type V = ConverseStateView;

    open spec fn view(&self) -> ConverseStateView {
        match self {
            ConverseState::Idle => ConverseStateView::Idle,
            ConverseState::AwaitingLock => ConverseStateView::AwaitingLock,
            ConverseState::Resolving => ConverseStateView::Resolving,
            ConverseState::InRound { model, bot, input, round } => ConverseStateView::InRound {
                model: model@,
                bot: bot@,
                input: input@,
                round: round@,
            },
            ConverseState::InTool { model, bot, so_far } => ConverseStateView::InTool {
                model: model@,
                bot: bot@,
                so_far: so_far@,
            },
            ConverseState::Releasing { outcome } => ConverseStateView::Releasing {
                outcome: outcome@,
            },
            ConverseState::Finished => ConverseStateView::Finished,
        }
    }
}

/// The room of a conversation: the one given, or [`NO_ROOM`].
pub open spec fn room_of(room: Option<u64>) -> u64 {
    match room {
        Some(room) => room,
        None => NO_ROOM,
    }
}

/// The room of a conversation.
pub fn normalize_room(room: Option<u64>) -> (r: u64)
    ensures
        r == room_of(room),
{
    match room {
        Some(room) => room,
        None => NO_ROOM,
    }
}

/// Whether a conversation holds the lock in a state.
pub open spec fn holds_lock(state: ConverseStateView) -> bool {
    state is Resolving || state is InRound || state is InTool || state is Releasing
}

/// A conversation that gives the lock back and then ends with `outcome`.
pub open spec fn release_with(outcome: OutcomeView) -> (ConverseStateView, ActionView) {
    (ConverseStateView::Releasing { outcome }, ActionView::ReleaseLock)
}

/// The failure of a conversation to which an event came out of turn.
pub open spec fn out_of_turn_error() -> ConverseErrorView {
    ConverseErrorView::Stream(StreamErrorView::Transport(unexpected_event()))
}

/// The first round trip of a conversation, once the model of its room is
/// known: the store is asked for the session of the room and the variant.
pub open spec fn begin_round(room: u64, model: Seq<char>, input: Seq<char>) -> (
    ConverseStateView,
    ActionView,
) {
    (
        ConverseStateView::InRound {
            model,
            bot: variant_of(model),
            input,
            round: RoundStateView::Reading,
        },
        ActionView::Fetch(session_keys(room, variant_of(model))),
    )
}

/// The request that takes a tool call to its helper bot, on the model of the
/// room: the whole marker is the question of a session made for this one
/// request, with no turn counted, marked incognito.
pub open spec fn tool_request(
    model: Seq<char>,
    helper: SubBot,
    call: ToolInvocationView,
    init_prompt: Seq<char>,
    tokens: FreshTokensView,
) -> crate::dto::ChatDataView {
    chat_request(
        fresh_session(tokens.conversation, tokens.parent, tokens.item),
        model,
        sub_bot_uid(helper),
        call.raw_text,
        init_prompt,
        tokens.reply,
        tokens.task,
        true,
    )
}

/// What follows the answer of a round trip: an answer that is no tool call
/// ends the conversation; a call for a tool of the table goes to its helper
/// bot; any other call ends the conversation with the fixed answer for
/// invalid calls.
pub open spec fn after_answer(
    model: Seq<char>,
    bot: Seq<char>,
    answer: Seq<char>,
    init_prompt: Seq<char>,
    tokens: FreshTokensView,
) -> (ConverseStateView, ActionView) {
    match dispatch_of(answer) {
        DispatchView::Answer => release_with(OutcomeView::Answer(answer)),
        DispatchView::Invalid => release_with(OutcomeView::Answer(invalid_call())),
        DispatchView::Delegate(helper, call) => (
            ConverseStateView::InTool { model, bot, so_far: Seq::empty() },
            ActionView::Ask(tool_request(model, helper, call, init_prompt, tokens)),
        ),
    }
}

/// One step of a conversation about `input` in `room`.
///
/// The lock comes first: a conversation that does not get it in time ends
/// with [`ConverseError::LockTimeout`] and has touched neither store nor
/// backend. With the lock, the model of the room is looked up, and the
/// default stands in where the store holds none or cannot be asked. Then
/// round trips follow, with helper bots in between where an answer calls for
/// a tool. Whatever ends the conversation, the lock is given back first.
pub open spec fn converse_step(
    room: u64,
    input: Seq<char>,
    settings: SettingsView,
    state: ConverseStateView,
    event: EventView,
    tokens: FreshTokensView,
) -> (ConverseStateView, ActionView) {
    match (state, event) {
        (ConverseStateView::Idle, EventView::Start) => (
            ConverseStateView::AwaitingLock,
            ActionView::AcquireLock { wait_seconds: LOCK_WAIT_SECONDS },
        ),
        (ConverseStateView::AwaitingLock, EventView::LockGranted) => (
            ConverseStateView::Resolving,
            ActionView::Fetch(seq![model_key(room)]),
        ),
        (ConverseStateView::AwaitingLock, EventView::LockTimedOut) => (
            ConverseStateView::Finished,
            ActionView::Fail(ConverseErrorView::LockTimeout),
        ),
        (ConverseStateView::Resolving, EventView::Values(values)) => begin_round(
            room,
            model_of(
                if values.len() == 1 {
                    values[0]
                } else {
                    None
                },
                settings.ai_default_model,
            ),
            input,
        ),
        (ConverseStateView::Resolving, EventView::StoreFailed(_)) => begin_round(
            room,
            settings.ai_default_model,
            input,
        ),
        (ConverseStateView::InRound { model, bot, input: question, round }, happened) => {
            let turn = TurnView {
                room,
                model,
                bot,
                input: question,
                init_prompt: settings.init_prompt,
            };
            match round_step(turn, round, happened, tokens) {
                (_, ActionView::Reply(answer)) => after_answer(
                    model,
                    bot,
                    answer,
                    settings.init_prompt,
                    tokens,
                ),
                (_, ActionView::Fail(error)) => release_with(OutcomeView::Failure(error)),
                (next, action) => (
                    ConverseStateView::InRound { model, bot, input: question, round: next },
                    action,
                ),
            }
        },
        (ConverseStateView::InTool { model, bot, so_far }, EventView::Stream(handed)) => {
            match stream_step(so_far, handed) {
                StreamStepView::More(text) => (
                    ConverseStateView::InTool { model, bot, so_far: text },
                    ActionView::Listen { idle_seconds: STREAM_IDLE_SECONDS },
                ),
                StreamStepView::Done(text) => (
                    ConverseStateView::InRound {
                        model,
                        bot,
                        input: text,
                        round: RoundStateView::Reading,
                    },
                    ActionView::Fetch(session_keys(room, bot)),
                ),
                StreamStepView::Failed(error) => release_with(
                    OutcomeView::Failure(ConverseErrorView::Stream(error)),
                ),
            }
        },
        (ConverseStateView::Releasing { outcome }, EventView::Released) => (
            ConverseStateView::Finished,
            match outcome {
                OutcomeView::Answer(text) => ActionView::Reply(text),
                OutcomeView::Failure(error) => ActionView::Fail(error),
            },
        ),
        (ConverseStateView::Releasing { outcome }, _) => release_with(outcome),
        (ConverseStateView::Resolving, _) => release_with(
            OutcomeView::Failure(out_of_turn_error()),
        ),
        (ConverseStateView::InTool { .. }, _) => release_with(
            OutcomeView::Failure(out_of_turn_error()),
        ),
        _ => (ConverseStateView::Finished, ActionView::Fail(out_of_turn_error())),
    }
}

/// Whether a step of a conversation takes tokens: the step that makes the
/// request of a round trip does, and so does the step that hands out the
/// answer of one, for the helper bot that the answer may call.
pub open spec fn converse_takes_tokens(state: ConverseStateView, event: EventView) -> bool {
    state matches ConverseStateView::InRound { round, .. } && ((round is Reading && event
        is Values) || (round is Writing && event is Written))
}

fn release(outcome: Outcome) -> (r: (ConverseState, Action))
    ensures
        (r.0@, r.1@) == release_with(outcome@),
{
    (ConverseState::Releasing { outcome }, Action::ReleaseLock)
}

fn out_of_turn() -> (r: ConverseError)
    ensures
        r@ == out_of_turn_error(),
{
    ConverseError::Stream(StreamError::Transport("unexpected event".to_owned()))
}

fn start_round(room: u64, model: String, input: &str) -> (r: (ConverseState, Action))
    ensures
        (r.0@, r.1@) == begin_round(room, model@, input@),
{
    let bot = crate::session::bot_variant(model.as_str());
    let keys = crate::session::session_key_texts(room, bot.as_str());
    (
        ConverseState::InRound { model, bot, input: input.to_owned(), round: RoundState::Reading },
        Action::Fetch(keys),
    )
}

fn handle_answer(model: String, bot: String, answer: String, init_prompt: &str, tokens: &FreshTokens) -> (r:
    (ConverseState, Action))
    ensures
        (r.0@, r.1@) == after_answer(model@, bot@, answer@, init_prompt@, tokens@),
{
    match dispatch(answer.as_str()) {
        Dispatch::Answer => release(Outcome::Answer(answer)),
        Dispatch::Invalid => release(Outcome::Answer(invalid_call_text())),
        Dispatch::Delegate(helper, call) => {
            let session = Session::fresh(
                tokens.conversation.clone(),
                tokens.parent.clone(),
                tokens.item.clone(),
            );
            let request = build_chat_request(
                &session,
                model.as_str(),
                helper.uid(),
                call.raw_text.as_str(),
                init_prompt,
                tokens.reply.as_str(),
                tokens.task.as_str(),
                true,
            );
            (ConverseState::InTool { model, bot, so_far: String::new() }, Action::Ask(request))
        },
    }
}

fn first_value(values: Vec<Option<String>>) -> (r: Option<String>)
    ensures
        crate::dto::text_view(r) == (if values.deep_view().len() == 1 {
            values.deep_view()[0]
        } else {
            None
        }),
{
    if values.len() != 1 {
        return None;
    }
    let ghost all = values.deep_view();
    let mut rest = values;
    match rest.pop() {
        Some(value) => {
            assert(value.deep_view() == all[0]);
            value
        },
        None => None,
    }
}

/// Takes a conversation about `input` in `room` one step further, with the
/// tokens given for the steps that take some.
pub fn main_conversation_with(
    room: Option<u64>,
    input: &str,
    settings: &Settings,
    state: ConverseState,
    event: Event,
    tokens: &FreshTokens,
) -> (r: (ConverseState, Action))
    ensures
        (r.0@, r.1@) == converse_step(
            room_of(room),
            input@,
            settings@,
            state@,
            event@,
            tokens@,
        ),
{
    let room = normalize_room(room);
    match (state, event) {
        (ConverseState::Idle, Event::Start) => (
            ConverseState::AwaitingLock,
            Action::AcquireLock { wait_seconds: LOCK_WAIT_SECONDS },
        ),
        (ConverseState::AwaitingLock, Event::LockGranted) => {
            let mut keys: Vec<String> = Vec::new();
            keys.push(model_key_text(room));
            assert(keys.deep_view() =~= seq![model_key(room)]);
            (ConverseState::Resolving, Action::Fetch(keys))
        },
        (ConverseState::AwaitingLock, Event::LockTimedOut) => (
            ConverseState::Finished,
            Action::Fail(ConverseError::LockTimeout),
        ),
        (ConverseState::Resolving, Event::Values(values)) => {
            let stored = first_value(values);
            let (model, _) = resolve_model(stored, settings.ai_default_model.as_str());
            start_round(room, model, input)
        },
        (ConverseState::Resolving, Event::StoreFailed(_)) => start_round(
            room,
            settings.ai_default_model.clone(),
            input,
        ),
        (ConverseState::InRound { model, bot, input: question, round }, happened) => {
            let turn = Turn {
                room,
                model: model.as_str(),
                bot: bot.as_str(),
                input: question.as_str(),
                init_prompt: settings.init_prompt.as_str(),
            };
            let (next, action) = conversation_with(&turn, round, happened, tokens);
            match action {
                Action::Reply(answer) => handle_answer(
                    model,
                    bot,
                    answer,
                    settings.init_prompt.as_str(),
                    tokens,
                ),
                Action::Fail(error) => release(Outcome::Failure(error)),
                other => (
                    ConverseState::InRound { model, bot, input: question, round: next },
                    other,
                ),
            }
        },
        (ConverseState::InTool { model, bot, so_far }, Event::Stream(handed)) => {
            match send_request(so_far, &handed) {
                StreamStep::More(text) => (
                    ConverseState::InTool { model, bot, so_far: text },
                    Action::Listen { idle_seconds: STREAM_IDLE_SECONDS },
                ),
                StreamStep::Done(text) => {
                    let keys = crate::session::session_key_texts(room, bot.as_str());
                    (
                        ConverseState::InRound {
                            model,
                            bot,
                            input: text,
                            round: RoundState::Reading,
                        },
                        Action::Fetch(keys),
                    )
                },
                StreamStep::Failed(error) => release(
                    Outcome::Failure(ConverseError::Stream(error)),
                ),
            }
        },
        (ConverseState::Releasing { outcome }, Event::Released) => (
            ConverseState::Finished,
            match outcome {
                Outcome::Answer(text) => Action::Reply(text),
                Outcome::Failure(error) => Action::Fail(error),
            },
        ),
        (ConverseState::Releasing { outcome }, _) => release(outcome),
        (ConverseState::Resolving, _) => release(Outcome::Failure(out_of_turn())),
        (ConverseState::InTool { .. }, _) => release(Outcome::Failure(out_of_turn())),
        _ => (ConverseState::Finished, Action::Fail(out_of_turn())),
    }
}

/// Takes a conversation about `input` in `room` one step further. The steps
/// that take tokens draw them.
pub fn main_conversation(
    room: Option<u64>,
    input: &str,
    settings: &Settings,
    state: ConverseState,
    event: Event,
) -> (r: (ConverseState, Action))
    ensures
        exists|tokens: FreshTokensView|
            {
                &&& converse_takes_tokens(state@, event@) ==> tokens.well_formed()
                &&& (r.0@, r.1@) == #[trigger] converse_step(
                    room_of(room),
                    input@,
                    settings@,
                    state@,
                    event@,
                    tokens,
                )
            },
{
    let takes = match (&state, &event) {
        (ConverseState::InRound { round: RoundState::Reading, .. }, Event::Values(_)) => true,
        (ConverseState::InRound { round: RoundState::Writing { .. }, .. }, Event::Written) => true,
        _ => false,
    };
    let tokens = if takes {
        FreshTokens::draw()
    } else {
        FreshTokens::blank()
    };
    let ghost witness = tokens@;
    let ghost before = (state@, event@);
    let r = main_conversation_with(room, input, settings, state, event, &tokens);
    assert((r.0@, r.1@) == converse_step(
        room_of(room),
        input@,
        settings@,
        before.0,
        before.1,
        witness,
    ));
    r
}

} // verus!

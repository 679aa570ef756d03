//! One round trip of a conversation: the session is read from the store, the
//! question goes to the backend, the answer is gathered from the stream, and
//! the session is advanced. One step at a time; what the steps ask for is
//! done elsewhere.

use crate::dto::{ChatData, ChatDataView};
use crate::request::{build_chat_request, chat_request};
use crate::session::{
    advance_commands, advance_writes, session_key_texts, session_keys, session_of, Session,
    StoreCommand, StoreCommandView, StoreError, StoreErrorView,
};
use crate::stream::{
    send_request, stream_step, StreamError, StreamErrorView, StreamInput, StreamInputView,
    StreamStep, StreamStepView, STREAM_IDLE_SECONDS,
};
use crate::token::{FreshTokens, FreshTokensView};
use crate::upload::unexpected_event;
use vstd::prelude::*;

verus! {

/// Why a conversation gave no answer.
#[derive(Clone, Debug, PartialEq, Eq)]
pub enum ConverseError {
    /// The lock was not granted in time.
    LockTimeout,
    /// The store gave no session, or could not be reached.
    Store(StoreError),
    /// The request to the backend failed.
    Stream(StreamError),
}

/// The mathematical value of [`ConverseError`].
pub enum ConverseErrorView {
    LockTimeout,
    Store(StoreErrorView),
    Stream(StreamErrorView),
}

impl View for ConverseError {
    type V = ConverseErrorView;

    open spec fn view(&self) -> ConverseErrorView {
        match self {
            ConverseError::LockTimeout => ConverseErrorView::LockTimeout,
            ConverseError::Store(error) => ConverseErrorView::Store(error@),
            ConverseError::Stream(error) => ConverseErrorView::Stream(error@),
        }
    }
}

/// What may happen to a conversation.
#[derive(Clone, Debug, PartialEq, Eq)]
pub enum Event {
    /// It is to begin.
    Start,
    /// The lock was granted.
    LockGranted,
    /// The lock was not granted in time.
    LockTimedOut,
    /// The store has answered: these are the values of the keys asked for,
    /// in the order asked, with nothing for a key that is not there.
    Values(Vec<Option<String>>),
    /// The store could not be reached, with its message.
    StoreFailed(String),
    /// The stream of the backend's answer handed something over.
    Stream(StreamInput),
    /// The writes are done.
    Written,
    /// The lock was released.
    Released,
}

/// The mathematical value of [`Event`].
pub enum EventView {
    Start,
    LockGranted,
    LockTimedOut,
    Values(Seq<Option<Seq<char>>>),
    StoreFailed(Seq<char>),
    Stream(StreamInputView),
    Written,
    Released,
}

impl View for Event {
    type V = EventView;

    open spec fn view(&self) -> EventView {
        match self {
            Event::Start => EventView::Start,
            Event::LockGranted => EventView::LockGranted,
            Event::LockTimedOut => EventView::LockTimedOut,
            Event::Values(values) => EventView::Values(values.deep_view()),
            Event::StoreFailed(cause) => EventView::StoreFailed(cause@),
            Event::Stream(input) => EventView::Stream(input@),
            Event::Written => EventView::Written,
            Event::Released => EventView::Released,
        }
    }
}

/// What is to be done next for a conversation.
#[derive(Clone, Debug, PartialEq, Eq)]
pub enum Action {
    /// Take the lock, waiting no longer than `wait_seconds`.
    AcquireLock { wait_seconds: u64 },
    /// Give the lock back.
    ReleaseLock,
    /// Ask the store for what stands under these keys.
    Fetch(Vec<String>),
    /// Send this request and wait for the first event of the stream that
    /// answers it, no longer than [`STREAM_IDLE_SECONDS`].
    Ask(ChatData),
    /// Wait for the next event of the stream, no longer than `idle_seconds`.
    Listen { idle_seconds: u64 },
    /// Make these writes to the store, in this order.
    Write(Vec<StoreCommand>),
    /// This is the answer.
    Reply(String),
    /// There will be no answer.
    Fail(ConverseError),
}

/// The mathematical value of [`Action`].
pub enum ActionView {
    AcquireLock { wait_seconds: u64 },
    ReleaseLock,
    Fetch(Seq<Seq<char>>),
    Ask(ChatDataView),
    Listen { idle_seconds: u64 },
    Write(Seq<StoreCommandView>),
    Reply(Seq<char>),
    Fail(ConverseErrorView),
}

impl View for Action {
    type V = ActionView;

    open spec fn view(&self) -> ActionView {
        match self {
            Action::AcquireLock { wait_seconds } => ActionView::AcquireLock {
                wait_seconds: *wait_seconds,
            },
            Action::ReleaseLock => ActionView::ReleaseLock,
            Action::Fetch(keys) => ActionView::Fetch(keys.deep_view()),
            Action::Ask(request) => ActionView::Ask(request@),
            Action::Listen { idle_seconds } => ActionView::Listen { idle_seconds: *idle_seconds },
            Action::Write(writes) => ActionView::Write(writes.deep_view()),
            Action::Reply(text) => ActionView::Reply(text@),
            Action::Fail(error) => ActionView::Fail(error@),
        }
    }
}

/// Where a round trip stands.
#[derive(Clone, Debug, PartialEq, Eq)]
pub enum RoundState {
    /// Nothing has happened yet.
    Idle,
    /// The store was asked for the session.
    Reading,
    /// The question is with the backend. `reply` names the answer to come,
    /// `next` the question after it, and `so_far` is what has come of the
    /// answer.
    Listening { reply: String, next: String, so_far: String },
    /// The answer is complete and the session is being advanced.
    Writing { answer: String },
    /// The round trip is over.
    Finished,
}

/// The mathematical value of [`RoundState`].
pub enum RoundStateView {
    Idle,
    Reading,
    Listening { reply: Seq<char>, next: Seq<char>, so_far: Seq<char> },
    Writing { answer: Seq<char> },
    Finished,
}

impl View for RoundState {
    type V = RoundStateView;

    open spec fn view(&self) -> RoundStateView {
        match self {
            RoundState::Idle => RoundStateView::Idle,
            RoundState::Reading => RoundStateView::Reading,
            RoundState::Listening { reply, next, so_far } => RoundStateView::Listening {
                reply: reply@,
                next: next@,
                so_far: so_far@,
            },
            RoundState::Writing { answer } => RoundStateView::Writing { answer: answer@ },
            RoundState::Finished => RoundStateView::Finished,
        }
    }
}

/// What a round trip is about: the room, its model and the variant that
/// stands for it, the question, and the prompt that opens a session.
pub struct Turn<'a> {
    pub room: u64,
    pub model: &'a str,
    pub bot: &'a str,
    pub input: &'a str,
    pub init_prompt: &'a str,
}

/// The mathematical value of [`Turn`].
pub struct TurnView {
    pub room: u64,
    pub model: Seq<char>,
    pub bot: Seq<char>,
    pub input: Seq<char>,
    pub init_prompt: Seq<char>,
}

impl<'a> View for Turn<'a> {
    type V = TurnView;

    open spec fn view(&self) -> TurnView {
        TurnView {
            room: self.room,
            model: self.model@,
            bot: self.bot@,
            input: self.input@,
            init_prompt: self.init_prompt@,
        }
    }
}

/// A round trip that has failed because an event came out of turn.
pub open spec fn round_out_of_turn() -> (RoundStateView, ActionView) {
    (
        RoundStateView::Finished,
        ActionView::Fail(
            ConverseErrorView::Stream(StreamErrorView::Transport(unexpected_event())),
        ),
    )
}

/// What follows the store's answer to the question for the session: with a
/// session, the request for its next turn; without one, the end.
pub open spec fn after_values(
    turn: TurnView,
    values: Seq<Option<Seq<char>>>,
    tokens: FreshTokensView,
) -> (RoundStateView, ActionView) {
    let session = if values.len() == 4 {
        session_of(values[0], values[1], values[2], values[3])
    } else {
        None
    };
    match session {
        Some(session) => (
            RoundStateView::Listening {
                reply: tokens.reply,
                next: tokens.item,
                so_far: Seq::empty(),
            },
            ActionView::Ask(
                chat_request(
                    session,
                    turn.model,
                    turn.bot,
                    turn.input,
                    turn.init_prompt,
                    tokens.reply,
                    tokens.task,
                    false,
                ),
            ),
        ),
        None => (
            RoundStateView::Finished,
            ActionView::Fail(ConverseErrorView::Store(StoreErrorView::Missing)),
        ),
    }
}

/// What follows an event of the stream while the backend answers: more
/// listening, or, once the answer is complete, the writes that advance the
/// session to the reply just issued and to a new token for the next question.
pub open spec fn after_input(
    turn: TurnView,
    reply: Seq<char>,
    next: Seq<char>,
    so_far: Seq<char>,
    input: StreamInputView,
) -> (RoundStateView, ActionView) {
    match stream_step(so_far, input) {
        StreamStepView::More(text) => (
            RoundStateView::Listening { reply, next, so_far: text },
            ActionView::Listen { idle_seconds: STREAM_IDLE_SECONDS },
        ),
        StreamStepView::Done(text) => (
            RoundStateView::Writing { answer: text },
            ActionView::Write(advance_commands(turn.room, turn.bot, reply, next)),
        ),
        StreamStepView::Failed(error) => (
            RoundStateView::Finished,
            ActionView::Fail(ConverseErrorView::Stream(error)),
        ),
    }
}

/// One step of a round trip. The session is read first; a store that cannot
/// be reached, or that holds no session, ends the round trip. Then the
/// question is asked and the answer gathered; a failure of the stream ends
/// the round trip with the session as it was. Then the session is advanced,
/// and only when that is done the answer is handed out.
pub open spec fn round_step(
    turn: TurnView,
    state: RoundStateView,
    event: EventView,
    tokens: FreshTokensView,
) -> (RoundStateView, ActionView) {
    match (state, event) {
        (RoundStateView::Idle, EventView::Start) => (
            RoundStateView::Reading,
            ActionView::Fetch(session_keys(turn.room, turn.bot)),
        ),
        (RoundStateView::Reading, EventView::Values(values)) => after_values(turn, values, tokens),
        (RoundStateView::Reading, EventView::StoreFailed(cause)) => (
            RoundStateView::Finished,
            ActionView::Fail(ConverseErrorView::Store(StoreErrorView::Connectivity(cause))),
        ),
        (RoundStateView::Listening { reply, next, so_far }, EventView::Stream(input)) => {
            after_input(turn, reply, next, so_far, input)
        },
        (RoundStateView::Writing { answer }, EventView::Written) => (
            RoundStateView::Finished,
            ActionView::Reply(answer),
        ),
        (RoundStateView::Writing { answer }, EventView::StoreFailed(cause)) => (
            RoundStateView::Finished,
            ActionView::Fail(ConverseErrorView::Store(StoreErrorView::Connectivity(cause))),
        ),
        _ => round_out_of_turn(),
    }
}

/// Whether a step of a round trip takes tokens: the step that makes the
/// request does, for the request, the reply and the question after it.
pub open spec fn round_takes_tokens(state: RoundStateView, event: EventView) -> bool {
    state is Reading && event is Values
}

fn out_of_turn() -> (r: (RoundState, Action))
    ensures
        (r.0@, r.1@) == round_out_of_turn(),
{
    (
        RoundState::Finished,
        Action::Fail(
            ConverseError::Stream(StreamError::Transport("unexpected event".to_owned())),
        ),
    )
}

fn read_values(values: Vec<Option<String>>) -> (r: Result<Session, StoreError>)
    ensures
        match r {
            Ok(session) => values.len() == 4 && session_of(
                values.deep_view()[0],
                values.deep_view()[1],
                values.deep_view()[2],
                values.deep_view()[3],
            ) == Some(session@),
            Err(error) => error@ == StoreErrorView::Missing && (values.len() != 4 || session_of(
                values.deep_view()[0],
                values.deep_view()[1],
                values.deep_view()[2],
                values.deep_view()[3],
            ) is None),
        },
{
    if values.len() != 4 {
        return Err(StoreError::Missing);
    }
    let ghost all = values.deep_view();
    let mut rest = values;
    let count = rest.pop();
    let current = rest.pop();
    let prev = rest.pop();
    let conversation = rest.pop();
    match (conversation, prev, current, count) {
        (Some(conversation), Some(prev), Some(current), Some(count)) => {
            assert(conversation.deep_view() == all[0]);
            assert(prev.deep_view() == all[1]);
            assert(current.deep_view() == all[2]);
            assert(count.deep_view() == all[3]);
            Session::read(conversation, prev, current, count)
        },
        _ => Err(StoreError::Missing),
    }
}

fn after_store_answer(turn: &Turn, values: Vec<Option<String>>, tokens: &FreshTokens) -> (r: (
    RoundState,
    Action,
))
    ensures
        (r.0@, r.1@) == after_values(turn@, values.deep_view(), tokens@),
{
    match read_values(values) {
        Ok(session) => {
            let request = build_chat_request(
                &session,
                turn.model,
                turn.bot,
                turn.input,
                turn.init_prompt,
                tokens.reply.as_str(),
                tokens.task.as_str(),
                false,
            );
            (
                RoundState::Listening {
                    reply: tokens.reply.clone(),
                    next: tokens.item.clone(),
                    so_far: String::new(),
                },
                Action::Ask(request),
            )
        },
        Err(error) => (RoundState::Finished, Action::Fail(ConverseError::Store(error))),
    }
}

/// Takes a round trip one step further, with the tokens given for the step
/// that makes the request.
pub fn conversation_with(turn: &Turn, state: RoundState, event: Event, tokens: &FreshTokens) -> (r: (
    RoundState,
    Action,
))
    ensures
        (r.0@, r.1@) == round_step(turn@, state@, event@, tokens@),
{
    match (state, event) {
        (RoundState::Idle, Event::Start) => (
            RoundState::Reading,
            Action::Fetch(session_key_texts(turn.room, turn.bot)),
        ),
        (RoundState::Reading, Event::Values(values)) => after_store_answer(turn, values, tokens),
        (RoundState::Reading, Event::StoreFailed(cause)) => (
            RoundState::Finished,
            Action::Fail(ConverseError::Store(StoreError::Connectivity(cause))),
        ),
        (RoundState::Listening { reply, next, so_far }, Event::Stream(input)) => {
            match send_request(so_far, &input) {
                StreamStep::More(text) => (
                    RoundState::Listening { reply, next, so_far: text },
                    Action::Listen { idle_seconds: STREAM_IDLE_SECONDS },
                ),
                StreamStep::Done(text) => (
                    RoundState::Writing { answer: text },
                    Action::Write(advance_writes(turn.room, turn.bot, reply, next)),
                ),
                StreamStep::Failed(error) => (
                    RoundState::Finished,
                    Action::Fail(ConverseError::Stream(error)),
                ),
            }
        },
        (RoundState::Writing { answer }, Event::Written) => (
            RoundState::Finished,
            Action::Reply(answer),
        ),
        (RoundState::Writing { answer }, Event::StoreFailed(cause)) => (
            RoundState::Finished,
            Action::Fail(ConverseError::Store(StoreError::Connectivity(cause))),
        ),
        _ => out_of_turn(),
    }
}

/// Takes a round trip one step further. The step that makes the request
/// draws the tokens it needs.
pub fn conversation(turn: &Turn, state: RoundState, event: Event) -> (r: (RoundState, Action))
    ensures
        exists|tokens: FreshTokensView|
            {
                &&& round_takes_tokens(state@, event@) ==> tokens.well_formed()
                &&& (r.0@, r.1@) == #[trigger] round_step(turn@, state@, event@, tokens)
            },
{
    let takes = match (&state, &event) {
        (RoundState::Reading, Event::Values(_)) => true,
        _ => false,
    };
    let tokens = if takes {
        FreshTokens::draw()
    } else {
        FreshTokens::blank()
    };
    let ghost witness = tokens@;
    let ghost before = (state@, event@);
    let r = conversation_with(turn, state, event, &tokens);
    assert((r.0@, r.1@) == round_step(turn@, before.0, before.1, witness));
    r
}

} // verus!

//! The backend answers a chat request with a stream of events. Each message
//! carries a JSON payload with a piece of text and, at the end, a flag. This
//! module gathers the pieces into the reply, one event at a time.

use crate::json::{flag_member, get_flag, get_text, json_parse, parse, text_member};
use vstd::prelude::*;

verus! {

/// How long the stream may stay silent between two events, in seconds.
pub const STREAM_IDLE_SECONDS: u64 = 30;

/// Why a chat request gave no reply.
#[derive(Clone, Debug, PartialEq, Eq)]
pub enum StreamError {
    /// The connection failed; the cause is the transport's own message.
    Transport(String),
    /// No event came within [`STREAM_IDLE_SECONDS`].
    Timeout,
    /// A payload was not a JSON document; the cause is the parser's message.
    Parse(String),
}

/// The mathematical value of [`StreamError`].
pub enum StreamErrorView {
    Transport(Seq<char>),
    Timeout,
    Parse(Seq<char>),
}

impl View for StreamError {
    type V = StreamErrorView;

    open spec fn view(&self) -> StreamErrorView {
        match self {
            StreamError::Transport(cause) => StreamErrorView::Transport(cause@),
            StreamError::Timeout => StreamErrorView::Timeout,
            StreamError::Parse(cause) => StreamErrorView::Parse(cause@),
        }
    }
}

/// What the event stream may hand over next.
#[derive(Clone, Debug, PartialEq, Eq)]
pub enum StreamInput {
    /// The connection stands.
    Open,
    /// A message; what it carries is its payload, a JSON text.
    Message(String),
    /// The stream has ended.
    Closed,
    /// Nothing came within [`STREAM_IDLE_SECONDS`].
    Idle,
    /// The transport reported a failure, with its message.
    Failed(String),
}

/// The mathematical value of [`StreamInput`].
pub enum StreamInputView {
    Open,
    Message(Seq<char>),
    Closed,
    Idle,
    Failed(Seq<char>),
}

impl View for StreamInput {
    type V = StreamInputView;

    open spec fn view(&self) -> StreamInputView {
        match self {
            StreamInput::Open => StreamInputView::Open,
            StreamInput::Message(data) => StreamInputView::Message(data@),
            StreamInput::Closed => StreamInputView::Closed,
            StreamInput::Idle => StreamInputView::Idle,
            StreamInput::Failed(cause) => StreamInputView::Failed(cause@),
        }
    }
}

impl DeepView for StreamInput {
    type V = StreamInputView;

    open spec fn deep_view(&self) -> StreamInputView {
        self@
    }
}

/// Where the reply stands after an event.
#[derive(Clone, Debug, PartialEq, Eq)]
pub enum StreamStep {
    /// The reply is not complete: this is the text so far.
    More(String),
    /// The reply is complete.
    Done(String),
    /// There will be no reply.
    Failed(StreamError),
}

/// The mathematical value of [`StreamStep`].
pub enum StreamStepView {
    More(Seq<char>),
    Done(Seq<char>),
    Failed(StreamErrorView),
}

impl View for StreamStep {
    type V = StreamStepView;

    open spec fn view(&self) -> StreamStepView {
        match self {
            StreamStep::More(text) => StreamStepView::More(text@),
            StreamStep::Done(text) => StreamStepView::Done(text@),
            StreamStep::Failed(error) => StreamStepView::Failed(error@),
        }
    }
}

/// The member of a payload that holds a piece of the reply.
pub open spec fn text_key() -> Seq<char> {
    "text"@
}

/// The member of a payload that says whether the reply is complete.
pub open spec fn finished_key() -> Seq<char> {
    "finished"@
}

/// The reply after a payload with the given members: the text so far, then
/// the payload's text where it has one; complete if the payload says so.
pub open spec fn chunk_step(
    so_far: Seq<char>,
    text: Option<Seq<char>>,
    finished: Option<bool>,
) -> StreamStepView {
    let gathered = match text {
        Some(piece) => so_far + piece,
        None => so_far,
    };
    if finished == Some(true) {
        StreamStepView::Done(gathered)
    } else {
        StreamStepView::More(gathered)
    }
}

/// The reply after one event. The opening changes nothing. A message adds
/// the text that its payload holds under `text`, if it holds a text there,
/// and completes the reply if the payload holds `true` under `finished`. The
/// end of the stream completes the reply with whatever text has come, flag
/// or no flag. Silence, a transport failure and a payload that is no JSON
/// document each end the request with their error.
pub open spec fn stream_step(so_far: Seq<char>, input: StreamInputView) -> StreamStepView {
    match input {
        StreamInputView::Open => StreamStepView::More(so_far),
        StreamInputView::Message(data) => match json_parse(data) {
            Err(cause) => StreamStepView::Failed(StreamErrorView::Parse(cause)),
            Ok(payload) => chunk_step(
                so_far,
                text_member(payload, text_key()),
                flag_member(payload, finished_key()),
            ),
        },
        StreamInputView::Closed => StreamStepView::Done(so_far),
        StreamInputView::Idle => StreamStepView::Failed(StreamErrorView::Timeout),
        StreamInputView::Failed(cause) => StreamStepView::Failed(
            StreamErrorView::Transport(cause),
        ),
    }
}

/// Adds the members of one payload to the text so far.
pub fn take_chunk(so_far: String, text: Option<String>, finished: Option<bool>) -> (r: StreamStep)
    ensures
        r@ == chunk_step(
            so_far@,
            match text {
                Some(piece) => Some(piece@),
                None => None,
            },
            finished,
        ),
{
    let mut gathered = so_far;
    match text {
        Some(piece) => {
            gathered.append(piece.as_str());
        },
        None => {},
    }
    match finished {
        Some(true) => StreamStep::Done(gathered),
        _ => StreamStep::More(gathered),
    }
}

/// Takes the next event of the stream that answers a chat request, and says
/// where the reply stands after it.
pub fn send_request(so_far: String, input: &StreamInput) -> (r: StreamStep)
    ensures
        r@ == stream_step(so_far@, input@),
{
    match input {
        StreamInput::Open => StreamStep::More(so_far),
        StreamInput::Message(data) => {
            match parse(data.as_str()) {
                Err(cause) => StreamStep::Failed(StreamError::Parse(cause)),
                Ok(payload) => {
                    let text = get_text(&payload, "text");
                    let finished = get_flag(&payload, "finished");
                    take_chunk(so_far, text, finished)
                },
            }
        },
        StreamInput::Closed => StreamStep::Done(so_far),
        StreamInput::Idle => StreamStep::Failed(StreamError::Timeout),
        StreamInput::Failed(cause) => StreamStep::Failed(StreamError::Transport(cause.clone())),
    }
}

/// The reply after a run of events, read from the first on and no further
/// than the event that completes or fails the request.
pub open spec fn stream_run(so_far: Seq<char>, inputs: Seq<StreamInputView>) -> StreamStepView
    decreases inputs.len(),
{
    if inputs.len() == 0 {
        StreamStepView::More(so_far)
    } else {
        match stream_step(so_far, inputs[0]) {
            StreamStepView::More(text) => stream_run(text, inputs.skip(1)),
            ended => ended,
        }
    }
}

/// Gathers the reply from a run of events, starting from no text.
pub fn gather(inputs: &Vec<StreamInput>) -> (r: StreamStep)
    ensures
        r@ == stream_run(Seq::empty(), inputs.deep_view()),
{
    let ghost all = inputs.deep_view();
    let mut so_far = String::new();
    let mut i: usize = 0;
    assert(all.skip(0) == all);
    while i < inputs.len()
        invariant
            i <= inputs.len(),
            all == inputs.deep_view(),
            stream_run(so_far@, all.skip(i as int)) == stream_run(Seq::empty(), all),
        decreases inputs.len() - i,
    {
        proof {
            assert(all.skip(i as int)[0] == inputs[i as int]@);
            assert(all.skip(i as int).skip(1) == all.skip(i + 1));
        }
        match send_request(so_far, &inputs[i]) {
            StreamStep::More(text) => {
                so_far = text;
            },
            ended => {
                return ended;
            },
        }
        i += 1;
    }
    StreamStep::More(so_far)
}

} // verus!

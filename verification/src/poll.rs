//! Waiting for the backend to index a file: what an answer to the question
//! about the index means, and when to stop asking.

use crate::json::{
    count_member, element, element_of, get_count, get_text, json_parse, json_tree, member,
    member_of, parse, text_member, JsonTree,
};
use crate::text::join;
use crate::upload::{UploadError, UploadErrorView};
use vstd::prelude::*;

verus! {

/// How often the backend is asked whether it has indexed a file.
pub const POLL_ATTEMPTS: u64 = 5;

/// How long to wait between two such questions, in milliseconds.
pub const POLL_SPACING_MILLIS: u64 = 1000;

/// The state in which the backend reports a file as indexed.
pub const INDEX_READY: u64 = 3;

/// The state in which the backend reports that indexing failed.
pub const INDEX_ERROR: u64 = 2;

/// What is reported where an answer of the backend lacks what was asked for.
pub open spec fn malformed_reply() -> Seq<char> {
    "malformed response"@
}

/// What the report of a failed indexing begins with.
pub open spec fn indexing_failed() -> Seq<char> {
    "Upload processing error:\n"@
}

/// What an answer to the question about the index means.
#[derive(Clone, Debug, PartialEq, Eq)]
pub enum PollVerdict {
    /// The file is indexed, with so many tokens and chunks.
    Ready { file_tokens: u64, file_chunks: u64 },
    /// The upload has failed.
    Failed(UploadError),
    /// Ask again after [`POLL_SPACING_MILLIS`].
    Retry,
}

/// The mathematical value of [`PollVerdict`].
pub enum PollVerdictView {
    Ready { file_tokens: u64, file_chunks: u64 },
    Failed(UploadErrorView),
    Retry,
}

impl View for PollVerdict {
    type V = PollVerdictView;

    open spec fn view(&self) -> PollVerdictView {
        match self {
            PollVerdict::Ready { file_tokens, file_chunks } => PollVerdictView::Ready {
                file_tokens: *file_tokens,
                file_chunks: *file_chunks,
            },
            PollVerdict::Failed(error) => PollVerdictView::Failed(error@),
            PollVerdict::Retry => PollVerdictView::Retry,
        }
    }
}

/// What the answer to question number `attempt` means, the first question
/// being number one. A ready index ends the upload with its counts. An
/// index in error ends it at once with the backend's message. Any other
/// state asks for one more question, unless this was the last of
/// [`POLL_ATTEMPTS`]: then the upload has timed out. An answer without a
/// state, or a ready one without its counts, is malformed.
pub open spec fn poll_verdict(
    attempt: u64,
    index_state: Option<u64>,
    file_tokens: Option<u64>,
    file_chunks: Option<u64>,
    error_message: Option<Seq<char>>,
) -> PollVerdictView {
    match index_state {
        None => PollVerdictView::Failed(UploadErrorView::Remote(malformed_reply())),
        Some(state) => if state == INDEX_READY {
            if file_tokens is Some && file_chunks is Some {
                PollVerdictView::Ready { file_tokens: file_tokens->0, file_chunks: file_chunks->0 }
            } else {
                PollVerdictView::Failed(UploadErrorView::Remote(malformed_reply()))
            }
        } else if state == INDEX_ERROR {
            PollVerdictView::Failed(
                UploadErrorView::Remote(
                    indexing_failed() + (match error_message {
                        Some(message) => message,
                        None => Seq::empty(),
                    }),
                ),
            )
        } else if attempt >= POLL_ATTEMPTS {
            PollVerdictView::Failed(UploadErrorView::Timeout)
        } else {
            PollVerdictView::Retry
        },
    }
}

/// Judges the answer to question number `attempt`.
pub fn judge_poll(
    attempt: u64,
    index_state: Option<u64>,
    file_tokens: Option<u64>,
    file_chunks: Option<u64>,
    error_message: Option<String>,
) -> (r: PollVerdict)
    ensures
        r@ == poll_verdict(
            attempt,
            index_state,
            file_tokens,
            file_chunks,
            crate::dto::text_view(error_message),
        ),
{
    match index_state {
        None => PollVerdict::Failed(UploadError::Remote("malformed response".to_owned())),
        Some(state) => {
            if state == INDEX_READY {
                match (file_tokens, file_chunks) {
                    (Some(tokens), Some(chunks)) => PollVerdict::Ready {
                        file_tokens: tokens,
                        file_chunks: chunks,
                    },
                    _ => PollVerdict::Failed(UploadError::Remote("malformed response".to_owned())),
                }
            } else if state == INDEX_ERROR {
                let report = match error_message {
                    Some(message) => join("Upload processing error:\n", message.as_str()),
                    None => {
                        let bare = "Upload processing error:\n".to_owned();
                        assert(bare@ + Seq::<char>::empty() == bare@);
                        bare
                    },
                };
                PollVerdict::Failed(UploadError::Remote(report))
            } else if attempt >= POLL_ATTEMPTS {
                PollVerdict::Failed(UploadError::Timeout)
            } else {
                PollVerdict::Retry
            }
        },
    }
}

/// The first element of the list that an answer holds under `key` of its
/// member `data`.
pub open spec fn first_in(answer: JsonTree, key: Seq<char>) -> Option<JsonTree> {
    match member_of(answer, "data"@) {
        Some(data) => match member_of(data, key) {
            Some(list) => element_of(list, 0),
            None => None,
        },
        None => None,
    }
}

/// Reads the first element of the list under `key` of the member `data`.
pub(crate) fn first<'a>(answer: &'a serde_json::Value, key: &str) -> (r: Option<&'a serde_json::Value>)
    ensures
        match r {
            Some(found) => first_in(json_tree(*answer), key@) == Some(json_tree(*found)),
            None => first_in(json_tree(*answer), key@) is None,
        },
{
    match member(answer, "data") {
        Some(data) => match member(data, key) {
            Some(list) => element(list, 0),
            None => None,
        },
        None => None,
    }
}

/// What the body of an answer to question number `attempt` means: a body
/// that is no JSON document fails the upload with the parser's message, any
/// other is judged by the members `index_state`, `file_tokens`,
/// `file_chunks` and `error_message` of the first of its `items`.
pub open spec fn poll_reply(attempt: u64, body: Seq<char>) -> PollVerdictView {
    match json_parse(body) {
        Err(cause) => PollVerdictView::Failed(UploadErrorView::Remote(cause)),
        Ok(answer) => match first_in(answer, "items"@) {
            Some(item) => poll_verdict(
                attempt,
                count_member(item, "index_state"@),
                count_member(item, "file_tokens"@),
                count_member(item, "file_chunks"@),
                text_member(item, "error_message"@),
            ),
            None => poll_verdict(attempt, None, None, None, None),
        },
    }
}

/// Reads and judges the answer to question number `attempt`.
pub fn read_poll(attempt: u64, body: &str) -> (r: PollVerdict)
    ensures
        r@ == poll_reply(attempt, body@),
{
    match parse(body) {
        Err(cause) => PollVerdict::Failed(UploadError::Remote(cause)),
        Ok(answer) => match first(&answer, "items") {
            Some(item) => {
                let index_state = get_count(item, "index_state");
                let file_tokens = get_count(item, "file_tokens");
                let file_chunks = get_count(item, "file_chunks");
                let error_message = get_text(item, "error_message");
                judge_poll(attempt, index_state, file_tokens, file_chunks, error_message)
            },
            None => judge_poll(attempt, None, None, None, None),
        },
    }
}

/// An index in error fails the upload at once, whichever question it
/// answers, and leaves the remaining questions unasked.
pub proof fn lemma_error_fails_fast(
    attempt: u64,
    file_tokens: Option<u64>,
    file_chunks: Option<u64>,
    error_message: Option<Seq<char>>,
)
    ensures
        poll_verdict(attempt, Some(INDEX_ERROR), file_tokens, file_chunks, error_message)
            matches PollVerdictView::Failed(UploadErrorView::Remote(_)),
{
}

/// An index that is neither ready nor in error asks for one more question
/// as long as fewer than [`POLL_ATTEMPTS`] were asked, and times the upload
/// out at the last one: no upload asks more than [`POLL_ATTEMPTS`] times.
pub proof fn lemma_poll_budget(
    attempt: u64,
    state: u64,
    file_tokens: Option<u64>,
    file_chunks: Option<u64>,
    error_message: Option<Seq<char>>,
)
    requires
        state != INDEX_READY,
        state != INDEX_ERROR,
    ensures
        attempt < POLL_ATTEMPTS ==> poll_verdict(
            attempt,
            Some(state),
            file_tokens,
            file_chunks,
            error_message,
        ) == PollVerdictView::Retry,
        attempt >= POLL_ATTEMPTS ==> poll_verdict(
            attempt,
            Some(state),
            file_tokens,
            file_chunks,
            error_message,
        ) == PollVerdictView::Failed(UploadErrorView::Timeout),
{
}

} // verus!

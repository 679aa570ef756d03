//! Describing an image: the image is uploaded, the backend is asked what it
//! shows, and its answer is gathered from the stream. One step at a time.

use crate::dto::{ChatData, ChatDataView, ImgData};
use crate::request::{caption_request, explain_image_with};
use crate::stream::{
    send_request, stream_step, StreamError, StreamErrorView, StreamInput, StreamInputView,
    StreamStep, StreamStepView, STREAM_IDLE_SECONDS,
};
use crate::text::{number_of, parse_number};
use crate::token::{random_name, FreshTokens, FreshTokensView, OBJECT_ID_LENGTH};
use crate::upload::{
    unexpected_event, upload_image_with, upload_step, UploadAction, UploadActionView, UploadError,
    UploadErrorView, UploadEvent, UploadEventView, UploadJob, UploadJobView, UploadState,
    UploadStateView,
};
use vstd::prelude::*;

verus! {

/// Why an image got no description.
#[derive(Clone, Debug, PartialEq, Eq)]
pub enum CaptionError {
    /// The upload failed.
    Upload(UploadError),
    /// The request for the description failed.
    Stream(StreamError),
}

/// The mathematical value of [`CaptionError`].
pub enum CaptionErrorView {
    Upload(UploadErrorView),
    Stream(StreamErrorView),
}

impl View for CaptionError {
    type V = CaptionErrorView;

    open spec fn view(&self) -> CaptionErrorView {
        match self {
            CaptionError::Upload(error) => CaptionErrorView::Upload(error@),
            CaptionError::Stream(error) => CaptionErrorView::Stream(error@),
        }
    }
}

/// Where the description of an image stands.
#[derive(Clone, Debug, PartialEq, Eq)]
pub enum CaptionState {
    /// The image is being uploaded.
    Uploading(UploadState),
    /// The backend was asked; this is what it has answered so far.
    Listening(String),
    /// It is over.
    Finished,
}

/// The mathematical value of [`CaptionState`].
pub enum CaptionStateView {
    Uploading(UploadStateView),
    Listening(Seq<char>),
    Finished,
}

impl View for CaptionState {
    type V = CaptionStateView;

    open spec fn view(&self) -> CaptionStateView {
        match self {
            CaptionState::Uploading(upload) => CaptionStateView::Uploading(upload@),
            CaptionState::Listening(text) => CaptionStateView::Listening(text@),
            CaptionState::Finished => CaptionStateView::Finished,
        }
    }
}

/// What may happen while an image is described.
#[derive(Clone, Debug, PartialEq, Eq)]
pub enum CaptionEvent {
    /// Something happened to the upload.
    Upload(UploadEvent),
    /// The stream of the answer handed something over.
    Stream(StreamInput),
}

/// The mathematical value of [`CaptionEvent`].
pub enum CaptionEventView {
    Upload(UploadEventView),
    Stream(StreamInputView),
}

impl View for CaptionEvent {
    type V = CaptionEventView;

    open spec fn view(&self) -> CaptionEventView {
        match self {
            CaptionEvent::Upload(event) => CaptionEventView::Upload(event@),
            CaptionEvent::Stream(input) => CaptionEventView::Stream(input@),
        }
    }
}

/// What is to be done next for the description of an image.
#[derive(Clone, Debug, PartialEq, Eq)]
pub enum CaptionAction {
    /// Do this for the upload.
    Upload(UploadAction),
    /// Send this request and wait for the first event of the stream that
    /// answers it, no longer than [`STREAM_IDLE_SECONDS`].
    Ask(ChatData),
    /// Wait for the next event of the stream, no longer than `idle_seconds`.
    Listen { idle_seconds: u64 },
    /// This is the description.
    Reply(String),
    /// There will be no description.
    Fail(CaptionError),
}

/// The mathematical value of [`CaptionAction`].
pub enum CaptionActionView {
    Upload(UploadActionView),
    Ask(ChatDataView),
    Listen { idle_seconds: u64 },
    Reply(Seq<char>),
    Fail(CaptionErrorView),
}

impl View for CaptionAction {
    type V = CaptionActionView;

    open spec fn view(&self) -> CaptionActionView {
        match self {
            CaptionAction::Upload(action) => CaptionActionView::Upload(action@),
            CaptionAction::Ask(request) => CaptionActionView::Ask(request@),
            CaptionAction::Listen { idle_seconds } => CaptionActionView::Listen {
                idle_seconds: *idle_seconds,
            },
            CaptionAction::Reply(text) => CaptionActionView::Reply(text@),
            CaptionAction::Fail(error) => CaptionActionView::Fail(error@),
        }
    }
}

/// The upload that an image of the chat transport asks for, if the size it
/// states is a number.
pub open spec fn job_of(file: Seq<char>, url: Seq<char>, file_size: Seq<char>) -> Option<
    UploadJobView,
> {
    match number_of(file_size) {
        Some(size) => Some(UploadJobView { filename: file, file_size: size as u64, url }),
        None => None,
    }
}

/// The upload that an image of the chat transport asks for.
pub fn caption_job(data: &ImgData) -> (r: Option<UploadJob>)
    ensures
        match r {
            Some(job) => job_of(data.file@, data.url@, data.file_size@) == Some(job@),
            None => job_of(data.file@, data.url@, data.file_size@) is None,
        },
{
    match parse_number(data.file_size.as_str()) {
        Some(file_size) => Some(
            UploadJob { filename: data.file.clone(), file_size, url: data.url.clone() },
        ),
        None => None,
    }
}

/// One step of the description of an image. While the image is uploaded the
/// steps are those of the upload; once it is stored and indexed the backend
/// is asked what it shows, and from then on the steps are those of the
/// stream. An event that belongs to the other phase ends it all.
pub open spec fn caption_step(
    job: UploadJobView,
    state: CaptionStateView,
    event: CaptionEventView,
    obj_id: Seq<char>,
    tokens: FreshTokensView,
) -> (CaptionStateView, CaptionActionView) {
    match (state, event) {
        (CaptionStateView::Uploading(upload), CaptionEventView::Upload(happened)) => {
            match upload_step(job, upload, happened, obj_id) {
                (_, UploadActionView::Done(image)) => (
                    CaptionStateView::Listening(Seq::empty()),
                    CaptionActionView::Ask(caption_request(image, tokens)),
                ),
                (_, UploadActionView::Fail(error)) => (
                    CaptionStateView::Finished,
                    CaptionActionView::Fail(CaptionErrorView::Upload(error)),
                ),
                (next, action) => (
                    CaptionStateView::Uploading(next),
                    CaptionActionView::Upload(action),
                ),
            }
        },
        (CaptionStateView::Listening(so_far), CaptionEventView::Stream(input)) => {
            match stream_step(so_far, input) {
                StreamStepView::More(text) => (
                    CaptionStateView::Listening(text),
                    CaptionActionView::Listen { idle_seconds: STREAM_IDLE_SECONDS },
                ),
                StreamStepView::Done(text) => (
                    CaptionStateView::Finished,
                    CaptionActionView::Reply(text),
                ),
                StreamStepView::Failed(error) => (
                    CaptionStateView::Finished,
                    CaptionActionView::Fail(CaptionErrorView::Stream(error)),
                ),
            }
        },
        _ => (
            CaptionStateView::Finished,
            CaptionActionView::Fail(
                CaptionErrorView::Upload(UploadErrorView::Remote(unexpected_event())),
            ),
        ),
    }
}

/// Takes the description of an image one step further, with the name and
/// the tokens given for the steps that need them.
pub fn process_image_with(
    job: &UploadJob,
    state: CaptionState,
    event: CaptionEvent,
    obj_id: String,
    tokens: FreshTokens,
) -> (r: (CaptionState, CaptionAction))
    ensures
        (r.0@, r.1@) == caption_step(job@, state@, event@, obj_id@, tokens@),
{
    match (state, event) {
        (CaptionState::Uploading(upload), CaptionEvent::Upload(happened)) => {
            let (next, action) = upload_image_with(job, upload, happened, obj_id);
            match action {
                UploadAction::Done(image) => (
                    CaptionState::Listening(String::new()),
                    CaptionAction::Ask(explain_image_with(image, tokens)),
                ),
                UploadAction::Fail(error) => (
                    CaptionState::Finished,
                    CaptionAction::Fail(CaptionError::Upload(error)),
                ),
                other => (CaptionState::Uploading(next), CaptionAction::Upload(other)),
            }
        },
        (CaptionState::Listening(so_far), CaptionEvent::Stream(input)) => {
            match send_request(so_far, &input) {
                StreamStep::More(text) => (
                    CaptionState::Listening(text),
                    CaptionAction::Listen { idle_seconds: STREAM_IDLE_SECONDS },
                ),
                StreamStep::Done(text) => (CaptionState::Finished, CaptionAction::Reply(text)),
                StreamStep::Failed(error) => (
                    CaptionState::Finished,
                    CaptionAction::Fail(CaptionError::Stream(error)),
                ),
            }
        },
        _ => (
            CaptionState::Finished,
            CaptionAction::Fail(
                CaptionError::Upload(UploadError::Remote("unexpected event".to_owned())),
            ),
        ),
    }
}

/// Whether a step asks the backend for a place, and so needs a name for
/// the upload.
pub open spec fn step_names_object(state: CaptionStateView, event: CaptionEventView) -> bool {
    state matches CaptionStateView::Uploading(UploadStateView::Downloading) && event
        matches CaptionEventView::Upload(UploadEventView::Fetched)
}

/// Whether a step may ask the backend what the image shows, and so needs
/// tokens for the request.
pub open spec fn step_may_ask(state: CaptionStateView, event: CaptionEventView) -> bool {
    state matches CaptionStateView::Uploading(UploadStateView::Polling { .. }) && event
        matches CaptionEventView::Upload(UploadEventView::Body(_))
}

/// Takes the description of an image one step further. Where the step asks
/// the backend for a place, the name of the upload is drawn; where it may
/// ask what the image shows, the tokens of the request are drawn.
pub fn process_image(job: &UploadJob, state: CaptionState, event: CaptionEvent) -> (r: (
    CaptionState,
    CaptionAction,
))
    ensures
        exists|obj_id: Seq<char>, tokens: FreshTokensView|
            {
                &&& step_names_object(state@, event@) ==> obj_id.len() == OBJECT_ID_LENGTH
                &&& step_may_ask(state@, event@) ==> tokens.well_formed()
                &&& (r.0@, r.1@) == #[trigger] caption_step(job@, state@, event@, obj_id, tokens)
            },
{
    let names = match (&state, &event) {
        (CaptionState::Uploading(UploadState::Downloading), CaptionEvent::Upload(UploadEvent::Fetched)) => true,
        _ => false,
    };
    let asks = match (&state, &event) {
        (CaptionState::Uploading(UploadState::Polling { .. }), CaptionEvent::Upload(UploadEvent::Body(_))) => true,
        _ => false,
    };
    let obj_id = if names {
        random_name(OBJECT_ID_LENGTH)
    } else {
        String::new()
    };
    let tokens = if asks {
        FreshTokens::draw()
    } else {
        FreshTokens::blank()
    };
    let ghost witness = (obj_id@, tokens@);
    let ghost before = (state@, event@);
    let r = process_image_with(job, state, event, obj_id, tokens);
    assert((r.0@, r.1@) == caption_step(job@, before.0, before.1, witness.0, witness.1));
    r
}

} // verus!

//! Uploading an image to the backend: what is asked of it at each step, and
//! what its answers mean. The transfers themselves are made elsewhere; this
//! module decides, event by event, what comes next.

use crate::dto::{ImageItem, ImageItemView};
use crate::json::{as_text, get_text, json_parse, parse, text_in, text_member};
use crate::poll::{
    first, first_in, malformed_reply, poll_reply, read_poll, PollVerdict, PollVerdictView,
    POLL_ATTEMPTS, POLL_SPACING_MILLIS,
};
use crate::text::{chars_of, slice_text};
use crate::token::{is_alphanumeric, random_name, OBJECT_ID_LENGTH};
use vstd::prelude::*;

verus! {

/// Why an upload gave no file.
#[derive(Clone, Debug, PartialEq, Eq)]
pub enum UploadError {
    /// The backend, or the way to it, failed; with the message that came.
    Remote(String),
    /// The backend did not index the file within [`POLL_ATTEMPTS`] questions.
    Timeout,
}

/// The mathematical value of [`UploadError`].
pub enum UploadErrorView {
    Remote(Seq<char>),
    Timeout,
}

impl View for UploadError {
    type V = UploadErrorView;

    open spec fn view(&self) -> UploadErrorView {
        match self {
            UploadError::Remote(cause) => UploadErrorView::Remote(cause@),
            UploadError::Timeout => UploadErrorView::Timeout,
        }
    }
}

/// The image to upload.
#[derive(Clone, Debug, PartialEq, Eq)]
pub struct UploadJob {
    pub filename: String,
    pub file_size: u64,
    pub url: String,
}

/// The mathematical value of [`UploadJob`].
pub struct UploadJobView {
    pub filename: Seq<char>,
    pub file_size: u64,
    pub url: Seq<char>,
}

impl View for UploadJob {
    type V = UploadJobView;

    open spec fn view(&self) -> UploadJobView {
        UploadJobView { filename: self.filename@, file_size: self.file_size, url: self.url@ }
    }
}

/// The request for a place to put a file.
#[derive(Clone, Debug, PartialEq, Eq)]
pub struct PresignRequest {
    pub filename_list: Vec<String>,
    pub location: String,
    pub module: String,
    pub obj_id: String,
}

/// The mathematical value of [`PresignRequest`].
pub struct PresignRequestView {
    pub filename_list: Seq<Seq<char>>,
    pub location: Seq<char>,
    pub module: Seq<char>,
    pub obj_id: Seq<char>,
}

impl View for PresignRequest {
    type V = PresignRequestView;

    open spec fn view(&self) -> PresignRequestView {
        PresignRequestView {
            filename_list: self.filename_list.deep_view(),
            location: self.location@,
            module: self.module@,
            obj_id: self.obj_id@,
        }
    }
}

/// The request that makes a stored object known to the backend as a file.
#[derive(Clone, Debug, PartialEq, Eq)]
pub struct RegisterRequest {
    pub url: String,
    pub parse: bool,
    pub file_name: String,
    pub file_size: u64,
    pub file_type: String,
    pub object_url: String,
    pub embedding: bool,
}

/// The mathematical value of [`RegisterRequest`].
pub struct RegisterRequestView {
    pub url: Seq<char>,
    pub parse: bool,
    pub file_name: Seq<char>,
    pub file_size: u64,
    pub file_type: Seq<char>,
    pub object_url: Seq<char>,
    pub embedding: bool,
}

impl View for RegisterRequest {
    type V = RegisterRequestView;

    open spec fn view(&self) -> RegisterRequestView {
        RegisterRequestView {
            url: self.url@,
            parse: self.parse,
            file_name: self.file_name@,
            file_size: self.file_size,
            file_type: self.file_type@,
            object_url: self.object_url@,
            embedding: self.embedding,
        }
    }
}

/// Where the index in `name` lies behind which its extension begins: behind
/// the last `.` among the first `upto` characters, or at the start where
/// there is none.
pub open spec fn extension_start(name: Seq<char>, upto: int) -> int
    decreases upto,
{
    if upto <= 0 {
        0
    } else if name[upto - 1] == '.' {
        upto
    } else {
        extension_start(name, upto - 1)
    }
}

/// The extension of a file name: what follows its last `.`, or the whole
/// name where it holds no `.`.
pub open spec fn extension_of(name: Seq<char>) -> Seq<char> {
    name.skip(extension_start(name, name.len() as int))
}

/// The extension holds no `.`, and it is the whole name or stands behind one.
pub proof fn lemma_extension(name: Seq<char>, upto: int)
    requires
        0 <= upto <= name.len(),
    ensures
        0 <= extension_start(name, upto) <= upto,
        forall|i: int| extension_start(name, upto) <= i < upto ==> name[i] != '.',
        extension_start(name, upto) > 0 ==> name[extension_start(name, upto) - 1] == '.',
    decreases upto,
{
    if upto > 0 && name[upto - 1] != '.' {
        lemma_extension(name, upto - 1);
    }
}

/// The extension of a file name.
pub fn file_extension(name: &str) -> (r: String)
    ensures
        r@ == extension_of(name@),
{
    let chars = chars_of(name);
    let mut start: usize = chars.len();
    while start > 0 && chars[start - 1] != '.'
        invariant
            start <= chars.len(),
            extension_start(chars@, chars.len() as int) == extension_start(chars@, start as int),
        decreases start,
    {
        start -= 1;
    }
    let r = slice_text(&chars, start, chars.len());
    assert(chars@.subrange(start as int, chars.len() as int) == chars@.skip(start as int));
    r
}

/// What is reported where an event comes that the upload did not wait for.
pub open spec fn unexpected_event() -> Seq<char> {
    "unexpected event"@
}

/// Where an upload stands.
#[derive(Clone, Debug, PartialEq, Eq)]
pub enum UploadState {
    /// Nothing has happened yet.
    Idle,
    /// The image is being fetched from where it lies.
    Downloading,
    /// The backend was asked for a place to put the file.
    Presigning,
    /// The bytes are on their way to that place.
    Storing { object_url: String },
    /// The backend was told of the stored object.
    Registering { object_url: String },
    /// Question number `asked` about the index is out.
    Polling { object_url: String, file_uid: String, asked: u64 },
    /// `asked` questions were answered; the next one is due after the wait.
    Waiting { object_url: String, file_uid: String, asked: u64 },
    /// The upload is over.
    Finished,
}

/// The mathematical value of [`UploadState`].
pub enum UploadStateView {
    Idle,
    Downloading,
    Presigning,
    Storing { object_url: Seq<char> },
    Registering { object_url: Seq<char> },
    Polling { object_url: Seq<char>, file_uid: Seq<char>, asked: u64 },
    Waiting { object_url: Seq<char>, file_uid: Seq<char>, asked: u64 },
    Finished,
}

impl View for UploadState {
    type V = UploadStateView;

    open spec fn view(&self) -> UploadStateView {
        match self {
            UploadState::Idle => UploadStateView::Idle,
            UploadState::Downloading => UploadStateView::Downloading,
            UploadState::Presigning => UploadStateView::Presigning,
            UploadState::Storing { object_url } => UploadStateView::Storing {
                object_url: object_url@,
            },
            UploadState::Registering { object_url } => UploadStateView::Registering {
                object_url: object_url@,
            },
            UploadState::Polling { object_url, file_uid, asked } => UploadStateView::Polling {
                object_url: object_url@,
                file_uid: file_uid@,
                asked: *asked,
            },
            UploadState::Waiting { object_url, file_uid, asked } => UploadStateView::Waiting {
                object_url: object_url@,
                file_uid: file_uid@,
                asked: *asked,
            },
            UploadState::Finished => UploadStateView::Finished,
        }
    }
}

/// What may happen to an upload.
#[derive(Clone, Debug, PartialEq, Eq)]
pub enum UploadEvent {
    /// The upload is to begin.
    Start,
    /// The image has been fetched.
    Fetched,
    /// The backend has answered; this is the body of its answer.
    Body(String),
    /// The bytes have been put where they belong.
    Stored,
    /// The wait is over.
    Waited,
    /// A transfer failed, with this message.
    Failed(String),
}

/// The mathematical value of [`UploadEvent`].
pub enum UploadEventView {
    Start,
    Fetched,
    Body(Seq<char>),
    Stored,
    Waited,
    Failed(Seq<char>),
}

impl View for UploadEvent {
    type V = UploadEventView;

    open spec fn view(&self) -> UploadEventView {
        match self {
            UploadEvent::Start => UploadEventView::Start,
            UploadEvent::Fetched => UploadEventView::Fetched,
            UploadEvent::Body(body) => UploadEventView::Body(body@),
            UploadEvent::Stored => UploadEventView::Stored,
            UploadEvent::Waited => UploadEventView::Waited,
            UploadEvent::Failed(cause) => UploadEventView::Failed(cause@),
        }
    }
}

/// What is to be done next for an upload.
#[derive(Clone, Debug, PartialEq, Eq)]
pub enum UploadAction {
    /// Fetch the image from `url` and keep its bytes.
    Download { url: String },
    /// Ask the backend for a place to put the file.
    Presign(PresignRequest),
    /// Put the bytes to `upload_url`.
    Store { upload_url: String },
    /// Tell the backend of the stored object.
    Register(RegisterRequest),
    /// Ask the backend how far the index of the file is.
    Poll { file_uid: String },
    /// Wait for `millis` milliseconds.
    Wait { millis: u64 },
    /// The upload has succeeded: this is the file.
    Done(ImageItem),
    /// The upload has failed.
    Fail(UploadError),
}

/// The mathematical value of [`UploadAction`].
pub enum UploadActionView {
    Download { url: Seq<char> },
    Presign(PresignRequestView),
    Store { upload_url: Seq<char> },
    Register(RegisterRequestView),
    Poll { file_uid: Seq<char> },
    Wait { millis: u64 },
    Done(ImageItemView),
    Fail(UploadErrorView),
}

impl View for UploadAction {
    type V = UploadActionView;

    open spec fn view(&self) -> UploadActionView {
        match self {
            UploadAction::Download { url } => UploadActionView::Download { url: url@ },
            UploadAction::Presign(request) => UploadActionView::Presign(request@),
            UploadAction::Store { upload_url } => UploadActionView::Store {
                upload_url: upload_url@,
            },
            UploadAction::Register(request) => UploadActionView::Register(request@),
            UploadAction::Poll { file_uid } => UploadActionView::Poll { file_uid: file_uid@ },
            UploadAction::Wait { millis } => UploadActionView::Wait { millis: *millis },
            UploadAction::Done(image) => UploadActionView::Done(image@),
            UploadAction::Fail(error) => UploadActionView::Fail(error@),
        }
    }
}

/// Where the backend is asked for a place to put a file.
pub fn presign_endpoint() -> (r: &'static str)
    ensures
        r@ == "https://api.monica.im/api/file_object/pre_sign_list_by_module"@,
{
    "https://api.monica.im/api/file_object/pre_sign_list_by_module"
}

/// Where the backend is told of a stored object.
pub fn register_endpoint() -> (r: &'static str)
    ensures
        r@ == "https://api.monica.im/api/files/batch_create_llm_file"@,
{
    "https://api.monica.im/api/files/batch_create_llm_file"
}

/// Where the backend is asked how far the index of a file is.
pub fn poll_endpoint() -> (r: &'static str)
    ensures
        r@ == "https://api.monica.im/api/files/batch_get_file"@,
{
    "https://api.monica.im/api/files/batch_get_file"
}

/// The request for a place to put the file of a job, under the name `obj_id`.
pub open spec fn presign_request(job: UploadJobView, obj_id: Seq<char>) -> PresignRequestView {
    PresignRequestView {
        filename_list: seq![job.filename],
        location: "files"@,
        module: "chat_bot"@,
        obj_id,
    }
}

/// The request that makes the stored object of a job known as a file.
pub open spec fn register_request(job: UploadJobView, object_url: Seq<char>) -> RegisterRequestView {
    RegisterRequestView {
        url: Seq::empty(),
        parse: true,
        file_name: job.filename,
        file_size: job.file_size,
        file_type: extension_of(job.filename),
        object_url,
        embedding: false,
    }
}

/// The file that an upload ends with.
pub open spec fn uploaded_image(
    job: UploadJobView,
    object_url: Seq<char>,
    file_uid: Seq<char>,
    file_chunks: u64,
    file_tokens: u64,
) -> ImageItemView {
    ImageItemView {
        use_full_text: true,
        file_name: job.filename,
        file_type: extension_of(job.filename),
        file_ext: extension_of(job.filename),
        file_size: job.file_size,
        file_url: object_url,
        file_uid,
        file_chunks,
        file_tokens,
    }
}

/// An upload that has failed with a message.
pub open spec fn failed_with(cause: Seq<char>) -> (UploadStateView, UploadActionView) {
    (UploadStateView::Finished, UploadActionView::Fail(UploadErrorView::Remote(cause)))
}

/// What follows the answer to the request for a place: the bytes go to the
/// first address offered, and the first object address is kept.
pub open spec fn presign_answer(body: Seq<char>) -> (UploadStateView, UploadActionView) {
    match json_parse(body) {
        Err(cause) => failed_with(cause),
        Ok(answer) => {
            let upload_url = match first_in(answer, "pre_sign_url_list"@) {
                Some(first) => text_in(first),
                None => None,
            };
            let object_url = match first_in(answer, "object_url_list"@) {
                Some(first) => text_in(first),
                None => None,
            };
            if upload_url is Some && object_url is Some {
                (
                    UploadStateView::Storing { object_url: object_url->0 },
                    UploadActionView::Store { upload_url: upload_url->0 },
                )
            } else {
                failed_with(malformed_reply())
            }
        },
    }
}

/// What follows the answer to the registration: the first question about
/// the index of the file that the backend has named.
pub open spec fn register_answer(object_url: Seq<char>, body: Seq<char>) -> (
    UploadStateView,
    UploadActionView,
) {
    match json_parse(body) {
        Err(cause) => failed_with(cause),
        Ok(answer) => {
            let file_uid = match first_in(answer, "items"@) {
                Some(item) => text_member(item, "file_uid"@),
                None => None,
            };
            match file_uid {
                Some(file_uid) => (
                    UploadStateView::Polling { object_url, file_uid, asked: 1 },
                    UploadActionView::Poll { file_uid },
                ),
                None => failed_with(malformed_reply()),
            }
        },
    }
}

/// What follows the answer to question number `asked` about the index.
pub open spec fn poll_answer(
    job: UploadJobView,
    object_url: Seq<char>,
    file_uid: Seq<char>,
    asked: u64,
    body: Seq<char>,
) -> (UploadStateView, UploadActionView) {
    match poll_reply(asked, body) {
        PollVerdictView::Ready { file_tokens, file_chunks } => (
            UploadStateView::Finished,
            UploadActionView::Done(
                uploaded_image(job, object_url, file_uid, file_chunks, file_tokens),
            ),
        ),
        PollVerdictView::Failed(error) => (UploadStateView::Finished, UploadActionView::Fail(error)),
        PollVerdictView::Retry => (
            UploadStateView::Waiting { object_url, file_uid, asked },
            UploadActionView::Wait { millis: POLL_SPACING_MILLIS },
        ),
    }
}

/// One step of an upload: where it stands after an event, and what is to be
/// done next. The steps follow one another in a fixed order: fetch the
/// image, ask for a place, put the bytes there, register the object, then
/// ask about the index until it is ready, in error, or asked about
/// [`POLL_ATTEMPTS`] times. A failed transfer ends the upload with its
/// message, and so does an event that the upload did not wait for.
pub open spec fn upload_step(
    job: UploadJobView,
    state: UploadStateView,
    event: UploadEventView,
    obj_id: Seq<char>,
) -> (UploadStateView, UploadActionView) {
    match (state, event) {
        (_, UploadEventView::Failed(cause)) => failed_with(cause),
        (UploadStateView::Idle, UploadEventView::Start) => (
            UploadStateView::Downloading,
            UploadActionView::Download { url: job.url },
        ),
        (UploadStateView::Downloading, UploadEventView::Fetched) => (
            UploadStateView::Presigning,
            UploadActionView::Presign(presign_request(job, obj_id)),
        ),
        (UploadStateView::Presigning, UploadEventView::Body(body)) => presign_answer(body),
        (UploadStateView::Storing { object_url }, UploadEventView::Stored) => (
            UploadStateView::Registering { object_url },
            UploadActionView::Register(register_request(job, object_url)),
        ),
        (UploadStateView::Registering { object_url }, UploadEventView::Body(body)) => {
            register_answer(object_url, body)
        },
        (UploadStateView::Polling { object_url, file_uid, asked }, UploadEventView::Body(body)) => {
            poll_answer(job, object_url, file_uid, asked, body)
        },
        (UploadStateView::Waiting { object_url, file_uid, asked }, UploadEventView::Waited) => {
            if asked >= POLL_ATTEMPTS {
                (UploadStateView::Finished, UploadActionView::Fail(UploadErrorView::Timeout))
            } else {
                (
                    UploadStateView::Polling { object_url, file_uid, asked: (asked + 1) as u64 },
                    UploadActionView::Poll { file_uid },
                )
            }
        },
        _ => failed_with(unexpected_event()),
    }
}

/// Whether a step draws the name under which the upload is stored.
pub open spec fn names_object(state: UploadStateView, event: UploadEventView) -> bool {
    state is Downloading && event is Fetched
}

fn out_of_turn() -> (r: (UploadState, UploadAction))
    ensures
        (r.0@, r.1@) == failed_with(unexpected_event()),
{
    (
        UploadState::Finished,
        UploadAction::Fail(UploadError::Remote("unexpected event".to_owned())),
    )
}

fn malformed() -> (r: (UploadState, UploadAction))
    ensures
        (r.0@, r.1@) == failed_with(malformed_reply()),
{
    (
        UploadState::Finished,
        UploadAction::Fail(UploadError::Remote("malformed response".to_owned())),
    )
}

fn after_presign(body: &str) -> (r: (UploadState, UploadAction))
    ensures
        (r.0@, r.1@) == presign_answer(body@),
{
    match parse(body) {
        Err(cause) => (UploadState::Finished, UploadAction::Fail(UploadError::Remote(cause))),
        Ok(answer) => {
            let upload_url = match first(&answer, "pre_sign_url_list") {
                Some(found) => as_text(found),
                None => None,
            };
            let object_url = match first(&answer, "object_url_list") {
                Some(found) => as_text(found),
                None => None,
            };
            match (upload_url, object_url) {
                (Some(upload_url), Some(object_url)) => (
                    UploadState::Storing { object_url },
                    UploadAction::Store { upload_url },
                ),
                _ => malformed(),
            }
        },
    }
}

fn after_register(object_url: String, body: &str) -> (r: (UploadState, UploadAction))
    ensures
        (r.0@, r.1@) == register_answer(object_url@, body@),
{
    match parse(body) {
        Err(cause) => (UploadState::Finished, UploadAction::Fail(UploadError::Remote(cause))),
        Ok(answer) => {
            let file_uid = match first(&answer, "items") {
                Some(item) => get_text(item, "file_uid"),
                None => None,
            };
            match file_uid {
                Some(file_uid) => (
                    UploadState::Polling { object_url, file_uid: file_uid.clone(), asked: 1 },
                    UploadAction::Poll { file_uid },
                ),
                None => malformed(),
            }
        },
    }
}

fn after_poll(job: &UploadJob, object_url: String, file_uid: String, asked: u64, body: &str) -> (r:
    (UploadState, UploadAction))
    ensures
        (r.0@, r.1@) == poll_answer(job@, object_url@, file_uid@, asked, body@),
{
    match read_poll(asked, body) {
        PollVerdict::Ready { file_tokens, file_chunks } => {
            let extension = file_extension(job.filename.as_str());
            (
                UploadState::Finished,
                UploadAction::Done(
                    ImageItem {
                        use_full_text: true,
                        file_name: job.filename.clone(),
                        file_type: extension.clone(),
                        file_ext: extension,
                        file_size: job.file_size,
                        file_url: object_url,
                        file_uid,
                        file_chunks,
                        file_tokens,
                    },
                ),
            )
        },
        PollVerdict::Failed(error) => (UploadState::Finished, UploadAction::Fail(error)),
        PollVerdict::Retry => (
            UploadState::Waiting { object_url, file_uid, asked },
            UploadAction::Wait { millis: POLL_SPACING_MILLIS },
        ),
    }
}

/// Takes an upload one step further, with `obj_id` as the name to store it
/// under where the step asks for a place.
pub fn upload_image_with(job: &UploadJob, state: UploadState, event: UploadEvent, obj_id: String) -> (r:
    (UploadState, UploadAction))
    ensures
        (r.0@, r.1@) == upload_step(job@, state@, event@, obj_id@),
{
    match (state, event) {
        (_, UploadEvent::Failed(cause)) => (
            UploadState::Finished,
            UploadAction::Fail(UploadError::Remote(cause)),
        ),
        (UploadState::Idle, UploadEvent::Start) => (
            UploadState::Downloading,
            UploadAction::Download { url: job.url.clone() },
        ),
        (UploadState::Downloading, UploadEvent::Fetched) => {
            let mut names: Vec<String> = Vec::new();
            names.push(job.filename.clone());
            assert(names.deep_view() =~= seq![job.filename@]);
            (
                UploadState::Presigning,
                UploadAction::Presign(
                    PresignRequest {
                        filename_list: names,
                        location: "files".to_owned(),
                        module: "chat_bot".to_owned(),
                        obj_id,
                    },
                ),
            )
        },
        (UploadState::Presigning, UploadEvent::Body(body)) => after_presign(body.as_str()),
        (UploadState::Storing { object_url }, UploadEvent::Stored) => {
            let request = RegisterRequest {
                url: String::new(),
                parse: true,
                file_name: job.filename.clone(),
                file_size: job.file_size,
                file_type: file_extension(job.filename.as_str()),
                object_url: object_url.clone(),
                embedding: false,
            };
            (UploadState::Registering { object_url }, UploadAction::Register(request))
        },
        (UploadState::Registering { object_url }, UploadEvent::Body(body)) => after_register(
            object_url,
            body.as_str(),
        ),
        (UploadState::Polling { object_url, file_uid, asked }, UploadEvent::Body(body)) => {
            after_poll(job, object_url, file_uid, asked, body.as_str())
        },
        (UploadState::Waiting { object_url, file_uid, asked }, UploadEvent::Waited) => {
            if asked >= POLL_ATTEMPTS {
                (UploadState::Finished, UploadAction::Fail(UploadError::Timeout))
            } else {
                (
                    UploadState::Polling { object_url, file_uid: file_uid.clone(), asked: asked + 1 },
                    UploadAction::Poll { file_uid },
                )
            }
        },
        _ => out_of_turn(),
    }
}

/// Takes an upload one step further. Where the step asks the backend for a
/// place, the name to store the file under is drawn: [`OBJECT_ID_LENGTH`]
/// letters and digits.
pub fn upload_image(job: &UploadJob, state: UploadState, event: UploadEvent) -> (r: (
    UploadState,
    UploadAction,
))
    ensures
        exists|obj_id: Seq<char>|
            {
                &&& names_object(state@, event@) ==> obj_id.len() == OBJECT_ID_LENGTH
                    && forall|i: int| 0 <= i < obj_id.len() ==> is_alphanumeric(obj_id[i])
                &&& (r.0@, r.1@) == #[trigger] upload_step(job@, state@, event@, obj_id)
            },
{
    let draws = match (&state, &event) {
        (UploadState::Downloading, UploadEvent::Fetched) => true,
        _ => false,
    };
    let obj_id = if draws {
        random_name(OBJECT_ID_LENGTH)
    } else {
        String::new()
    };
    let ghost witness = obj_id@;
    let ghost before = (state@, event@);
    let r = upload_image_with(job, state, event, obj_id);
    assert((r.0@, r.1@) == upload_step(job@, before.0, before.1, witness));
    r
}

/// The number of the question that a state of the upload stands at.
pub open spec fn questions_asked(state: UploadStateView) -> u64 {
    match state {
        UploadStateView::Polling { asked, .. } => asked,
        UploadStateView::Waiting { asked, .. } => asked,
        _ => 0,
    }
}

/// An upload that has asked no more than [`POLL_ATTEMPTS`] questions has
/// asked no more than that after its next step either.
pub proof fn lemma_questions_bounded(
    job: UploadJobView,
    state: UploadStateView,
    event: UploadEventView,
    obj_id: Seq<char>,
)
    requires
        questions_asked(state) <= POLL_ATTEMPTS,
    ensures
        questions_asked(upload_step(job, state, event, obj_id).0) <= POLL_ATTEMPTS,
{
}

} // verus!

//! What is shown to the user where something has failed.

use crate::caption::{CaptionError, CaptionErrorView};
use crate::message::{note, say, Data};
use crate::round::{ConverseError, ConverseErrorView};
use crate::session::{StoreError, StoreErrorView};
use crate::stream::{StreamError, StreamErrorView};
use crate::text::join;
use crate::upload::{UploadError, UploadErrorView};
use vstd::prelude::*;

verus! {

/// What is said of a failure of the store.
pub open spec fn store_report(error: StoreErrorView) -> Seq<char> {
    match error {
        StoreErrorView::Missing => "Session missing"@,
        StoreErrorView::Connectivity(cause) => cause,
    }
}

/// What is said of a failure of a stream.
pub open spec fn stream_report(error: StreamErrorView) -> Seq<char> {
    match error {
        StreamErrorView::Transport(cause) => cause,
        StreamErrorView::Timeout => "Timeout during event streaming"@,
        StreamErrorView::Parse(cause) => cause,
    }
}

/// What is said of a failure of a conversation.
pub open spec fn converse_report(error: ConverseErrorView) -> Seq<char> {
    match error {
        ConverseErrorView::LockTimeout => "Timeout waiting for conversation lock"@,
        ConverseErrorView::Store(error) => store_report(error),
        ConverseErrorView::Stream(error) => stream_report(error),
    }
}

/// What is said of a failure of an upload.
pub open spec fn upload_report(error: UploadErrorView) -> Seq<char> {
    match error {
        UploadErrorView::Remote(cause) => cause,
        UploadErrorView::Timeout => "Upload failed"@,
    }
}

/// What is said of a failure to describe an image.
pub open spec fn caption_report(error: CaptionErrorView) -> Seq<char> {
    match error {
        CaptionErrorView::Upload(error) => upload_report(error),
        CaptionErrorView::Stream(error) => stream_report(error),
    }
}

impl StoreError {
    /// What is said of this failure.
    pub fn message(&self) -> (r: String)
        ensures
            r@ == store_report(self@),
    {
        match self {
            StoreError::Missing => "Session missing".to_owned(),
            StoreError::Connectivity(cause) => cause.clone(),
        }
    }
}

impl StreamError {
    /// What is said of this failure.
    pub fn message(&self) -> (r: String)
        ensures
            r@ == stream_report(self@),
    {
        match self {
            StreamError::Transport(cause) => cause.clone(),
            StreamError::Timeout => "Timeout during event streaming".to_owned(),
            StreamError::Parse(cause) => cause.clone(),
        }
    }
}

impl ConverseError {
    /// What is said of this failure.
    pub fn message(&self) -> (r: String)
        ensures
            r@ == converse_report(self@),
    {
        match self {
            ConverseError::LockTimeout => "Timeout waiting for conversation lock".to_owned(),
            ConverseError::Store(error) => error.message(),
            ConverseError::Stream(error) => error.message(),
        }
    }
}

impl UploadError {
    /// What is said of this failure.
    pub fn message(&self) -> (r: String)
        ensures
            r@ == upload_report(self@),
    {
        match self {
            UploadError::Remote(cause) => cause.clone(),
            UploadError::Timeout => "Upload failed".to_owned(),
        }
    }
}

impl CaptionError {
    /// What is said of this failure.
    pub fn message(&self) -> (r: String)
        ensures
            r@ == caption_report(self@),
    {
        match self {
            CaptionError::Upload(error) => error.message(),
            CaptionError::Stream(error) => error.message(),
        }
    }
}

/// The message that tells the user of a failure: `Error: ` and what is said
/// of it.
pub fn error_reply(report: &str) -> (r: Vec<Data>)
    ensures
        r.deep_view() == note("Error: "@ + report@),
{
    say(join("Error: ", report))
}

} // verus!

//! What the chat transport hands over and what goes back to it: the parts of
//! a message as plain values.

use crate::dto::{ImgData, ImgDataView};
use crate::text::{decimal, decimal_text, join};
use vstd::prelude::*;

verus! {

/// One part of a message that goes out.
#[derive(Clone, Debug, PartialEq, Eq)]
pub enum Data {
    /// Plain text.
    Text(String),
    /// A mention of a user.
    At(u64),
    /// A quotation of an earlier message.
    Reply(u64),
}

/// The mathematical value of [`Data`].
pub enum DataView {
    Text(Seq<char>),
    At(u64),
    Reply(u64),
}

impl View for Data {
    type V = DataView;

    open spec fn view(&self) -> DataView {
        match self {
            Data::Text(text) => DataView::Text(text@),
            Data::At(qq) => DataView::At(*qq),
            Data::Reply(id) => DataView::Reply(*id),
        }
    }
}

impl DeepView for Data {
    type V = DataView;

    open spec fn deep_view(&self) -> DataView {
        self@
    }
}

/// The name under which the transport knows a kind of part.
pub open spec fn kind_of(part: DataView) -> Seq<char> {
    match part {
        DataView::Text(_) => "text"@,
        DataView::At(_) => "at"@,
        DataView::Reply(_) => "reply"@,
    }
}

impl Data {
    /// A part of plain text.
    pub fn string(text: String) -> (r: Data)
        ensures
            r@ == DataView::Text(text@),
    {
        Data::Text(text)
    }

    /// A mention of the user `qq`.
    pub fn at(qq: u64) -> (r: Data)
        ensures
            r@ == DataView::At(qq),
    {
        Data::At(qq)
    }

    /// A quotation of the message `msg`.
    pub fn reply(msg: u64) -> (r: Data)
        ensures
            r@ == DataView::Reply(msg),
    {
        Data::Reply(msg)
    }

    /// The name under which the transport knows this kind of part.
    pub fn kind(&self) -> (r: &'static str)
        ensures
            r@ == kind_of(self@),
    {
        match self {
            Data::Text(_) => "text",
            Data::At(_) => "at",
            Data::Reply(_) => "reply",
        }
    }
}

/// A message that goes out: what the transport is to do, for whom, and the
/// parts of the message.
#[derive(Clone, Debug, PartialEq, Eq)]
pub struct RetMessage {
    /// `send_group_msg` or `send_private_msg`.
    pub action: String,
    /// The room or the user, as a decimal numeral.
    pub target: String,
    pub message: Vec<Data>,
}

/// The mathematical value of [`RetMessage`].
pub struct RetMessageView {
    pub action: Seq<char>,
    pub target: Seq<char>,
    pub message: Seq<DataView>,
}

impl View for RetMessage {
    type V = RetMessageView;

    open spec fn view(&self) -> RetMessageView {
        RetMessageView {
            action: self.action@,
            target: self.target@,
            message: self.message.deep_view(),
        }
    }
}

/// One part of a message that came in.
#[derive(Clone, Debug, PartialEq, Eq)]
pub enum Segment {
    /// A mention; `qq` is the mentioned user as the transport writes it.
    At { qq: String },
    /// Plain text.
    Text { text: String },
    /// An image: its full description where the transport gave one, and what
    /// it says the image shows.
    Image { data: Option<ImgData>, summary: Option<String> },
    /// Anything else.
    Other,
}

/// The mathematical value of [`Segment`].
pub enum SegmentView {
    At { qq: Seq<char> },
    Text { text: Seq<char> },
    Image { data: Option<ImgDataView>, summary: Option<Seq<char>> },
    Other,
}

impl View for Segment {
    type V = SegmentView;

    open spec fn view(&self) -> SegmentView {
        match self {
            Segment::At { qq } => SegmentView::At { qq: qq@ },
            Segment::Text { text } => SegmentView::Text { text: text@ },
            Segment::Image { data, summary } => SegmentView::Image {
                data: match data {
                    Some(image) => Some(image@),
                    None => None,
                },
                summary: crate::dto::text_view(*summary),
            },
            Segment::Other => SegmentView::Other,
        }
    }
}

impl DeepView for Segment {
    type V = SegmentView;

    open spec fn deep_view(&self) -> SegmentView {
        self@
    }
}

/// The answer to a ping.
pub open spec fn pong(name: Seq<char>) -> Seq<DataView> {
    seq![DataView::Text("pong to "@ + name)]
}

/// Answers a ping of `name`.
pub fn ping(name: &str) -> (r: Vec<Data>)
    ensures
        r.deep_view() == pong(name@),
{
    let mut parts: Vec<Data> = Vec::new();
    parts.push(Data::string(join("pong to ", name)));
    assert(parts.deep_view() =~= pong(name@));
    parts
}

/// A message of one part of plain text.
pub open spec fn note(text: Seq<char>) -> Seq<DataView> {
    seq![DataView::Text(text)]
}

/// A message of one part of plain text.
pub fn say(text: String) -> (r: Vec<Data>)
    ensures
        r.deep_view() == note(text@),
{
    let ghost shown = text@;
    let mut parts: Vec<Data> = Vec::new();
    parts.push(Data::string(text));
    assert(parts.deep_view() =~= note(shown));
    parts
}

/// The message that goes out with `action` to `target`.
pub open spec fn outgoing(action: Seq<char>, target: u64, message: Seq<DataView>) -> RetMessageView {
    RetMessageView { action, target: decimal(target as nat), message }
}

/// Wraps the parts of a message for `target`.
pub fn wrap(action: &str, target: u64, message: Vec<Data>) -> (r: RetMessage)
    ensures
        r@ == outgoing(action@, target, message.deep_view()),
{
    RetMessage { action: action.to_owned(), target: decimal_text(target), message }
}

} // verus!

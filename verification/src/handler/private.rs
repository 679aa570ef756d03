//! Messages outside of rooms: only commands are answered.

use crate::message::{outgoing, wrap, Data, RetMessage, Segment, SegmentView};
use crate::text::{has_prefix, starts_with};
use vstd::prelude::*;

verus! {

/// The text of a message: what its parts of plain text say, in order.
pub open spec fn text_of_segments(segments: Seq<SegmentView>) -> Seq<char>
    decreases segments.len(),
{
    if segments.len() == 0 {
        Seq::empty()
    } else {
        let before = text_of_segments(segments.drop_last());
        match segments.last() {
            SegmentView::Text { text } => before + text,
            _ => before,
        }
    }
}

/// The text of a message.
pub fn message_text(segments: &Vec<Segment>) -> (r: String)
    ensures
        r@ == text_of_segments(segments.deep_view()),
{
    let ghost all = segments.deep_view();
    let mut out = String::new();
    let mut i: usize = 0;
    assert(all.take(0) == Seq::<SegmentView>::empty());
    while i < segments.len()
        invariant
            i <= segments.len(),
            all == segments.deep_view(),
            out@ == text_of_segments(all.take(i as int)),
        decreases segments.len() - i,
    {
        assert(all.take(i + 1).drop_last() == all.take(i as int));
        assert(all.take(i + 1).last() == segments[i as int]@);
        match &segments[i] {
            Segment::Text { text } => {
                out.append(text.as_str());
            },
            _ => {},
        }
        i += 1;
    }
    assert(all.take(segments.len() as int) == all);
    out
}

/// The command that a message outside of rooms is, if it is one: its text,
/// where that begins with `~`.
pub open spec fn private_command(segments: Seq<SegmentView>) -> Option<Seq<char>> {
    let text = text_of_segments(segments);
    if starts_with(text, "~"@) {
        Some(text)
    } else {
        None
    }
}

/// Takes a message outside of rooms: the text of a command, or nothing.
pub fn handle(segments: &Vec<Segment>) -> (r: Option<String>)
    ensures
        crate::dto::text_view(r) == private_command(segments.deep_view()),
{
    let text = message_text(segments);
    if has_prefix(text.as_str(), "~") {
        Some(text)
    } else {
        None
    }
}

/// The answer to a user outside of rooms.
pub fn resp(message: Vec<Data>, user: u64) -> (r: RetMessage)
    ensures
        r@ == outgoing("send_private_msg"@, user, message.deep_view()),
{
    wrap("send_private_msg", user, message)
}

} // verus!

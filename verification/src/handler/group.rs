//! Messages in a room. The bot answers where it is mentioned, and, where
//! that is switched on, in a room that is engaged.

use crate::dto::{ImgData, ImgDataView};
use crate::handler::private::{message_text, text_of_segments};
use crate::message::{outgoing, wrap, Data, DataView, RetMessage, Segment, SegmentView};
use crate::session::{engage_commands, set_join, StoreCommand, StoreCommandView};
use crate::text::{decimal, decimal_text, has_prefix, number_of, parse_number, same_text, starts_with};
use vstd::prelude::*;

verus! {

/// An image is looked at only if it is larger than this many bytes.
pub const IMAGE_MIN_SIZE: u64 = 1024;

/// Whether a message mentions the bot: one of its parts is a mention of the
/// bot's own number.
pub open spec fn mentions(segments: Seq<SegmentView>, self_id: u64) -> bool {
    exists|i: int|
        0 <= i < segments.len() && #[trigger] segments[i] == (SegmentView::At {
            qq: decimal(self_id as nat),
        })
}

/// Tests whether a message mentions the bot.
pub fn mentioned(segments: &Vec<Segment>, self_id: u64) -> (r: bool)
    ensures
        r == mentions(segments.deep_view(), self_id),
{
    let own = decimal_text(self_id);
    let ghost all = segments.deep_view();
    let mut i: usize = 0;
    while i < segments.len()
        invariant
            i <= segments.len(),
            all == segments.deep_view(),
            own@ == decimal(self_id as nat),
            forall|k: int| 0 <= k < i ==> all[k] != (SegmentView::At { qq: own@ }),
        decreases segments.len() - i,
    {
        match &segments[i] {
            Segment::At { qq } => {
                if same_text(qq.as_str(), own.as_str()) {
                    assert(all[i as int] == (SegmentView::At { qq: own@ }));
                    return true;
                }
            },
            _ => {},
        }
        assert(all[i as int] == segments[i as int]@);
        i += 1;
    }
    false
}

/// The image that the bot takes from a part of a message, if it takes one.
/// An image with a full description is taken where it is larger than
/// [`IMAGE_MIN_SIZE`]. An image without one is taken as a sticker, by what
/// the transport says it shows.
pub open spec fn image_of(segment: SegmentView) -> Option<ImgDataView> {
    match segment {
        SegmentView::Image { data: Some(image), .. } => match number_of(image.file_size) {
            Some(size) => if size > IMAGE_MIN_SIZE {
                Some(image)
            } else {
                None
            },
            None => None,
        },
        SegmentView::Image { data: None, summary: Some(summary) } => Some(
            ImgDataView {
                summary,
                file: Seq::empty(),
                url: Seq::empty(),
                file_size: Seq::empty(),
            },
        ),
        _ => None,
    }
}

/// The images of a message, in order.
pub open spec fn images_of(segments: Seq<SegmentView>) -> Seq<ImgDataView>
    decreases segments.len(),
{
    if segments.len() == 0 {
        Seq::empty()
    } else {
        let before = images_of(segments.drop_last());
        match image_of(segments.last()) {
            Some(image) => before.push(image),
            None => before,
        }
    }
}

fn take_image(segment: &Segment) -> (r: Option<ImgData>)
    ensures
        (match r {
            Some(image) => Some(image@),
            None => None,
        }) == image_of(segment@),
{
    match segment {
        Segment::Image { data: Some(image), .. } => match parse_number(image.file_size.as_str()) {
            Some(size) => {
                if size > IMAGE_MIN_SIZE {
                    Some(
                        ImgData {
                            summary: image.summary.clone(),
                            file: image.file.clone(),
                            url: image.url.clone(),
                            file_size: image.file_size.clone(),
                        },
                    )
                } else {
                    None
                }
            },
            None => None,
        },
        Segment::Image { data: None, summary: Some(summary) } => Some(
            ImgData {
                summary: summary.clone(),
                file: String::new(),
                url: String::new(),
                file_size: String::new(),
            },
        ),
        _ => None,
    }
}

/// The images of a message.
pub fn message_images(segments: &Vec<Segment>) -> (r: Vec<ImgData>)
    ensures
        r.deep_view() == images_of(segments.deep_view()),
{
    let ghost all = segments.deep_view();
    let mut images: Vec<ImgData> = Vec::new();
    let mut i: usize = 0;
    assert(all.take(0) == Seq::<SegmentView>::empty());
    assert(images.deep_view() =~= Seq::<ImgDataView>::empty());
    while i < segments.len()
        invariant
            i <= segments.len(),
            all == segments.deep_view(),
            images.deep_view() == images_of(all.take(i as int)),
        decreases segments.len() - i,
    {
        assert(all.take(i + 1).drop_last() == all.take(i as int));
        assert(all.take(i + 1).last() == segments[i as int]@);
        let ghost before = images.deep_view();
        match take_image(&segments[i]) {
            Some(image) => {
                images.push(image);
                assert(images.deep_view() =~= before.push(image@));
            },
            None => {},
        }
        i += 1;
    }
    assert(all.take(segments.len() as int) == all);
    images
}

/// What a message in a room calls for.
#[derive(Clone, Copy, Debug, PartialEq, Eq, Structural)]
pub enum GroupPlan {
    /// It is a command.
    Command,
    /// The bot was addressed: engage the room, then answer and quote the
    /// message.
    Engage,
    /// The bot was not addressed: if the room is engaged, keep it engaged
    /// and answer.
    AnswerIfEngaged,
    /// Nothing.
    Ignore,
}

/// What a message in a room calls for. A message that mentions the bot is a
/// command where its text begins with a blank and `~`, and is answered
/// otherwise. A message that does not mention it is answered only where
/// answers to unaddressed messages are switched on, and then only in a room
/// that is engaged.
pub open spec fn group_plan(
    segments: Seq<SegmentView>,
    self_id: u64,
    auto_join: bool,
) -> GroupPlan {
    if mentions(segments, self_id) {
        if starts_with(text_of_segments(segments), " ~"@) {
            GroupPlan::Command
        } else {
            GroupPlan::Engage
        }
    } else if auto_join {
        GroupPlan::AnswerIfEngaged
    } else {
        GroupPlan::Ignore
    }
}

/// Decides what a message in a room calls for.
pub fn handle(segments: &Vec<Segment>, self_id: u64, auto_join: bool) -> (r: GroupPlan)
    ensures
        r == group_plan(segments.deep_view(), self_id, auto_join),
{
    if mentioned(segments, self_id) {
        let text = message_text(segments);
        if has_prefix(text.as_str(), " ~") {
            GroupPlan::Command
        } else {
            GroupPlan::Engage
        }
    } else if auto_join {
        GroupPlan::AnswerIfEngaged
    } else {
        GroupPlan::Ignore
    }
}

/// The question that the assistant is asked about a message in a room: who
/// sent it, its text where it has one, and each of its images with what the
/// transport and the backend say it shows.
pub open spec fn prompt_of(
    nickname: Seq<char>,
    text: Seq<char>,
    images: Seq<(Seq<char>, Seq<char>)>,
) -> Seq<char> {
    nickname + "发送了以下内容：\n"@ + (if text.len() > 0 {
        "文字："@ + text + "\n"@
    } else {
        Seq::empty()
    }) + image_lines(images)
}

/// One line for each image: `图片：`, what the transport says it shows, a
/// blank, and what the backend says it shows.
pub open spec fn image_lines(images: Seq<(Seq<char>, Seq<char>)>) -> Seq<char>
    decreases images.len(),
{
    if images.len() == 0 {
        Seq::empty()
    } else {
        image_lines(images.drop_last()) + "图片："@ + images.last().0 + " "@ + images.last().1
            + "\n"@
    }
}

/// Builds the question about a message in a room. Each image comes as the
/// pair of what the transport and what the backend say it shows.
pub fn default_handler(nickname: &str, text: &str, images: &Vec<(String, String)>) -> (r: String)
    ensures
        r@ == prompt_of(nickname@, text@, images.deep_view()),
{
    let mut prompt = nickname.to_owned();
    prompt.append("发送了以下内容：\n");
    if text.unicode_len() > 0 {
        let ghost head = prompt@;
        prompt.append("文字：");
        prompt.append(text);
        prompt.append("\n");
        assert(prompt@ == head + ("文字："@ + text@ + "\n"@));
    } else {
        assert(prompt@ + Seq::<char>::empty() == prompt@);
    }
    let ghost head = prompt@;
    let ghost all = images.deep_view();
    let mut i: usize = 0;
    assert(all.take(0) == Seq::<(Seq<char>, Seq<char>)>::empty());
    assert(head + Seq::<char>::empty() == head);
    while i < images.len()
        invariant
            i <= images.len(),
            all == images.deep_view(),
            prompt@ == head + image_lines(all.take(i as int)),
        decreases images.len() - i,
    {
        let ghost upto = all.take(i + 1);
        assert(upto.drop_last() == all.take(i as int));
        assert(upto.last() == (images[i as int].0@, images[i as int].1@));
        let ghost before = prompt@;
        prompt.append("图片：");
        prompt.append(images[i].0.as_str());
        prompt.append(" ");
        prompt.append(images[i].1.as_str());
        prompt.append("\n");
        assert(prompt@ == head + (image_lines(all.take(i as int)) + "图片："@ + upto.last().0 + " "@
            + upto.last().1 + "\n"@));
        i += 1;
    }
    assert(all.take(images.len() as int) == all);
    prompt
}

/// The parts of an answer in a room: where a message is quoted, a mention
/// of its sender and the quotation come first.
pub open spec fn quoted(answer: Seq<DataView>, quote: Option<(u64, u64)>) -> Seq<DataView> {
    match quote {
        Some((message, sender)) => seq![DataView::At(sender), DataView::Reply(message)] + answer,
        None => answer,
    }
}

/// Puts a mention and a quotation before an answer, where one is to be
/// quoted: `quote` is the message and its sender.
pub fn with_quote(answer: Vec<Data>, quote: Option<(u64, u64)>) -> (r: Vec<Data>)
    ensures
        r.deep_view() == quoted(answer.deep_view(), quote),
{
    match quote {
        Some((message, sender)) => {
            let ghost tail = answer.deep_view();
            let mut parts: Vec<Data> = Vec::new();
            parts.push(Data::at(sender));
            parts.push(Data::reply(message));
            let ghost head = parts.deep_view();
            let mut rest = answer;
            parts.append(&mut rest);
            assert(parts.deep_view() =~= head + tail);
            assert(head =~= seq![DataView::At(sender), DataView::Reply(message)]);
            parts
        },
        None => answer,
    }
}

/// The answer to a room.
pub fn resp(message: Vec<Data>, room: u64) -> (r: RetMessage)
    ensures
        r@ == outgoing("send_group_msg"@, room, message.deep_view()),
{
    wrap("send_group_msg", room, message)
}

/// What is written for a message that does not address the bot, once it is
/// known whether its room is engaged: an engaged room is kept engaged for
/// `seconds` more, and the message is answered; any other room is left
/// alone.
pub open spec fn kept_engaged(room: u64, engaged: bool, seconds: i64) -> Option<
    Seq<StoreCommandView>,
> {
    if engaged {
        Some(engage_commands(room, true, seconds))
    } else {
        None
    }
}

/// The writes that keep an engaged room engaged; nothing for a room that is
/// not, whose message gets no answer.
pub fn keep_engaged(room: u64, engaged: bool, seconds: i64) -> (r: Option<Vec<StoreCommand>>)
    ensures
        match r {
            Some(writes) => kept_engaged(room, engaged, seconds) == Some(writes.deep_view()),
            None => kept_engaged(room, engaged, seconds) is None,
        },
{
    if engaged {
        Some(set_join(room, true, seconds))
    } else {
        None
    }
}

} // verus!

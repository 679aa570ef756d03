//! A reply of the backend may be a call for a tool instead of an answer: it
//! then begins with a marker of the form `!#[name(arguments)]`. This module
//! reads the marker and names the helper bot that serves the tool.

use crate::text::{chars_of, same_text, slice_text, starts_with};
use vstd::prelude::*;

verus! {

/// A call for a tool, as read from a reply.
#[derive(Clone, Debug, PartialEq, Eq)]
pub struct ToolInvocation {
    /// The name between `!#[` and `(`.
    pub tool_name: String,
    /// The whole marker, from `!#[` to `)]`.
    pub raw_text: String,
}

/// The mathematical value of [`ToolInvocation`].
pub struct ToolInvocationView {
    pub tool_name: Seq<char>,
    pub raw_text: Seq<char>,
}

impl View for ToolInvocation {
    type V = ToolInvocationView;

    open spec fn view(&self) -> ToolInvocationView {
        ToolInvocationView { tool_name: self.tool_name@, raw_text: self.raw_text@ }
    }
}

/// The helper bots that serve tools.
#[derive(Clone, Copy, Debug, PartialEq, Eq, Structural)]
pub enum SubBot {
    /// Serves the tools that read a document or a page.
    Reader,
    /// Serves the tools that look something up or work something out.
    Lookup,
}

/// A character that may stand in a tool's name: a letter of the English
/// alphabet, a decimal digit or an underscore.
pub open spec fn is_name_char(c: char) -> bool {
    ('0' <= c && c <= '9') || ('a' <= c && c <= 'z') || ('A' <= c && c <= 'Z') || c == '_'
}

/// `text` begins with `!#[`.
pub open spec fn is_marker(text: Seq<char>) -> bool {
    text.len() >= 3 && text[0] == '!' && text[1] == '#' && text[2] == '['
}

/// Where the run of name characters that begins at `at` ends.
pub open spec fn name_end(text: Seq<char>, at: int) -> int
    decreases text.len() - at,
{
    if 0 <= at < text.len() && is_name_char(text[at]) {
        name_end(text, at + 1)
    } else {
        at
    }
}

/// The first position from `at` on at which `)]` stands, if there is one.
pub open spec fn close_from(text: Seq<char>, at: int) -> Option<int>
    decreases text.len() - at,
{
    if at < 0 || at + 2 > text.len() {
        None
    } else if text[at] == ')' && text[at + 1] == ']' {
        Some(at)
    } else {
        close_from(text, at + 1)
    }
}

/// The tool call that `text` begins with: `!#[`, a name of at least one name
/// character, `(`, then anything up to the first `)]`. `None` where `text`
/// does not begin so.
pub open spec fn marker_of(text: Seq<char>) -> Option<ToolInvocationView> {
    let end = name_end(text, 3);
    if !is_marker(text) || end == 3 || end >= text.len() || text[end] != '(' {
        None
    } else {
        match close_from(text, end + 1) {
            Some(close) => Some(
                ToolInvocationView {
                    tool_name: text.subrange(3, end),
                    raw_text: text.take(close + 2),
                },
            ),
            None => None,
        }
    }
}

/// The run of name characters ends inside the text or at its end, and
/// everything before the end is a name character.
pub proof fn lemma_name_end(text: Seq<char>, at: int)
    requires
        0 <= at <= text.len(),
    ensures
        at <= name_end(text, at) <= text.len(),
        forall|i: int| at <= i < name_end(text, at) ==> is_name_char(#[trigger] text[i]),
        name_end(text, at) < text.len() ==> !is_name_char(text[name_end(text, at)]),
    decreases text.len() - at,
{
    if at < text.len() && is_name_char(text[at]) {
        lemma_name_end(text, at + 1);
    }
}

/// Where `)]` is found it stands, and it stands nowhere before.
pub proof fn lemma_close_from(text: Seq<char>, at: int)
    requires
        0 <= at,
    ensures
        match close_from(text, at) {
            Some(close) => {
                &&& at <= close
                &&& close + 2 <= text.len()
                &&& text[close] == ')'
                &&& text[close + 1] == ']'
                &&& forall|i: int|
                    at <= i < close ==> !(#[trigger] text[i] == ')' && text[i + 1] == ']')
            },
            None => forall|i: int|
                at <= i && i + 2 <= text.len() ==> !(#[trigger] text[i] == ')' && text[i + 1]
                    == ']'),
        },
    decreases text.len() - at,
{
    if at + 2 <= text.len() && !(text[at] == ')' && text[at + 1] == ']') {
        lemma_close_from(text, at + 1);
    }
}

/// A marker that was read is laid out as the grammar says: `!#[`, the name,
/// `(`, the arguments, `)]`; the name is made of name characters and is not
/// empty, the arguments hold no `)]`, and the text begins with the marker.
/// The arguments are handed back.
pub proof fn lemma_marker_layout(text: Seq<char>) -> (arguments: Seq<char>)
    requires
        marker_of(text) is Some,
    ensures
        ({
            let call = marker_of(text)->0;
            &&& call.tool_name.len() > 0
            &&& forall|i: int|
                0 <= i < call.tool_name.len() ==> is_name_char(#[trigger] call.tool_name[i])
            &&& call.raw_text == seq!['!', '#', '['] + call.tool_name + seq!['('] + arguments
                + seq![')', ']']
            &&& starts_with(text, call.raw_text)
            &&& forall|i: int|
                0 <= i && i + 2 <= arguments.len() ==> !(#[trigger] arguments[i] == ')'
                    && arguments[i + 1] == ']')
        }),
{
    let end = name_end(text, 3);
    lemma_name_end(text, 3);
    lemma_close_from(text, end + 1);
    let close = close_from(text, end + 1)->0;
    let call = marker_of(text)->0;
    let arguments = text.subrange(end + 1, close);
    assert(call.raw_text =~= seq!['!', '#', '['] + call.tool_name + seq!['('] + arguments + seq![
        ')',
        ']',
    ]);
    assert forall|i: int| 0 <= i && i + 2 <= arguments.len() implies !(#[trigger] arguments[i]
        == ')' && arguments[i + 1] == ']') by {
        assert(arguments[i] == text[end + 1 + i]);
        assert(arguments[i + 1] == text[end + 1 + i + 1]);
    }
    arguments
}

/// Tests whether a character may stand in a tool's name.
pub fn name_char(c: char) -> (r: bool)
    ensures
        r == is_name_char(c),
{
    (c >= '0' && c <= '9') || (c >= 'a' && c <= 'z') || (c >= 'A' && c <= 'Z') || c == '_'
}

/// Tests whether a reply begins with `!#[`.
pub fn begins_marker(text: &str) -> (r: bool)
    ensures
        r == is_marker(text@),
{
    let chars = chars_of(text);
    chars.len() >= 3 && chars[0] == '!' && chars[1] == '#' && chars[2] == '['
}

/// Reads the tool call that a reply begins with.
pub fn read_marker(text: &str) -> (r: Option<ToolInvocation>)
    ensures
        match r {
            Some(call) => marker_of(text@) == Some(call@),
            None => marker_of(text@) is None,
        },
{
    let chars = chars_of(text);
    if !(chars.len() >= 3 && chars[0] == '!' && chars[1] == '#' && chars[2] == '[') {
        return None;
    }
    let mut end: usize = 3;
    while end < chars.len() && name_char(chars[end])
        invariant
            3 <= end <= chars.len(),
            name_end(chars@, 3) == name_end(chars@, end as int),
        decreases chars.len() - end,
    {
        end += 1;
    }
    if end == 3 || end >= chars.len() || chars[end] != '(' {
        return None;
    }
    let mut close: usize = end + 1;
    while chars.len() - close >= 2 && !(chars[close] == ')' && chars[close + 1] == ']')
        invariant
            end < close <= chars.len(),
            close_from(chars@, end + 1) == close_from(chars@, close as int),
        decreases chars.len() - close,
    {
        close += 1;
    }
    if chars.len() - close < 2 {
        return None;
    }
    let tool_name = slice_text(&chars, 3, end);
    let raw_text = slice_text(&chars, 0, close + 2);
    Some(ToolInvocation { tool_name, raw_text })
}

/// The helper bot that serves the tool of the given name, by the fixed table:
/// `read` and `open` go to the reader, `search` and `calc` to the lookup bot.
/// No other name is served.
pub open spec fn route_of(tool_name: Seq<char>) -> Option<SubBot> {
    if tool_name == "read"@ || tool_name == "open"@ {
        Some(SubBot::Reader)
    } else if tool_name == "search"@ || tool_name == "calc"@ {
        Some(SubBot::Lookup)
    } else {
        None
    }
}

/// Looks a tool up in the table.
pub fn route(tool_name: &str) -> (r: Option<SubBot>)
    ensures
        r == route_of(tool_name@),
{
    if same_text(tool_name, "read") || same_text(tool_name, "open") {
        Some(SubBot::Reader)
    } else if same_text(tool_name, "search") || same_text(tool_name, "calc") {
        Some(SubBot::Lookup)
    } else {
        None
    }
}

/// The identity under which the backend knows a helper bot.
pub open spec fn sub_bot_uid(bot: SubBot) -> Seq<char> {
    match bot {
        SubBot::Reader => "jv6tFQ5q"@,
        SubBot::Lookup => "zzWzZzSg"@,
    }
}

impl SubBot {
    /// The identity under which the backend knows this bot.
    pub fn uid(&self) -> (r: &'static str)
        ensures
            r@ == sub_bot_uid(*self),
    {
        match self {
            SubBot::Reader => "jv6tFQ5q",
            SubBot::Lookup => "zzWzZzSg",
        }
    }
}

/// What is answered where a reply calls for a tool that cannot be served.
pub open spec fn invalid_call() -> Seq<char> {
    "无效的工具调用"@
}

/// What is answered where a reply calls for a tool that cannot be served.
pub fn invalid_call_text() -> (r: String)
    ensures
        r@ == invalid_call(),
{
    "无效的工具调用".to_owned()
}

/// What to do with a reply of the backend.
#[derive(Clone, Debug, PartialEq, Eq)]
pub enum Dispatch {
    /// It is the answer.
    Answer,
    /// It calls for a tool, but the call cannot be read or the tool is not in
    /// the table: the answer is [`invalid_call_text`].
    Invalid,
    /// It calls for a tool of the given helper bot.
    Delegate(SubBot, ToolInvocation),
}

/// The mathematical value of [`Dispatch`].
pub enum DispatchView {
    Answer,
    Invalid,
    Delegate(SubBot, ToolInvocationView),
}

impl View for Dispatch {
    type V = DispatchView;

    open spec fn view(&self) -> DispatchView {
        match self {
            Dispatch::Answer => DispatchView::Answer,
            Dispatch::Invalid => DispatchView::Invalid,
            Dispatch::Delegate(bot, call) => DispatchView::Delegate(*bot, call@),
        }
    }
}

/// What to do with a reply: one that does not begin with `!#[` is the answer;
/// one that does is handed to the helper bot of the tool it names, or is
/// invalid where the marker is incomplete or the tool unknown.
pub open spec fn dispatch_of(reply: Seq<char>) -> DispatchView {
    if !is_marker(reply) {
        DispatchView::Answer
    } else {
        match marker_of(reply) {
            Some(call) => match route_of(call.tool_name) {
                Some(bot) => DispatchView::Delegate(bot, call),
                None => DispatchView::Invalid,
            },
            None => DispatchView::Invalid,
        }
    }
}

/// Decides what to do with a reply of the backend.
pub fn dispatch(reply: &str) -> (r: Dispatch)
    ensures
        r@ == dispatch_of(reply@),
{
    if !begins_marker(reply) {
        return Dispatch::Answer;
    }
    match read_marker(reply) {
        Some(call) => match route(call.tool_name.as_str()) {
            Some(bot) => Dispatch::Delegate(bot, call),
            None => Dispatch::Invalid,
        },
        None => Dispatch::Invalid,
    }
}

} // verus!

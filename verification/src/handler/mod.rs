//! What to do with an event of the chat transport.

pub mod group;
pub mod private;

use crate::text::same_text;
use vstd::prelude::*;

verus! {

/// What an event of the transport calls for.
#[derive(Clone, Copy, Debug, PartialEq, Eq, Structural)]
pub enum Receipt {
    /// The transport has confirmed a request: nothing to do.
    Confirmed,
    /// The transport has refused a request.
    Refused,
    /// A message in a room.
    Group,
    /// A message outside of rooms.
    Private,
    /// Nothing that concerns the bot.
    Ignored,
}

/// What an event calls for, by its status, the type of the post and the type
/// of the message. An event with a status is the transport's answer to a
/// request, and `ok` is the only status that confirms. Any other event
/// concerns the bot only where it is a message in a room or outside of one.
pub open spec fn receipt_of(
    status: Option<Seq<char>>,
    post_type: Seq<char>,
    message_type: Seq<char>,
) -> Receipt {
    match status {
        Some(status) => if status == "ok"@ {
            Receipt::Confirmed
        } else {
            Receipt::Refused
        },
        None => if post_type == "message"@ {
            if message_type == "group"@ {
                Receipt::Group
            } else if message_type == "private"@ {
                Receipt::Private
            } else {
                Receipt::Ignored
            }
        } else {
            Receipt::Ignored
        },
    }
}

/// Decides what an event calls for.
pub fn recv(status: Option<&str>, post_type: &str, message_type: &str) -> (r: Receipt)
    ensures
        r == receipt_of(
            match status {
                Some(status) => Some(status@),
                None => None,
            },
            post_type@,
            message_type@,
        ),
{
    match status {
        Some(status) => {
            if same_text(status, "ok") {
                Receipt::Confirmed
            } else {
                Receipt::Refused
            }
        },
        None => {
            if same_text(post_type, "message") {
                if same_text(message_type, "group") {
                    Receipt::Group
                } else if same_text(message_type, "private") {
                    Receipt::Private
                } else {
                    Receipt::Ignored
                }
            } else {
                Receipt::Ignored
            }
        },
    }
}

} // verus!

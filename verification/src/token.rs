//! Tokens that nobody has seen before: the identifiers of conversations,
//! items and tasks, and the name under which an upload is stored.

use crate::text::push_char;
use vstd::prelude::*;

verus! {

/// A lower-case hexadecimal digit.
pub open spec fn is_lower_hex(c: char) -> bool {
    ('0' <= c && c <= '9') || ('a' <= c && c <= 'f')
}

/// The shape of a token: 36 characters, hyphens at the positions 8, 13, 18
/// and 23, lower-case hexadecimal digits everywhere else.
pub open spec fn is_token(s: Seq<char>) -> bool {
    &&& s.len() == 36
    &&& forall|i: int|
        0 <= i < 36 ==> if i == 8 || i == 13 || i == 18 || i == 23 {
            #[trigger] s[i] == '-'
        } else {
            is_lower_hex(s[i])
        }
}

/// A letter of the English alphabet or a decimal digit.
pub open spec fn is_alphanumeric(c: char) -> bool {
    ('0' <= c && c <= '9') || ('a' <= c && c <= 'z') || ('A' <= c && c <= 'Z')
}

/// `uuid::Uuid::new_v4` followed by `to_string`: a random identifier in the
/// hyphenated lower-case form. Which digits come out is left open; only the
/// form is claimed.
#[verifier::external_body]
pub(crate) fn fresh_token() -> (r: String)
    ensures
        is_token(r@),
{
    uuid::Uuid::new_v4().to_string()
}

/// `rand::Rng::sample` of `rand::distr::Alphanumeric` on the generator of the
/// current thread: one byte out of `A-Z`, `a-z` and `0-9`. Which one is left
/// open.
#[verifier::external_body]
pub(crate) fn random_alphanumeric() -> (b: u8)
    ensures
        is_alphanumeric(b as char),
{
    rand::Rng::sample(&mut rand::rng(), rand::distr::Alphanumeric)
}

/// The tokens that one step of a conversation may need, all drawn together.
#[derive(Clone, Debug, PartialEq, Eq)]
pub struct FreshTokens {
    /// For a conversation that starts cold.
    pub conversation: String,
    /// For the item that a cold conversation hangs its first question on.
    pub parent: String,
    /// For the next question.
    pub item: String,
    /// For the reply that the backend is about to generate.
    pub reply: String,
    /// For the task that the request is filed under.
    pub task: String,
}

/// The mathematical value of [`FreshTokens`].
pub struct FreshTokensView {
    pub conversation: Seq<char>,
    pub parent: Seq<char>,
    pub item: Seq<char>,
    pub reply: Seq<char>,
    pub task: Seq<char>,
}

impl FreshTokensView {
    /// Every member has the shape of a token.
    pub open spec fn well_formed(self) -> bool {
        &&& is_token(self.conversation)
        &&& is_token(self.parent)
        &&& is_token(self.item)
        &&& is_token(self.reply)
        &&& is_token(self.task)
    }
}

impl View for FreshTokens {
    type V = FreshTokensView;

    open spec fn view(&self) -> FreshTokensView {
        FreshTokensView {
            conversation: self.conversation@,
            parent: self.parent@,
            item: self.item@,
            reply: self.reply@,
            task: self.task@,
        }
    }
}

impl FreshTokens {
    /// Five empty texts, for a step that needs no token.
    pub fn blank() -> (r: FreshTokens)
        ensures
            r@ == (FreshTokensView {
                conversation: Seq::empty(),
                parent: Seq::empty(),
                item: Seq::empty(),
                reply: Seq::empty(),
                task: Seq::empty(),
            }),
    {
        FreshTokens {
            conversation: String::new(),
            parent: String::new(),
            item: String::new(),
            reply: String::new(),
            task: String::new(),
        }
    }

    /// Draws five new tokens.
    pub fn draw() -> (r: FreshTokens)
        ensures
            r@.well_formed(),
    {
        FreshTokens {
            conversation: fresh_token(),
            parent: fresh_token(),
            item: fresh_token(),
            reply: fresh_token(),
            task: fresh_token(),
        }
    }
}

/// The length of the name under which an upload is stored.
pub const OBJECT_ID_LENGTH: usize = 22;

/// A random name of `len` letters and digits.
pub fn random_name(len: usize) -> (r: String)
    ensures
        r@.len() == len,
        forall|i: int| 0 <= i < len ==> is_alphanumeric(#[trigger] r@[i]),
{
    let mut out = String::new();
    let mut n: usize = 0;
    while n < len
        invariant
            n <= len,
            out@.len() == n,
            forall|i: int| 0 <= i < n ==> is_alphanumeric(#[trigger] out@[i]),
        decreases len - n,
    {
        let b = random_alphanumeric();
        push_char(&mut out, b as char);
        n += 1;
    }
    out
}

} // verus!

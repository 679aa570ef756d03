//! Splitting a text into words at white space, and joining words again.

use crate::text::{chars_of, push_char, text_of};
use vstd::prelude::*;

verus! {

/// White space: the characters with the Unicode property `White_Space`.
pub open spec fn is_space(c: char) -> bool {
    let code = c as u32;
    (0x09 <= code && code <= 0x0D) || code == 0x20 || code == 0x85 || code == 0xA0 || code
        == 0x1680 || (0x2000 <= code && code <= 0x200A) || code == 0x2028 || code == 0x2029
        || code == 0x202F || code == 0x205F || code == 0x3000
}

/// Tests whether a character is white space.
pub fn space(c: char) -> (r: bool)
    ensures
        r == is_space(c),
{
    let code: u32 = c as u32;
    (0x09 <= code && code <= 0x0D) || code == 0x20 || code == 0x85 || code == 0xA0 || code
        == 0x1680 || (0x2000 <= code && code <= 0x200A) || code == 0x2028 || code == 0x2029
        || code == 0x202F || code == 0x205F || code == 0x3000
}

/// Reading a text from the left: the words that are complete, and the word
/// that is being read.
pub open spec fn scan(s: Seq<char>) -> (Seq<Seq<char>>, Seq<char>)
    decreases s.len(),
{
    if s.len() == 0 {
        (Seq::empty(), Seq::empty())
    } else {
        let (done, current) = scan(s.drop_last());
        if is_space(s.last()) {
            if current.len() > 0 {
                (done.push(current), Seq::empty())
            } else {
                (done, current)
            }
        } else {
            (done, current.push(s.last()))
        }
    }
}

/// The words of a text: its longest runs of characters that are no white
/// space, in order.
pub open spec fn words_of(s: Seq<char>) -> Seq<Seq<char>> {
    let (done, current) = scan(s);
    if current.len() > 0 {
        done.push(current)
    } else {
        done
    }
}

/// A run of characters without white space.
pub open spec fn is_spaceless(word: Seq<char>) -> bool {
    forall|j: int| 0 <= j < word.len() ==> !is_space(#[trigger] word[j])
}

/// A word: at least one character, and no white space.
pub open spec fn is_word(word: Seq<char>) -> bool {
    word.len() > 0 && is_spaceless(word)
}

proof fn lemma_scan_reads_words(s: Seq<char>)
    ensures
        forall|i: int| 0 <= i < scan(s).0.len() ==> is_word(#[trigger] scan(s).0[i]),
        is_spaceless(scan(s).1),
    decreases s.len(),
{
    if s.len() > 0 {
        lemma_scan_reads_words(s.drop_last());
        let (done, current) = scan(s.drop_last());
        if is_space(s.last()) {
            if current.len() > 0 {
                assert forall|i: int| 0 <= i < scan(s).0.len() implies is_word(
                    #[trigger] scan(s).0[i],
                ) by {
                    if i < done.len() {
                        assert(scan(s).0[i] == done[i]);
                    } else {
                        assert(scan(s).0[i] == current);
                    }
                }
            }
        } else {
            let longer = current.push(s.last());
            assert forall|j: int| 0 <= j < longer.len() implies !is_space(#[trigger] longer[j]) by {
                if j < current.len() {
                    assert(longer[j] == current[j]);
                }
            }
        }
    }
}

/// No word of a text is empty, and none holds white space.
pub proof fn lemma_words_are_words(s: Seq<char>)
    ensures
        forall|i: int| 0 <= i < words_of(s).len() ==> is_word(#[trigger] words_of(s)[i]),
{
    lemma_scan_reads_words(s);
    let (done, current) = scan(s);
    assert forall|i: int| 0 <= i < words_of(s).len() implies is_word(#[trigger] words_of(s)[i]) by {
        if i < done.len() {
            assert(words_of(s)[i] == done[i]);
        } else {
            assert(words_of(s)[i] == current);
        }
    }
}

/// The words of a text.
pub fn split_words(text: &str) -> (r: Vec<String>)
    ensures
        r.deep_view() == words_of(text@),
{
    let chars = chars_of(text);
    let mut done: Vec<String> = Vec::new();
    let mut current: Vec<char> = Vec::new();
    let mut i: usize = 0;
    assert(chars@.take(0) == Seq::<char>::empty());
    assert(done.deep_view() =~= Seq::<Seq<char>>::empty());
    while i < chars.len()
        invariant
            i <= chars.len(),
            chars@ == text@,
            (done.deep_view(), current@) == scan(chars@.take(i as int)),
        decreases chars.len() - i,
    {
        let c = chars[i];
        let ghost before = done.deep_view();
        let ghost upto = chars@.take(i + 1);
        assert(upto.drop_last() == chars@.take(i as int));
        assert(upto.last() == c);
        if space(c) {
            if current.len() > 0 {
                let word = text_of(&current);
                done.push(word);
                assert(done.deep_view() =~= before.push(current@));
                current = Vec::new();
            }
        } else {
            current.push(c);
        }
        i += 1;
    }
    assert(chars@.take(chars.len() as int) == chars@);
    if current.len() > 0 {
        let ghost before = done.deep_view();
        done.push(text_of(&current));
        assert(done.deep_view() =~= before.push(current@));
    }
    done
}

/// The words from position `from` on, with one blank between each two.
pub open spec fn joined(words: Seq<Seq<char>>, from: int) -> Seq<char>
    decreases words.len() - from,
{
    if from < 0 || from >= words.len() {
        Seq::empty()
    } else if from == words.len() - 1 {
        words[from]
    } else {
        words[from] + seq![' '] + joined(words, from + 1)
    }
}

/// Joins the words from position `from` on with one blank between each two.
pub fn join_words(words: &Vec<String>, from: usize) -> (r: String)
    ensures
        r@ == joined(words.deep_view(), from as int),
{
    let mut out = String::new();
    if from >= words.len() {
        return out;
    }
    let ghost all = words.deep_view();
    let mut i: usize = words.len() - 1;
    out.append(words[i].as_str());
    assert(out@ == all[i as int]);
    while i > from
        invariant
            from <= i < words.len(),
            all == words.deep_view(),
            out@ == joined(all, i as int),
        decreases i,
    {
        i -= 1;
        let mut longer = words[i].clone();
        push_char(&mut longer, ' ');
        longer.append(out.as_str());
        assert(longer@ == all[i as int] + seq![' '] + joined(all, i + 1));
        out = longer;
    }
    out
}

} // verus!

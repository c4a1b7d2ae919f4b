//! Finding in the text of a message the words that may be addresses.

use crate::text::texts_model;
use vstd::prelude::*;

verus! {

/// The characters that separate words.
pub open spec fn is_space(c: char) -> bool {
    c == ' ' || c == '\n' || c == '\t' || c == '\r'
}

/// The words of `text`: its longest runs of characters that are no spaces,
/// from left to right.
pub open spec fn words(text: Seq<char>) -> Seq<Seq<char>>
    decreases text.len(),
{
    if text.len() == 0 {
        Seq::empty()
    } else if is_space(text.last()) {
        words(text.drop_last())
    } else if text.len() > 1 && !is_space(text[text.len() - 2]) {
        let before = words(text.drop_last());
        before.drop_last().push(before.last().push(text.last()))
    } else {
        words(text.drop_last()).push(seq![text.last()])
    }
}

/// `word` begins with `prefix`.
pub open spec fn begins_with(word: Seq<char>, prefix: Seq<char>) -> bool {
    prefix.len() <= word.len() && word.subrange(0, prefix.len() as int) == prefix
}

/// Those of `items` that begin with `prefix`, in their order.
pub open spec fn beginning_with(items: Seq<Seq<char>>, prefix: Seq<char>) -> Seq<Seq<char>>
    decreases items.len(),
{
    if items.len() == 0 {
        Seq::empty()
    } else if begins_with(items.last(), prefix) {
        beginning_with(items.drop_last(), prefix).push(items.last())
    } else {
        beginning_with(items.drop_last(), prefix)
    }
}

/// The words of `text` that may be addresses: those that begin with `prefix`.
pub open spec fn candidates(text: Seq<char>, prefix: Seq<char>) -> Seq<Seq<char>> {
    beginning_with(words(text), prefix)
}

/// The words of `text` up to `end`, of which the last, if `end` stands in or
/// right behind a word, is the run from `start` to `end`.
spec fn scanned(text: Seq<char>, closed: Seq<Seq<char>>, start: int, end: int) -> bool {
    &&& 0 <= start <= end <= text.len()
    &&& start < end ==> {
        &&& !is_space(text[end - 1])
        &&& words(text.take(end)) == closed.push(text.subrange(start, end))
    }
    &&& start == end ==> {
        &&& end > 0 ==> is_space(text[end - 1])
        &&& words(text.take(end)) == closed
    }
}

proof fn lemma_scan_step(text: Seq<char>, closed: Seq<Seq<char>>, start: int, end: int)
    requires
        scanned(text, closed, start, end),
        end < text.len(),
    ensures
        is_space(text[end]) && start < end ==> scanned(
            text,
            closed.push(text.subrange(start, end)),
            end + 1,
            end + 1,
        ),
        is_space(text[end]) && start == end ==> scanned(text, closed, end + 1, end + 1),
        !is_space(text[end]) && start < end ==> scanned(text, closed, start, end + 1),
        !is_space(text[end]) && start == end ==> scanned(text, closed, end, end + 1),
{
    let now = text.take(end + 1);
    assert(now.drop_last() =~= text.take(end));
    assert(now.last() == text[end]);
    if end > 0 {
        assert(now[now.len() - 2] == text[end - 1]);
    }
    if !is_space(text[end]) {
        if start < end {
            let before = words(text.take(end));
            assert(before.drop_last() =~= closed);
            assert(before.last().push(text[end]) =~= text.subrange(start, end + 1));
        } else {
            assert(seq![text[end]] =~= text.subrange(end, end + 1));
        }
    }
}

fn starts_with(word: &str, prefix: &str) -> (yes: bool)
    ensures
        yes == begins_with(word@, prefix@),
{
    let n = prefix.unicode_len();
    if n > word.unicode_len() {
        return false;
    }
    let mut i: usize = 0;
    while i < n
        invariant
            i <= n,
            n == prefix@.len(),
            n <= word@.len(),
            forall|j: int| 0 <= j < i ==> word@[j] == prefix@[j],
        decreases n - i,
    {
        if word.get_char(i) != prefix.get_char(i) {
            assert(word@.subrange(0, n as int)[i as int] != prefix@[i as int]);
            return false;
        }
        i += 1;
    }
    assert(word@.subrange(0, n as int) =~= prefix@);
    true
}

/// Picks out of `text` the words that begin with `prefix`, in the order in
/// which they stand. Words are separated by spaces, tabs and line ends.
pub fn extract_candidates(text: &str, prefix: &str) -> (found: Vec<String>)
    ensures
        texts_model(found@) == candidates(text@, prefix@),
{
    let n = text.unicode_len();
    let mut found: Vec<String> = Vec::new();
    let ghost mut closed: Seq<Seq<char>> = Seq::empty();
    let mut start: usize = 0;
    let mut i: usize = 0;
    assert(text@.take(0) =~= Seq::<char>::empty());
    while i < n
        invariant
            i <= n,
            n == text@.len(),
            scanned(text@, closed, start as int, i as int),
            texts_model(found@) == beginning_with(closed, prefix@),
        decreases n - i,
    {
        let c = text.get_char(i);
        proof {
            lemma_scan_step(text@, closed, start as int, i as int);
        }
        if c == ' ' || c == '\n' || c == '\t' || c == '\r' {
            if start < i {
                let word = text.substring_char(start, i);
                proof {
                    assert(closed.push(word@).drop_last() =~= closed);
                }
                if starts_with(word, prefix) {
                    let ghost before = texts_model(found@);
                    found.push(String::from_str(word));
                    assert(texts_model(found@) =~= before.push(word@));
                }
                proof {
                    closed = closed.push(word@);
                }
            }
            start = i + 1;
        }
        i += 1;
    }
    assert(text@.take(n as int) =~= text@);
    if start < n {
        let word = text.substring_char(start, n);
        proof {
            assert(closed.push(word@).drop_last() =~= closed);
        }
        if starts_with(word, prefix) {
            let ghost before = texts_model(found@);
            found.push(String::from_str(word));
            assert(texts_model(found@) =~= before.push(word@));
        }
    }
    found
}

} // verus!

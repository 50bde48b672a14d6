//! Searching in text.

use vstd::prelude::*;

verus! {

/// Whether `word` stands in `text` from position `at` on.
pub open spec fn occurs_at(text: Seq<char>, word: Seq<char>, at: int) -> bool {
    &&& 0 <= at
    &&& at + word.len() <= text.len()
    &&& text.subrange(at, at + word.len()) == word
}

/// Whether `word` stands anywhere in `text`.
pub open spec fn occurs_in(text: Seq<char>, word: Seq<char>) -> bool {
    exists|at: int| #[trigger] occurs_at(text, word, at)
}

/// Whether `word` stands in `text` from position `at` on.
fn matches_at(text: &str, word: &str, at: usize, word_len: usize) -> (found: bool)
    requires
        word_len == word@.len(),
        at + word_len <= text@.len(),
        text@.len() <= usize::MAX,
    ensures
        found == occurs_at(text@, word@, at as int),
{
    let mut i: usize = 0;
    while i < word_len
        invariant
            i <= word_len,
            word_len == word@.len(),
            at + word_len <= text@.len(),
            text@.len() <= usize::MAX,
            forall|j: int| 0 <= j < i ==> text@[at + j] == word@[j],
        decreases word_len - i,
    {
        if text.get_char(at + i) != word.get_char(i) {
            assert(text@.subrange(at as int, at + word@.len())[i as int] != word@[i as int]);
            return false;
        }
        i = i + 1;
    }
    assert(text@.subrange(at as int, at + word@.len()) =~= word@);
    true
}

/// Whether `word` stands anywhere in `text`.
pub fn contains(text: &str, word: &str) -> (found: bool)
    ensures
        found == occurs_in(text@, word@),
{
    let text_len: usize = text.unicode_len();
    let word_len: usize = word.unicode_len();
    if word_len > text_len {
        return false;
    }
    let last: usize = text_len - word_len;
    let mut at: usize = 0;
    loop
        invariant
            at <= last,
            last == text@.len() - word@.len(),
            word_len == word@.len(),
            text_len == text@.len(),
            forall|k: int| 0 <= k < at ==> !occurs_at(text@, word@, k),
        decreases last - at,
    {
        if matches_at(text, word, at, word_len) {
            return true;
        }
        if at == last {
            return false;
        }
        at = at + 1;
    }
}

/// A word is found in a text exactly where the text is something, then the word,
/// then something.
pub proof fn lemma_contains(text: &str, word: &str, found: bool, front: Seq<char>, back: Seq<char>)
    requires
        call_ensures(contains, (text, word), found),
    ensures
        call_requires(contains, (text, word)),
        text@ == front + word@ + back ==> found,
        found ==> exists|a: Seq<char>, b: Seq<char>| text@ == #[trigger] (a + word@ + b),
{
    if text@ == front + word@ + back {
        assert(text@.subrange(front.len() as int, (front.len() + word@.len()) as int) =~= word@);
        assert(occurs_at(text@, word@, front.len() as int));
    }
    if found {
        let at = choose|at: int| occurs_at(text@, word@, at);
        let a = text@.take(at);
        let b = text@.skip(at + word@.len());
        assert(text@ =~= a + text@.subrange(at, at + word@.len()) + b);
        assert(text@ == a + word@ + b);
    }
}

} // verus!

//! Substring search on byte sequences, as it is done on the bytes of a log line.

use vstd::prelude::*;

verus! {

/// Whether `pattern` stands in `text` at the index `at`.
pub open spec fn occurs_at(text: Seq<u8>, pattern: Seq<u8>, at: int) -> bool {
    &&& 0 <= at
    &&& at + pattern.len() <= text.len()
    &&& text.subrange(at, at + pattern.len()) == pattern
}

/// Whether `pattern` stands in `text` at some index that is `from` or later.
pub open spec fn occurs_from(text: Seq<u8>, pattern: Seq<u8>, from: int) -> bool {
    exists|at: int| from <= at && occurs_at(text, pattern, at)
}

/// Whether `first` stands somewhere in `text` and `second` stands somewhere
/// after the end of that occurrence.
pub open spec fn occurs_in_order(text: Seq<u8>, first: Seq<u8>, second: Seq<u8>) -> bool {
    exists|i: int, j: int|
        occurs_at(text, first, i) && occurs_at(text, second, j) && i + first.len() <= j
}

/// Whether `pattern` stands in `text` at `at`, decided byte by byte.
fn matches_at(text: &[u8], pattern: &[u8], at: usize) -> (found: bool)
    requires
        at + pattern@.len() <= text@.len(),
    ensures
        found == occurs_at(text@, pattern@, at as int),
{
    let length: usize = text.len();
    let mut k: usize = 0;
    while k < pattern.len()
        invariant
            k <= pattern@.len(),
            at + pattern@.len() <= text@.len() == length,
            forall|j: int| 0 <= j < k ==> text@[at + j] == pattern@[j],
        decreases pattern.len() - k,
    {
        if text[at + k] != pattern[k] {
            assert(text@.subrange(at as int, at + pattern@.len())[k as int] != pattern@[k as int]);
            return false;
        }
        k += 1;
    }
    assert(text@.subrange(at as int, at + pattern@.len()) =~= pattern@);
    true
}

/// The first index at or after `from` where `pattern` stands in `text`.
pub fn find_from(text: &[u8], pattern: &[u8], from: usize) -> (found: Option<usize>)
    ensures
        match found {
            Some(at) => {
                &&& from <= at
                &&& occurs_at(text@, pattern@, at as int)
                &&& forall|earlier: int|
                    from <= earlier < at ==> !occurs_at(text@, pattern@, earlier)
            },
            None => !occurs_from(text@, pattern@, from as int),
        },
{
    if pattern.len() > text.len() || from > text.len() - pattern.len() {
        return None;
    }
    let last: usize = text.len() - pattern.len();
    let mut at: usize = from;
    loop
        invariant
            from <= at <= last,
            last == text@.len() - pattern@.len(),
            forall|earlier: int| from <= earlier < at ==> !occurs_at(text@, pattern@, earlier),
        decreases last - at,
    {
        if matches_at(text, pattern, at) {
            return Some(at);
        }
        if at == last {
            return None;
        }
        at += 1;
    }
}

/// Where `first` stands before `second`, the first occurrence of `first`
/// is followed by `second` too.
pub proof fn lemma_first_occurrence_suffices(
    text: Seq<u8>,
    first: Seq<u8>,
    second: Seq<u8>,
    at: int,
)
    requires
        occurs_at(text, first, at),
        forall|earlier: int| 0 <= earlier < at ==> !occurs_at(text, first, earlier),
    ensures
        occurs_in_order(text, first, second) == occurs_from(text, second, at + first.len()),
{
    if occurs_in_order(text, first, second) {
        let (i, j) = choose|i: int, j: int|
            occurs_at(text, first, i) && occurs_at(text, second, j) && i + first.len() <= j;
        assert(at <= i);
        assert(at + first.len() <= j && occurs_at(text, second, j));
    }
    if occurs_from(text, second, at + first.len()) {
        let j = choose|j: int| at + first.len() <= j && occurs_at(text, second, j);
        assert(occurs_at(text, first, at) && occurs_at(text, second, j) && at + first.len() <= j);
    }
}

/// Where `first` stands nowhere in `text`, nothing stands behind it.
pub proof fn lemma_no_first_no_order(text: Seq<u8>, first: Seq<u8>, second: Seq<u8>)
    requires
        !occurs_from(text, first, 0),
    ensures
        !occurs_in_order(text, first, second),
{
    if occurs_in_order(text, first, second) {
        let (i, j) = choose|i: int, j: int|
            occurs_at(text, first, i) && occurs_at(text, second, j) && i + first.len() <= j;
        assert(0 <= i && occurs_at(text, first, i));
    }
}

/// Whether `first` stands in `text` and `second` after it.
pub fn contains_in_order(text: &[u8], first: &[u8], second: &[u8]) -> (found: bool)
    ensures
        found == occurs_in_order(text@, first@, second@),
{
    match find_from(text, first, 0) {
        None => {
            proof {
                lemma_no_first_no_order(text@, first@, second@);
            }
            false
        },
        Some(at) => {
            proof {
                lemma_first_occurrence_suffices(text@, first@, second@, at as int);
            }
            let length: usize = text.len();
            assert(at + first@.len() <= length);
            find_from(text, second, at + first.len()).is_some()
        },
    }
}

} // verus!

//! Occurrence of one character sequence inside another, and how concatenation
//! preserves its absence.

use vstd::prelude::*;

verus! {

/// `needle` occurs in `hay` starting at position `i`.
pub open spec fn occurs_at(hay: Seq<char>, needle: Seq<char>, i: int) -> bool {
    &&& 0 <= i
    &&& i + needle.len() <= hay.len()
    &&& hay.subrange(i, i + needle.len()) == needle
}

/// `needle` occurs somewhere in `hay`.
pub open spec fn contains_seq(hay: Seq<char>, needle: Seq<char>) -> bool {
    exists|i: int| occurs_at(hay, needle, i)
}

/// Where some character of `needle` appears nowhere in `hay`, `needle` does
/// not occur in `hay`.
pub proof fn lemma_absent_char_keeps_free(hay: Seq<char>, needle: Seq<char>, j: int)
    requires
        0 <= j < needle.len(),
        forall|i: int| 0 <= i < hay.len() ==> hay[i] != needle[j],
    ensures
        !contains_seq(hay, needle),
{
    assert forall|i: int| !occurs_at(hay, needle, i) by {
        if occurs_at(hay, needle, i) {
            assert(hay.subrange(i, i + needle.len())[j] == needle[j]);
            assert(hay[i + j] == needle[j]);
        }
    }
}

/// Concatenation keeps `hay` free of `needle` where both halves are free of it
/// and the first character of the right half appears nowhere in `needle`: an
/// occurrence across the boundary would have to carry that character.
pub proof fn lemma_concat_keeps_free_first(x: Seq<char>, y: Seq<char>, needle: Seq<char>)
    requires
        needle.len() > 0,
        !contains_seq(x, needle),
        !contains_seq(y, needle),
        forall|k: int| 0 <= k < needle.len() ==> needle[k] != y[0],
    ensures
        !contains_seq(x + y, needle),
{
    let n = needle.len() as int;
    assert forall|i: int| !occurs_at(x + y, needle, i) by {
        if occurs_at(x + y, needle, i) {
            if i + n <= x.len() {
                assert(x.subrange(i, i + n) =~= (x + y).subrange(i, i + n));
                assert(occurs_at(x, needle, i));
            } else if i >= x.len() {
                assert(y.subrange(i - x.len(), i - x.len() + n) =~= (x + y).subrange(i, i + n));
                assert(occurs_at(y, needle, i - x.len()));
            } else {
                assert((x + y).subrange(i, i + n)[x.len() - i] == needle[x.len() - i]);
                assert((x + y)[x.len() as int] == y[0]);
            }
        }
    }
}

/// As `lemma_concat_keeps_free_first`, with the boundary pinned instead by the
/// last character of the left half.
pub proof fn lemma_concat_keeps_free_last(x: Seq<char>, y: Seq<char>, needle: Seq<char>)
    requires
        needle.len() > 0,
        !contains_seq(x, needle),
        !contains_seq(y, needle),
        forall|k: int| 0 <= k < needle.len() ==> needle[k] != x.last(),
    ensures
        !contains_seq(x + y, needle),
{
    let n = needle.len() as int;
    assert forall|i: int| !occurs_at(x + y, needle, i) by {
        if occurs_at(x + y, needle, i) {
            if i + n <= x.len() {
                assert(x.subrange(i, i + n) =~= (x + y).subrange(i, i + n));
                assert(occurs_at(x, needle, i));
            } else if i >= x.len() {
                assert(y.subrange(i - x.len(), i - x.len() + n) =~= (x + y).subrange(i, i + n));
                assert(occurs_at(y, needle, i - x.len()));
            } else {
                assert((x + y).subrange(i, i + n)[x.len() - 1 - i] == needle[x.len() - 1 - i]);
                assert((x + y)[x.len() - 1] == x.last());
            }
        }
    }
}

} // verus!

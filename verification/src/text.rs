//! Spec-level vocabulary for talking about one text occurring inside
//! another: occurrence at a position, containment, and occurrence counts.
use vstd::prelude::*;

verus! {

/// Holds when `needle` occurs in `hay` starting at index `i`.
pub open spec fn occurs_at(hay: Seq<char>, needle: Seq<char>, i: int) -> bool {
    0 <= i && i + needle.len() <= hay.len() && hay.subrange(i, i + needle.len() as int)
        == needle
}

/// Holds when `needle` occurs somewhere in `hay`.
pub open spec fn contains_text(hay: Seq<char>, needle: Seq<char>) -> bool {
    exists|i: int| occurs_at(hay, needle, i)
}

/// The number of positions at or after `from` where `needle` occurs in
/// `hay`.
pub open spec fn occurrences_from(hay: Seq<char>, needle: Seq<char>, from: int) -> nat
    decreases hay.len() - from + 1,
{
    if from > hay.len() - needle.len() {
        0
    } else {
        (if occurs_at(hay, needle, from) {
            1nat
        } else {
            0nat
        }) + occurrences_from(hay, needle, from + 1)
    }
}

/// The number of positions where `needle` occurs in `hay`.
pub open spec fn occurrences(hay: Seq<char>, needle: Seq<char>) -> nat {
    occurrences_from(hay, needle, 0)
}

/// When `needle` occurs at `p` and nowhere else, the occurrence count from
/// any position at or before `p` is exactly one, and from any later
/// position zero.
pub proof fn lemma_unique_occurrence_count(hay: Seq<char>, needle: Seq<char>, p: int, from: int)
    requires
        occurs_at(hay, needle, p),
        forall|i: int| occurs_at(hay, needle, i) ==> i == p,
        0 <= from,
    ensures
        occurrences_from(hay, needle, from) == (if from <= p {
            1nat
        } else {
            0nat
        }),
    decreases hay.len() - from + 1,
{
    if from > hay.len() - needle.len() {
        assert(p + needle.len() <= hay.len());
    } else {
        lemma_unique_occurrence_count(hay, needle, p, from + 1);
    }
}

} // verus!

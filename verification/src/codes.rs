//! Finding an item code in a sequence of codes.
//!
//! Catalog entries and transaction lines are both found by item code, and
//! where a code occurs more than once the first occurrence counts. The
//! contracts of both say so with the functions of this module.

use vstd::prelude::*;

verus! {

/// Whether `code` occurs somewhere in `codes`.
pub open spec fn has_code(codes: Seq<u64>, code: u64) -> bool {
    exists|i: int| 0 <= i < codes.len() && codes[i] == code
}

/// Whether `i` is the first place in `codes` that holds `code`.
pub open spec fn is_first_at(codes: Seq<u64>, code: u64, i: int) -> bool {
    &&& 0 <= i < codes.len()
    &&& codes[i] == code
    &&& forall|j: int| 0 <= j < i ==> codes[j] != code
}

/// The first place in `codes` that holds `code`, if there is one.
pub open spec fn first_index(codes: Seq<u64>, code: u64) -> Option<int> {
    if exists|i: int| is_first_at(codes, code, i) {
        Some(choose|i: int| is_first_at(codes, code, i))
    } else {
        None
    }
}

/// Whether no code occurs twice in `codes`.
pub open spec fn distinct(codes: Seq<u64>) -> bool {
    forall|i: int, j: int| 0 <= i < j < codes.len() ==> codes[i] != codes[j]
}

/// A place that is the first to hold `code` is what `first_index` gives.
pub proof fn lemma_first_index_is(codes: Seq<u64>, code: u64, i: int)
    requires
        is_first_at(codes, code, i),
    ensures
        first_index(codes, code) == Some(i),
{
    let k = choose|k: int| is_first_at(codes, code, k);
    if k < i {
        assert(codes[k] != code);
    } else if i < k {
        assert(codes[i] != code);
    }
}

/// Where no place holds `code`, `first_index` gives nothing.
pub proof fn lemma_first_index_none(codes: Seq<u64>, code: u64)
    requires
        forall|j: int| 0 <= j < codes.len() ==> codes[j] != code,
    ensures
        first_index(codes, code) is None,
{
}

/// What `first_index` gives is the first place that holds `code`, and it
/// gives nothing only where no place does.
pub proof fn lemma_first_index_meaning(codes: Seq<u64>, code: u64)
    ensures
        match first_index(codes, code) {
            Some(i) => is_first_at(codes, code, i),
            None => !has_code(codes, code),
        },
        first_index(codes, code) is Some <==> has_code(codes, code),
{
    if has_code(codes, code) {
        let k = choose|k: int| 0 <= k < codes.len() && codes[k] == code;
        lemma_some_first(codes, code, k);
    }
}

/// Below any place that holds `code` there is a first one.
proof fn lemma_some_first(codes: Seq<u64>, code: u64, k: int)
    requires
        0 <= k < codes.len(),
        codes[k] == code,
    ensures
        exists|i: int| is_first_at(codes, code, i),
    decreases k,
{
    if exists|j: int| 0 <= j < k && codes[j] == code {
        let j = choose|j: int| 0 <= j < k && codes[j] == code;
        lemma_some_first(codes, code, j);
    } else {
        assert(is_first_at(codes, code, k));
    }
}

/// In a sequence without repeats, any place that holds `code` is the first.
pub proof fn lemma_distinct_first(codes: Seq<u64>, code: u64, i: int)
    requires
        distinct(codes),
        0 <= i < codes.len(),
        codes[i] == code,
    ensures
        first_index(codes, code) == Some(i),
{
    lemma_first_index_is(codes, code, i);
}

/// A sequence without repeats has none after one of its codes has been
/// taken out.
pub proof fn lemma_distinct_remove(codes: Seq<u64>, i: int)
    requires
        distinct(codes),
        0 <= i < codes.len(),
    ensures
        distinct(codes.remove(i)),
        forall|j: int| 0 <= j < codes.remove(i).len() ==> codes.remove(i)[j] != codes[i],
{
}

/// One more code at the end does not change where another code is first
/// found.
pub proof fn lemma_first_index_push_other(codes: Seq<u64>, last: u64, code: u64)
    requires
        last != code,
    ensures
        first_index(codes.push(last), code) == first_index(codes, code),
{
    lemma_first_index_meaning(codes, code);
    match first_index(codes, code) {
        Some(i) => {
            assert(is_first_at(codes.push(last), code, i)) by {
                assert forall|j: int| 0 <= j < i implies codes.push(last)[j] != code by {
                    assert(codes.push(last)[j] == codes[j]);
                }
            }
            lemma_first_index_is(codes.push(last), code, i);
        },
        None => {
            lemma_first_index_none(codes.push(last), code);
        },
    }
}

} // verus!

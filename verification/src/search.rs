//! The first element of a sequence that passes a test.

use vstd::prelude::*;

verus! {

/// The index of the first element that satisfies `pred`, or the length if none does.
pub open spec fn first_where<T>(s: Seq<T>, pred: spec_fn(T) -> bool) -> int
    decreases s.len(),
{
    if s.len() == 0 || pred(s[0]) {
        0
    } else {
        1 + first_where(s.drop_first(), pred)
    }
}

/// `first_where` is the one index below which no element satisfies `pred` and
/// at which, unless it is the length, the element does.
pub proof fn lemma_first_where<T>(s: Seq<T>, pred: spec_fn(T) -> bool, at: int)
    requires
        0 <= at <= s.len(),
        forall|k: int| 0 <= k < at ==> !pred(#[trigger] s[k]),
        at < s.len() ==> pred(s[at]),
    ensures
        first_where(s, pred) == at,
    decreases s.len(),
{
    if at > 0 {
        let rest = s.drop_first();
        assert forall|k: int| 0 <= k < at - 1 implies !pred(#[trigger] rest[k]) by {
            assert(rest[k] == s[k + 1]);
        }
        lemma_first_where(rest, pred, at - 1);
    }
}

/// `first_where` lies within the length, no element before it satisfies
/// `pred`, and the element at it does unless it is the length.
pub proof fn lemma_first_where_bounds<T>(s: Seq<T>, pred: spec_fn(T) -> bool)
    ensures
        0 <= first_where(s, pred) <= s.len(),
        forall|k: int| 0 <= k < first_where(s, pred) ==> !pred(#[trigger] s[k]),
        first_where(s, pred) < s.len() ==> pred(s[first_where(s, pred)]),
    decreases s.len(),
{
    if s.len() > 0 && !pred(s[0]) {
        let rest = s.drop_first();
        lemma_first_where_bounds(rest, pred);
        assert forall|k: int| 0 <= k < first_where(s, pred) implies !pred(#[trigger] s[k]) by {
            if k > 0 {
                assert(s[k] == rest[k - 1]);
            }
        }
    }
}

} // verus!

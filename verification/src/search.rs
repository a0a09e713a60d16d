//! The first element of a sequence that satisfies a predicate.

use vstd::prelude::*;

verus! {

/// Index of the first element at or after `i` that satisfies `p`, or the
/// length of `s` when there is none.
pub open spec fn first_match<A>(s: Seq<A>, p: spec_fn(A) -> bool, i: int) -> int
    decreases s.len() - i,
{
    if i < 0 || i >= s.len() {
        s.len() as int
    } else if p(s[i]) {
        i
    } else {
        first_match(s, p, i + 1)
    }
}

/// What `first_match` finds: no match before it, and a match at it unless it
/// is the length.
pub proof fn lemma_first_match<A>(s: Seq<A>, p: spec_fn(A) -> bool, i: int)
    requires
        0 <= i <= s.len(),
    ensures
        i <= first_match(s, p, i) <= s.len(),
        first_match(s, p, i) < s.len() ==> p(s[first_match(s, p, i)]),
        forall|j: int| i <= j < first_match(s, p, i) ==> !p(#[trigger] s[j]),
    decreases s.len() - i,
{
    if i < s.len() && !p(s[i]) {
        lemma_first_match(s, p, i + 1);
    }
}

/// When nothing before `i` matches, the first match from the start is the
/// first match from `i`.
pub proof fn lemma_first_match_skip<A>(s: Seq<A>, p: spec_fn(A) -> bool, i: int)
    requires
        0 <= i <= s.len(),
        forall|j: int| 0 <= j < i ==> !p(#[trigger] s[j]),
    ensures
        first_match(s, p, 0) == first_match(s, p, i),
    decreases i,
{
    if i > 0 {
        lemma_first_match_skip(s, p, i - 1);
    }
}

/// A sequence whose elements before `k` match nothing and whose element at
/// `k` matches has its first match at `k`.
pub proof fn lemma_first_match_at<A>(s: Seq<A>, p: spec_fn(A) -> bool, k: int)
    requires
        0 <= k < s.len(),
        forall|j: int| 0 <= j < k ==> !p(#[trigger] s[j]),
        p(s[k]),
    ensures
        first_match(s, p, 0) == k,
{
    lemma_first_match_skip(s, p, k);
}

/// A sequence none of whose elements match has its first match at its end.
pub proof fn lemma_first_match_none<A>(s: Seq<A>, p: spec_fn(A) -> bool)
    requires
        forall|j: int| 0 <= j < s.len() ==> !p(#[trigger] s[j]),
    ensures
        first_match(s, p, 0) == s.len(),
{
    lemma_first_match_skip(s, p, s.len() as int);
}

} // verus!

//! Helpers for cutting a list of results to a limit.

use vstd::math::min;
use vstd::prelude::*;

verus! {

/// The first `n` elements of `s`, all of `s` when it has fewer.
pub open spec fn first_n<T>(s: Seq<T>, n: int) -> Seq<T> {
    if s.len() <= n {
        s
    } else {
        s.take(n)
    }
}

/// Cutting to a limit keeps at most that many elements, and keeps each of
/// them at its position.
pub proof fn lemma_first_n<T>(s: Seq<T>, n: int)
    requires
        0 <= n,
    ensures
        first_n(s, n).len() == min(s.len() as int, n),
        forall|i: int| 0 <= i < first_n(s, n).len() ==> first_n(s, n)[i] == s[i],
{
}

} // verus!

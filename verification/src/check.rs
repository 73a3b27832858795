//! Reference semantics of the lowered checks, as pure predicates over
//! already-evaluated integer values. The lowered check source in
//! [`crate::complex_expr`] is host code; these functions state and decide
//! the same pass/fail questions for values the library can hold itself.

use vstd::prelude::*;
use crate::complex_expr::OrderingToken;

verus! {

/// Whether `actual <relation> expected` holds.
pub open spec fn ordering_holds(token: OrderingToken, actual: int, expected: int) -> bool {
    match token {
        OrderingToken::Eq => actual == expected,
        OrderingToken::Lt => actual < expected,
        OrderingToken::Gt => actual > expected,
        OrderingToken::Leq => actual <= expected,
        OrderingToken::Geq => actual >= expected,
    }
}

/// Decide an ordering check.
pub fn ordering_check(token: &OrderingToken, actual: i64, expected: i64) -> (r: bool)
    ensures
        r == ordering_holds(*token, actual as int, expected as int),
{
    match token {
        OrderingToken::Eq => actual == expected,
        OrderingToken::Lt => actual < expected,
        OrderingToken::Gt => actual > expected,
        OrderingToken::Leq => actual <= expected,
        OrderingToken::Geq => actual >= expected,
    }
}

/// Whether the actual value lies strictly within `tolerance` of `expected`:
/// a difference equal to the tolerance already fails.
pub open spec fn almost_equal_holds(actual: int, expected: int, tolerance: int) -> bool {
    vstd::math::abs(actual - expected) < tolerance
}

/// Decide a tolerance check.
pub fn almost_equal_check(actual: i64, expected: i64, tolerance: i64) -> (r: bool)
    ensures
        r == almost_equal_holds(actual as int, expected as int, tolerance as int),
{
    let a = actual as i128;
    let e = expected as i128;
    let difference: i128 = if a >= e {
        a - e
    } else {
        e - a
    };
    difference < tolerance as i128
}

/// Whether some element of `s` equals `element`.
pub open spec fn contains_element(s: Seq<i64>, element: i64) -> bool {
    exists|i: int| 0 <= i < s.len() && s[i] == element
}

/// Decide a membership check.
pub fn contains_check(actual: &Vec<i64>, element: i64) -> (r: bool)
    ensures
        r == contains_element(actual@, element),
{
    let mut i: usize = 0;
    while i < actual.len()
        invariant
            i <= actual@.len(),
            forall|j: int| 0 <= j < i ==> actual@[j] != element,
        decreases actual@.len() - i,
    {
        if actual[i] == element {
            return true;
        }
        i = i + 1;
    }
    false
}

/// Whether some contiguous window of `actual` equals `subsequence`. A
/// subsequence longer than the actual sequence leaves no candidate window,
/// so the predicate is false; the empty subsequence matches the empty window
/// at the start.
pub open spec fn contains_in_order_holds(actual: Seq<i64>, subsequence: Seq<i64>) -> bool {
    exists|i: int|
        0 <= i && i + subsequence.len() <= actual.len() && #[trigger] actual.subrange(
            i,
            i + subsequence.len() as int,
        ) == subsequence
}

/// Whether the window of `actual` starting at `start` equals `subsequence`.
fn window_matches(actual: &Vec<i64>, start: usize, subsequence: &Vec<i64>) -> (r: bool)
    requires
        start + subsequence@.len() <= actual@.len(),
    ensures
        r == (actual@.subrange(start as int, start as int + subsequence@.len() as int)
            == subsequence@),
{
    let ghost window = actual@.subrange(start as int, start as int + subsequence@.len() as int);
    let n = actual.len();
    let m = subsequence.len();
    let mut j: usize = 0;
    while j < m
        invariant
            n == actual@.len(),
            m == subsequence@.len(),
            start + m <= n,
            j <= m,
            window == actual@.subrange(start as int, start as int + m as int),
            forall|t: int| 0 <= t < j ==> actual@[start + t] == subsequence@[t],
        decreases m - j,
    {
        let a = actual[start + j];
        let s = subsequence[j];
        if a != s {
            proof {
                assert(window[j as int] == actual@[start + j]);
            }
            return false;
        }
        j = j + 1;
    }
    proof {
        assert(window =~= subsequence@);
    }
    true
}

/// Decide a window check, scanning candidate windows left to right. The scan
/// runs only when the subsequence is no longer than the actual sequence, so
/// the count of candidate windows cannot underflow.
pub fn contains_in_order_check(actual: &Vec<i64>, subsequence: &Vec<i64>) -> (r: bool)
    ensures
        r == contains_in_order_holds(actual@, subsequence@),
{
    let n = actual.len();
    let m = subsequence.len();
    if m > n {
        proof {
            if contains_in_order_holds(actual@, subsequence@) {
                let i = choose|i: int|
                    0 <= i && i + subsequence@.len() <= actual@.len() && #[trigger] actual@.subrange(
                        i,
                        i + subsequence@.len() as int,
                    ) == subsequence@;
                assert(false);
            }
        }
        return false;
    }
    if m == 0 {
        proof {
            assert(actual@.subrange(0, 0 + subsequence@.len() as int) =~= subsequence@);
            assert(contains_in_order_holds(actual@, subsequence@));
        }
        return true;
    }
    let last = n - m;
    let mut i: usize = 0;
    while i <= last
        invariant
            n == actual@.len(),
            m == subsequence@.len(),
            0 < m <= n,
            last == n - m,
            i <= last + 1,
            forall|k: int|
                0 <= k < i ==> #[trigger] actual@.subrange(k, k + m as int) != subsequence@,
        decreases last + 1 - i,
    {
        if window_matches(actual, i, subsequence) {
            proof {
                assert(actual@.subrange(i as int, i as int + m as int) == subsequence@);
            }
            return true;
        }
        i = i + 1;
    }
    proof {
        if contains_in_order_holds(actual@, subsequence@) {
            let k = choose|k: int|
                0 <= k && k + subsequence@.len() <= actual@.len() && #[trigger] actual@.subrange(
                    k,
                    k + subsequence@.len() as int,
                ) == subsequence@;
            assert(actual@.subrange(k, k + m as int) != subsequence@);
            assert(false);
        }
    }
    false
}

} // verus!

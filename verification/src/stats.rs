//! Order statistics for timing series: sorting and the median.
//!
//! The measurer reduces each series of trial timings to its median, which is
//! robust against scheduler jitter outliers. To stay in exact integer
//! arithmetic the median is returned doubled: for an odd-length series this
//! is twice the middle element, for an even-length series the sum of the two
//! middle elements (twice their average).

use vstd::prelude::*;
use vstd::multiset::Multiset;
use vstd::seq_lib::lemma_sorted_unique;
use vstd::relations::sorted_by;

verus! {

/// The values of `s` rearranged into non-decreasing order.
pub open spec fn sort_u64(s: Seq<u64>) -> Seq<u64> {
    s.sort_by(|a: u64, b: u64| a <= b)
}

/// A sequence is sorted in non-decreasing order.
pub open spec fn is_sorted(s: Seq<u64>) -> bool {
    forall|i: int, j: int| 0 <= i <= j < s.len() ==> s[i] <= s[j]
}

/// Twice the median of a sorted series: the middle element doubled for odd
/// lengths, the sum of the two middle elements for even lengths.
pub open spec fn spec_median_doubled(sorted: Seq<u64>) -> int
    recommends
        sorted.len() > 0,
{
    if sorted.len() % 2 == 1 {
        2 * sorted[sorted.len() as int / 2]
    } else {
        sorted[sorted.len() as int / 2 - 1] + sorted[sorted.len() as int / 2]
    }
}

/// Index of a least element of a non-empty vector.
fn min_index(v: &Vec<u64>) -> (m: usize)
    requires
        v@.len() > 0,
    ensures
        m < v@.len(),
        forall|j: int| 0 <= j < v@.len() ==> v@[m as int] <= v@[j],
{
    let mut m: usize = 0;
    let mut i: usize = 1;
    while i < v.len()
        invariant
            m < i,
            i <= v@.len(),
            forall|j: int| 0 <= j < i ==> v@[m as int] <= v@[j],
        decreases v@.len() - i,
    {
        if v[i] < v[m] {
            m = i;
        }
        i = i + 1;
    }
    m
}

/// Returns the values of `v` in non-decreasing order.
pub fn sorted_copy(v: &Vec<u64>) -> (s: Vec<u64>)
    ensures
        s@ == sort_u64(v@),
        is_sorted(s@),
        s@.len() == v@.len(),
        s@.to_multiset() == v@.to_multiset(),
{
    broadcast use vstd::seq_lib::group_to_multiset_ensures;

    let mut rest: Vec<u64> = Vec::new();
    let mut i: usize = 0;
    while i < v.len()
        invariant
            i <= v@.len(),
            rest@ == v@.subrange(0, i as int),
        decreases v@.len() - i,
    {
        rest.push(v[i]);
        assert(rest@ =~= v@.subrange(0, i + 1));
        i = i + 1;
    }
    assert(rest@ =~= v@);

    let mut out: Vec<u64> = Vec::new();
    while rest.len() > 0
        invariant
            out@.to_multiset().add(rest@.to_multiset()) =~= v@.to_multiset(),
            is_sorted(out@),
            forall|i: int, j: int|
                0 <= i < out@.len() && 0 <= j < rest@.len() ==> out@[i] <= rest@[j],
        decreases rest@.len(),
    {
        let ghost prev = rest@;
        let ghost prev_out = out@;
        let m = min_index(&rest);
        let x = rest.remove(m);
        out.push(x);
        proof {
            prev.to_multiset_ensures();
            prev_out.to_multiset_ensures();
            assert(rest@ == prev.remove(m as int));
            assert(x == prev[m as int]);
            assert(rest@.to_multiset() =~= prev.to_multiset().remove(x));
            assert(out@.to_multiset() =~= prev_out.to_multiset().insert(x));
            assert(prev.contains(x));
            assert(prev.to_multiset().count(x) >= 1);
            assert(out@.to_multiset().add(rest@.to_multiset()) =~= v@.to_multiset());
            assert forall|i: int, j: int|
                0 <= i < out@.len() && 0 <= j < rest@.len() implies out@[i] <= rest@[j] by {
                assert(rest@[j] == if j < m { prev[j] } else { prev[j + 1] });
            }
            assert(is_sorted(out@));
        }
    }

    proof {
        assert(rest@.to_multiset() =~= Multiset::<u64>::empty());
        assert(out@.to_multiset() =~= v@.to_multiset());
        let leq = |a: u64, b: u64| a <= b;
        v@.lemma_sort_by_ensures(leq);
        assert(sorted_by(out@, leq));
        lemma_sorted_unique(out@, v@.sort_by(leq), leq);
        assert(out@ == sort_u64(v@));
        assert(out@.len() == out@.to_multiset().len());
        assert(v@.len() == v@.to_multiset().len());
    }
    out
}

/// Twice the median of a series of timings.
///
/// The series is sorted first; the result is exact, carrying halves as a
/// doubled integer so that an even-length series needs no fractional value.
pub fn median_doubled(values: &Vec<u64>) -> (m: u128)
    requires
        values@.len() > 0,
    ensures
        m == spec_median_doubled(sort_u64(values@)),
{
    let s = sorted_copy(values);
    let len = s.len();
    if len % 2 == 1 {
        2 * (s[len / 2] as u128)
    } else {
        (s[len / 2 - 1] as u128) + (s[len / 2] as u128)
    }
}

} // verus!

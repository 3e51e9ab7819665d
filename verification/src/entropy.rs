//! Shannon entropy over a frequency distribution, in units of 2^-16 bits.
//!
//! For counts c_1..c_k summing to T, the entropy −Σ (c/T)·log2(c/T)
//! equals log2(T) − (Σ c·log2(c))/T; the analyzer computes the right-hand
//! side, whose only division is the final one, truncated toward zero. The
//! value is 0 for an empty or single-valued corpus and never exceeds
//! log2(T).

use vstd::prelude::*;
use crate::fixlog::{
    lemma_log2q_monotone, lemma_log2q_nonneg, lemma_log2q_one, spec_log2q, log2q, LOG2Q_MAX,
};
use crate::freq::spec_sum;
use vstd::arithmetic::div_mod::{lemma_div_is_ordered, lemma_div_multiples_vanish};

verus! {

/// The weighted log sum Σ c·log2q(c) of a sequence of counts.
pub open spec fn spec_wls(c: Seq<int>) -> int
    decreases c.len(),
{
    if c.len() == 0 {
        0
    } else {
        spec_wls(c.drop_last()) + c.last() * spec_log2q(c.last() as u64)
    }
}

/// The entropy of a distribution of counts summing to `total`, in units of
/// 2^-16 bits. Zero for an empty corpus.
pub open spec fn spec_entropy_q(c: Seq<int>, total: int) -> int {
    if total <= 0 {
        0
    } else {
        spec_log2q(total as u64) - spec_wls(c) / total
    }
}

/// Every element of a sequence of positive counts is at most the sum.
pub proof fn lemma_element_le_sum(c: Seq<int>, j: int)
    requires
        forall|i: int| 0 <= i < c.len() ==> c[i] >= 0,
        0 <= j < c.len(),
    ensures
        c[j] <= spec_sum(c),
    decreases c.len(),
{
    if j == c.len() - 1 {
        lemma_sum_nonneg(c.drop_last());
    } else {
        lemma_element_le_sum(c.drop_last(), j);
    }
}

/// A sum of non-negative counts is non-negative.
pub proof fn lemma_sum_nonneg(c: Seq<int>)
    requires
        forall|i: int| 0 <= i < c.len() ==> c[i] >= 0,
    ensures
        spec_sum(c) >= 0,
    decreases c.len(),
{
    if c.len() > 0 {
        lemma_sum_nonneg(c.drop_last());
    }
}

/// The weighted log sum of counts bounded by `t` lies between 0 and
/// sum·log2q(t).
pub proof fn lemma_wls_bounds(c: Seq<int>, t: u64)
    requires
        forall|i: int| 0 <= i < c.len() ==> 0 <= #[trigger] c[i] <= t,
    ensures
        0 <= spec_wls(c) <= spec_sum(c) * spec_log2q(t),
    decreases c.len(),
{
    lemma_log2q_nonneg(t);
    if c.len() == 0 {
        assert(0 * spec_log2q(t) == 0) by (nonlinear_arith);
    } else {
        lemma_wls_bounds(c.drop_last(), t);
        let x = c.last();
        lemma_log2q_nonneg(x as u64);
        lemma_log2q_monotone(x as u64, t);
        assert(x * spec_log2q(x as u64) <= x * spec_log2q(t)) by (nonlinear_arith)
            requires
                x >= 0,
                spec_log2q(x as u64) <= spec_log2q(t),
        ;
        assert(x * spec_log2q(x as u64) >= 0) by (nonlinear_arith)
            requires
                x >= 0,
                spec_log2q(x as u64) >= 0,
        ;
        assert((spec_sum(c.drop_last()) + x) * spec_log2q(t) == spec_sum(c.drop_last())
            * spec_log2q(t) + x * spec_log2q(t)) by (nonlinear_arith);
    }
}

/// Entropy lies between 0 and log2q of the corpus size.
pub proof fn lemma_entropy_range(c: Seq<int>, total: int)
    requires
        spec_sum(c) == total,
        forall|i: int| 0 <= i < c.len() ==> c[i] >= 1,
        total <= u64::MAX,
    ensures
        0 <= spec_entropy_q(c, total) <= spec_log2q(total as u64),
{
    if total <= 0 {
        lemma_log2q_nonneg(total as u64);
    } else {
        assert(forall|i: int| 0 <= i < c.len() ==> #[trigger] c[i] >= 0);
        assert forall|i: int| 0 <= i < c.len() implies #[trigger] c[i] <= total by {
            lemma_element_le_sum(c, i);
        }
        lemma_wls_bounds(c, total as u64);
        // 0 <= wls/total: ordering of division
        lemma_div_is_ordered(0, spec_wls(c), total);
        // wls/total <= log2q(total): wls <= total * log2q(total)
        assert(spec_sum(c) * spec_log2q(total as u64) == spec_log2q(total as u64) * total)
            by (nonlinear_arith)
            requires
                spec_sum(c) == total,
        ;
        lemma_div_is_ordered(spec_wls(c), spec_log2q(total as u64) * total, total);
        lemma_div_multiples_vanish(spec_log2q(total as u64), total);
    }
}

/// A uniform distribution (every count 1) has entropy log2q of its size.
pub proof fn lemma_entropy_uniform(c: Seq<int>)
    requires
        forall|i: int| 0 <= i < c.len() ==> c[i] == 1,
        c.len() >= 1,
        c.len() <= u64::MAX,
    ensures
        spec_entropy_q(c, c.len() as int) == spec_log2q(c.len() as u64),
{
    lemma_wls_of_ones(c);
    assert(spec_wls(c) / c.len() as int == 0) by {
        vstd::arithmetic::div_mod::lemma_div_of0(c.len() as int);
    }
}

/// The weighted log sum of all-ones counts is zero.
pub proof fn lemma_wls_of_ones(c: Seq<int>)
    requires
        forall|i: int| 0 <= i < c.len() ==> c[i] == 1,
    ensures
        spec_wls(c) == 0,
        spec_sum(c) == c.len(),
    decreases c.len(),
{
    if c.len() > 0 {
        lemma_wls_of_ones(c.drop_last());
        lemma_log2q_one();
        assert(1 * spec_log2q(1u64) == 0) by (nonlinear_arith)
            requires
                spec_log2q(1u64) == 0,
        ;
    }
}

/// A single-valued corpus (one count carrying everything) has entropy 0.
pub proof fn lemma_entropy_single(total: int)
    requires
        1 <= total <= u64::MAX,
    ensures
        spec_entropy_q(seq![total], total) == 0,
{
    let c = seq![total];
    assert(c.drop_last() =~= Seq::<int>::empty());
    assert(spec_wls(Seq::<int>::empty()) == 0);
    assert(spec_wls(c) == spec_wls(c.drop_last()) + c.last() * spec_log2q(c.last() as u64));
    assert(spec_wls(c) == total * spec_log2q(total as u64));
    lemma_div_multiples_vanish(spec_log2q(total as u64), total);
    assert(total * spec_log2q(total as u64) == spec_log2q(total as u64) * total)
        by (nonlinear_arith);
}

/// The integer views of a sequence of machine-word counts.
pub open spec fn int_counts(c: Seq<usize>) -> Seq<int> {
    Seq::new(c.len(), |j: int| c[j] as int)
}

/// Computes the entropy of a distribution, given its counts and their sum.
pub fn entropy_from_counts(counts: &Vec<usize>, total: u64) -> (h: u64)
    requires
        spec_sum(int_counts(counts@)) == total,
        forall|i: int| 0 <= i < counts@.len() ==> counts@[i] >= 1,
    ensures
        h == spec_entropy_q(int_counts(counts@), total as int),
        h <= spec_log2q(total),
        total == 0 ==> h == 0,
{
    let ghost ic = int_counts(counts@);
    proof {
        lemma_entropy_range(ic, total as int);
        lemma_log2q_nonneg(total);
    }
    if total == 0 {
        return 0;
    }
    let max_h = log2q(total);
    let mut acc: u128 = 0;
    let mut i: usize = 0;
    while i < counts.len()
        invariant
            i <= counts@.len(),
            ic == int_counts(counts@),
            forall|k: int| 0 <= k < counts@.len() ==> counts@[k] >= 1,
            spec_sum(ic) == total,
            acc == spec_wls(ic.subrange(0, i as int)),
            acc <= spec_sum(ic.subrange(0, i as int)) * (LOG2Q_MAX as int),
            spec_sum(ic.subrange(0, i as int)) <= total,
        decreases counts@.len() - i,
    {
        let ghost pre = ic.subrange(0, i as int);
        let ghost post = ic.subrange(0, i + 1);
        proof {
            assert(post.drop_last() =~= pre);
            assert(post.last() == ic[i as int]);
            // the next prefix sum still fits under the full sum
            lemma_prefix_sum_le(ic, i + 1);
            lemma_sum_nonneg(ic);
        }
        let c = counts[i];
        let lq = log2q(c as u64);
        proof {
            assert((c as int) * (lq as int) <= (c as int) * (LOG2Q_MAX as int))
                by (nonlinear_arith)
                requires
                    lq <= LOG2Q_MAX,
                    c >= 0,
            ;
            assert((spec_sum(pre) + c as int) * (LOG2Q_MAX as int) == spec_sum(pre) * (
            LOG2Q_MAX as int) + (c as int) * (LOG2Q_MAX as int)) by (nonlinear_arith);
            assert(spec_sum(post) * (LOG2Q_MAX as int) <= (total as int) * (LOG2Q_MAX as int))
                by (nonlinear_arith)
                requires
                    spec_sum(post) <= total as int,
                    LOG2Q_MAX as int >= 0,
            ;
        }
        acc = acc + (c as u128) * (lq as u128);
        i = i + 1;
    }
    proof {
        assert(ic.subrange(0, ic.len() as int) =~= ic);
    }
    let down = acc / (total as u128);
    proof {
        // acc/total equals the spec-level integer division
        assert(acc as int / total as int == spec_wls(ic) / total as int);
        lemma_entropy_range(ic, total as int);
    }
    max_h - (down as u64)
}

/// A prefix sum of non-negative counts is at most the full sum.
pub proof fn lemma_prefix_sum_le(c: Seq<int>, i: int)
    requires
        forall|k: int| 0 <= k < c.len() ==> c[k] >= 0,
        0 <= i <= c.len(),
    ensures
        spec_sum(c.subrange(0, i)) <= spec_sum(c),
        spec_sum(c.subrange(0, i)) >= 0,
    decreases c.len() - i,
{
    if i == c.len() {
        assert(c.subrange(0, i) =~= c);
        lemma_sum_nonneg(c);
    } else {
        lemma_prefix_sum_le(c, i + 1);
        assert(c.subrange(0, i + 1).drop_last() =~= c.subrange(0, i));
        assert(c.subrange(0, i + 1).last() == c[i]);
        lemma_sum_nonneg(c.subrange(0, i));
    }
}

} // verus!

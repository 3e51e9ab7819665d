//! Corpus-level laws of the analyzer.
//!
//! These state, over the same spec functions that `calculate_analysis`'s
//! contract uses, what the metrics are for the two extreme corpora: all
//! identifiers distinct, and all identifiers equal.

use vstd::prelude::*;
use crate::analysis::{ids_of, spec_id_entropy, spec_normalized};
use crate::entropy::{lemma_entropy_single, lemma_entropy_uniform};
use crate::fixlog::{lemma_log2q_ge_one_bit, spec_log2q, LOG_SCALE};
use crate::freq::{count_of, spec_counts, spec_keys};
use crate::records::FingerprintRecord;
use vstd::arithmetic::div_mod::lemma_div_multiples_vanish;

verus! {

/// A value that occurs nowhere has count zero.
proof fn lemma_count_absent(s: Seq<Seq<char>>, x: Seq<char>)
    requires
        forall|k: int| 0 <= k < s.len() ==> s[k] != x,
    ensures
        count_of(s, x) == 0,
    decreases s.len(),
{
    if s.len() > 0 {
        lemma_count_absent(s.drop_last(), x);
    }
}

/// In a sequence of pairwise distinct values, each value occurs once.
proof fn lemma_count_in_distinct(s: Seq<Seq<char>>, j: int)
    requires
        forall|t: int, u: int| 0 <= t < u < s.len() ==> s[t] != s[u],
        0 <= j < s.len(),
    ensures
        count_of(s, s[j]) == 1,
    decreases s.len(),
{
    if j == s.len() - 1 {
        lemma_count_absent(s.drop_last(), s[j]);
    } else {
        lemma_count_in_distinct(s.drop_last(), j);
        assert(s.drop_last()[j] == s[j]);
    }
}

/// The key table of a pairwise distinct sequence is the sequence itself.
proof fn lemma_keys_of_distinct(s: Seq<Seq<char>>)
    requires
        forall|t: int, u: int| 0 <= t < u < s.len() ==> s[t] != s[u],
    ensures
        spec_keys(s) == s,
    decreases s.len(),
{
    if s.len() > 0 {
        lemma_keys_of_distinct(s.drop_last());
        if spec_keys(s.drop_last()).contains(s.last()) {
            let k = choose|k: int|
                0 <= k < s.drop_last().len() && s.drop_last()[k] == s.last();
            assert(s[k] == s[s.len() - 1]);
            assert(false);
        }
        assert(spec_keys(s) =~= s);
    }
}

/// Uniform corpus: when every record carries a distinct identifier, the
/// identifier entropy is exactly log2 of the corpus size, the normalized
/// entropy is exactly 1, and every identifier is unique.
pub proof fn lemma_uniform_corpus(rs: Seq<FingerprintRecord>)
    requires
        forall|t: int, u: int| 0 <= t < u < rs.len() ==> ids_of(rs)[t] != ids_of(rs)[u],
        1 <= rs.len() <= u64::MAX,
    ensures
        spec_id_entropy(rs) == spec_log2q(rs.len() as u64),
        spec_keys(ids_of(rs)).len() == rs.len(),
        rs.len() > 1 ==> spec_normalized(spec_id_entropy(rs), spec_log2q(rs.len() as u64))
            == LOG_SCALE,
{
    let ids = ids_of(rs);
    lemma_keys_of_distinct(ids);
    assert forall|j: int| 0 <= j < spec_counts(ids).len() implies #[trigger] spec_counts(ids)[j]
        == 1 by {
        lemma_count_in_distinct(ids, j);
    }
    lemma_entropy_uniform(spec_counts(ids));
    assert(spec_counts(ids).len() == ids.len());
    if rs.len() > 1 {
        lemma_log2q_ge_one_bit(rs.len() as u64);
        let h = spec_log2q(rs.len() as u64);
        lemma_div_multiples_vanish(LOG_SCALE as int, h);
        assert(h * (LOG_SCALE as int) == (LOG_SCALE as int) * h);
    }
}

/// In a constant sequence, the only key is the value and it carries the
/// whole count.
proof fn lemma_constant_table(s: Seq<Seq<char>>)
    requires
        s.len() >= 1,
        forall|k: int| 0 <= k < s.len() ==> #[trigger] s[k] == s[0],
    ensures
        spec_keys(s) == seq![s[0]],
        count_of(s, s[0]) == s.len(),
    decreases s.len(),
{
    assert(s.last() == s[s.len() - 1]);
    assert(s.last() == s[0]);
    if s.len() == 1 {
        assert(spec_keys(s.drop_last()) =~= Seq::<Seq<char>>::empty());
        assert(spec_keys(s) =~= seq![s[0]]);
        assert(count_of(s.drop_last(), s[0]) == 0);
        assert(count_of(s, s[0]) == 1);
    } else {
        lemma_constant_table(s.drop_last());
        assert(s.drop_last()[0] == s[0]);
        assert(spec_keys(s.drop_last()).contains(s.last())) by {
            assert(spec_keys(s.drop_last())[0] == s[0]);
        }
        assert(spec_keys(s) =~= seq![s[0]]);
        assert(count_of(s, s[0]) == count_of(s.drop_last(), s[0]) + 1);
    }
}

/// Constant corpus: when every record carries the same identifier, the
/// identifier entropy is exactly 0 and there is exactly one distinct
/// fingerprint, so the uniqueness rate is exactly 1/N.
pub proof fn lemma_constant_corpus(rs: Seq<FingerprintRecord>)
    requires
        1 <= rs.len() <= u64::MAX,
        forall|t: int| 0 <= t < rs.len() ==> #[trigger] ids_of(rs)[t] == ids_of(rs)[0],
    ensures
        spec_id_entropy(rs) == 0,
        spec_keys(ids_of(rs)).len() == 1,
{
    let ids = ids_of(rs);
    lemma_constant_table(ids);
    assert(spec_counts(ids) =~= seq![rs.len() as int]) by {
        assert(spec_keys(ids)[0] == ids[0]);
        assert(spec_counts(ids).len() == 1);
    }
    lemma_entropy_single(rs.len() as int);
}

} // verus!

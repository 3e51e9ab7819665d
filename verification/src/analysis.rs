//! The entropy analyzer: from a corpus of fingerprint records to the full
//! set of uniqueness metrics.
//!
//! Everything is an exact function of the record sequence: frequency
//! tables over the identifiers, Shannon entropy in units of 2^-16 bits,
//! the normalized entropy in units of 2^-16 of 1.0, the uniqueness rate as
//! an exact ratio, per-component entropies, and the temporal histogram in
//! lexicographic (here: chronological) bucket order.

use vstd::prelude::*;
use vstd::string::{StringExecFns, StrSliceExecFns};
use crate::entropy::{entropy_from_counts, int_counts, spec_entropy_q, lemma_entropy_range};
use crate::fixlog::{lemma_log2q_bound, lemma_log2q_ge_one_bit, log2q, spec_log2q, LOG_SCALE};
use crate::freq::{
    count_of, frequency_table, lemma_counts_positive, lemma_counts_sum, lemma_keys_le_len,
    spec_counts, spec_keys,
};
use crate::lex::{lemma_lex_total, lemma_lex_trans, lex_leq, lex_leq_str};
use crate::records::{record_wf, FingerprintRecord};
use vstd::arithmetic::div_mod::{lemma_div_is_ordered, lemma_div_multiples_vanish};

verus! {

/// The identifiers of a corpus, in order.
pub open spec fn ids_of(rs: Seq<FingerprintRecord>) -> Seq<Seq<char>> {
    Seq::new(rs.len(), |i: int| rs[i].id@)
}

/// The session identifiers of a corpus, in order.
pub open spec fn sessions_of(rs: Seq<FingerprintRecord>) -> Seq<Seq<char>> {
    Seq::new(rs.len(), |i: int| rs[i].session_id@)
}

/// The hour bucket of each record: the first 13 characters of its server
/// timestamp (`YYYY-MM-DDTHH`).
pub open spec fn buckets_of(rs: Seq<FingerprintRecord>) -> Seq<Seq<char>> {
    Seq::new(rs.len(), |i: int| rs[i].server_timestamp@.subrange(0, 13))
}

/// The sub-features whose entropy is analyzed separately.
#[derive(Clone, Copy, Debug, PartialEq, Eq, Structural)]
pub enum Component {
    Canvas,
    Webgl,
    PortContention,
}

/// The value a record carries for a component, if any.
pub open spec fn component_of(r: FingerprintRecord, w: Component) -> Option<Seq<char>> {
    match w {
        Component::Canvas => match r.canvas {
            Some(s) => Some(s@),
            None => None,
        },
        Component::Webgl => match r.webgl {
            Some(s) => Some(s@),
            None => None,
        },
        Component::PortContention => match r.port_contention {
            Some(s) => Some(s@),
            None => None,
        },
    }
}

/// The present values of a component over a corpus, in order. Records
/// without the component are excluded (not counted as a category of their
/// own), so each component sees its own effective sample size.
pub open spec fn component_values(rs: Seq<FingerprintRecord>, w: Component) -> Seq<Seq<char>>
    decreases rs.len(),
{
    if rs.len() == 0 {
        Seq::empty()
    } else {
        component_values(rs.drop_last(), w) + match component_of(rs.last(), w) {
            Some(s) => seq![s],
            None => Seq::empty(),
        }
    }
}

/// The identifier entropy of a corpus, in units of 2^-16 bits.
pub open spec fn spec_id_entropy(rs: Seq<FingerprintRecord>) -> int {
    spec_entropy_q(spec_counts(ids_of(rs)), rs.len() as int)
}

/// The entropy of a sequence of values, in units of 2^-16 bits.
pub open spec fn spec_values_entropy(vs: Seq<Seq<char>>) -> int {
    spec_entropy_q(spec_counts(vs), vs.len() as int)
}

/// Entropy normalized by the largest entropy a corpus of that size can
/// carry, in units of 2^-16 of 1.0; defined as 0 when the maximum is 0.
pub open spec fn spec_normalized(h: int, maxh: int) -> int {
    if maxh <= 0 {
        0
    } else {
        h * (LOG_SCALE as int) / maxh
    }
}

/// Copies the identifiers of a corpus.
fn collect_ids(records: &Vec<FingerprintRecord>) -> (v: Vec<String>)
    ensures
        v.deep_view() == ids_of(records@),
{
    let mut v: Vec<String> = Vec::new();
    let mut i: usize = 0;
    while i < records.len()
        invariant
            i <= records@.len(),
            v@.len() == i,
            forall|k: int| 0 <= k < i ==> v@[k]@ == records@[k].id@,
        decreases records@.len() - i,
    {
        v.push(records[i].id.clone());
        i = i + 1;
    }
    proof {
        assert forall|k: int| 0 <= k < v.deep_view().len() implies v.deep_view()[k] == ids_of(
            records@,
        )[k] by {
            assert(v.deep_view()[k] == v@[k]@);
        }
        assert(v.deep_view() =~= ids_of(records@));
    }
    v
}

/// Copies the session identifiers of a corpus.
fn collect_sessions(records: &Vec<FingerprintRecord>) -> (v: Vec<String>)
    ensures
        v.deep_view() == sessions_of(records@),
{
    let mut v: Vec<String> = Vec::new();
    let mut i: usize = 0;
    while i < records.len()
        invariant
            i <= records@.len(),
            v@.len() == i,
            forall|k: int| 0 <= k < i ==> v@[k]@ == records@[k].session_id@,
        decreases records@.len() - i,
    {
        v.push(records[i].session_id.clone());
        i = i + 1;
    }
    proof {
        assert forall|k: int| 0 <= k < v.deep_view().len() implies v.deep_view()[k] == sessions_of(
            records@,
        )[k] by {
            assert(v.deep_view()[k] == v@[k]@);
        }
        assert(v.deep_view() =~= sessions_of(records@));
    }
    v
}

/// Collects the present values of one component.
fn collect_component(records: &Vec<FingerprintRecord>, w: Component) -> (v: Vec<String>)
    ensures
        v.deep_view() == component_values(records@, w),
{
    let mut v: Vec<String> = Vec::new();
    let mut i: usize = 0;
    while i < records.len()
        invariant
            i <= records@.len(),
            v.deep_view() =~= component_values(records@.subrange(0, i as int), w),
        decreases records@.len() - i,
    {
        let ghost pre = records@.subrange(0, i as int);
        let ghost post = records@.subrange(0, i + 1);
        proof {
            assert(post.drop_last() =~= pre);
            assert(post.last() == records@[i as int]);
        }
        let field: &Option<String> = match w {
            Component::Canvas => &records[i].canvas,
            Component::Webgl => &records[i].webgl,
            Component::PortContention => &records[i].port_contention,
        };
        if let Some(s) = field {
            v.push(s.clone());
        }
        proof {
            assert(v.deep_view() =~= component_values(post, w));
        }
        i = i + 1;
    }
    proof {
        assert(records@.subrange(0, records@.len() as int) =~= records@);
    }
    v
}

/// The number of distinct values in a sequence of strings.
pub fn unique_count(values: &Vec<String>) -> (n: usize)
    ensures
        n == spec_keys(values.deep_view()).len(),
{
    let (keys, _counts) = frequency_table(values);
    keys.len()
}

/// The Shannon entropy of a sequence of values, in units of 2^-16 bits:
/// log2 of the sample size minus the mean log-count of each value's
/// frequency class.
pub fn calculate_entropy_from_values(values: &Vec<String>) -> (h: u64)
    ensures
        h == spec_values_entropy(values.deep_view()),
        h <= spec_log2q(values@.len() as u64),
{
    let ghost vs = values.deep_view();
    let (keys, counts) = frequency_table(values);
    proof {
        lemma_counts_sum(vs);
        lemma_counts_positive(vs);
        assert(vs.len() == values@.len());
        assert(int_counts(counts@) =~= spec_counts(vs));
        assert(forall|i: int|
            0 <= i < counts@.len() ==> #[trigger] counts@[i] == spec_counts(vs)[i]);
    }
    let total: u64 = values.len() as u64;
    entropy_from_counts(&counts, total)
}

/// The Shannon entropy of the identifier distribution of a corpus.
pub fn calculate_shannon_entropy_from_ids(records: &Vec<FingerprintRecord>) -> (h: u64)
    ensures
        h == spec_id_entropy(records@),
        h <= spec_log2q(records@.len() as u64),
{
    let ids = collect_ids(records);
    let h = calculate_entropy_from_values(&ids);
    proof {
        assert(ids.deep_view() == ids_of(records@));
        assert(ids@.len() == records@.len());
    }
    h
}

/// Per-component entropies. The audio feature is carried in the log but
/// not extracted here, so its entropy is reported as 0; the combined
/// entropy is that of the composite identifier.
pub struct ComponentAnalysis {
    pub canvas_entropy: u64,
    pub webgl_entropy: u64,
    pub audio_entropy: u64,
    pub port_contention_entropy: u64,
    pub combined_entropy: u64,
}

/// Computes the per-component entropies of a corpus.
pub fn analyze_components(records: &Vec<FingerprintRecord>) -> (c: ComponentAnalysis)
    ensures
        c.canvas_entropy == spec_values_entropy(component_values(records@, Component::Canvas)),
        c.webgl_entropy == spec_values_entropy(component_values(records@, Component::Webgl)),
        c.port_contention_entropy == spec_values_entropy(
            component_values(records@, Component::PortContention),
        ),
        c.audio_entropy == 0,
        c.combined_entropy == spec_id_entropy(records@),
{
    let canvas = collect_component(records, Component::Canvas);
    let webgl = collect_component(records, Component::Webgl);
    let port = collect_component(records, Component::PortContention);
    ComponentAnalysis {
        canvas_entropy: calculate_entropy_from_values(&canvas),
        webgl_entropy: calculate_entropy_from_values(&webgl),
        audio_entropy: 0,
        port_contention_entropy: calculate_entropy_from_values(&port),
        combined_entropy: calculate_shannon_entropy_from_ids(records),
    }
}

/// One hour bucket of the temporal histogram.
#[derive(Clone, Debug)]
pub struct TemporalBucket {
    pub timestamp: String,
    pub count: usize,
}

/// A bucket of the histogram of `bk`: a distinct bucket key with its
/// occurrence count.
pub open spec fn bucket_ok(b: TemporalBucket, bk: Seq<Seq<char>>) -> bool {
    &&& spec_keys(bk).contains(b.timestamp@)
    &&& b.count == count_of(bk, b.timestamp@)
}

/// Index of a lexicographically least bucket key.
fn min_bucket_index(v: &Vec<TemporalBucket>) -> (m: usize)
    requires
        v@.len() > 0,
    ensures
        m < v@.len(),
        forall|j: int| 0 <= j < v@.len() ==> lex_leq(v@[m as int].timestamp@, (#[trigger] v@[j]).timestamp@),
{
    let mut m: usize = 0;
    let mut i: usize = 1;
    proof {
        lemma_lex_total(v@[0].timestamp@, v@[0].timestamp@);
    }
    while i < v.len()
        invariant
            m < i,
            i <= v@.len(),
            forall|j: int| 0 <= j < i ==> lex_leq(v@[m as int].timestamp@, (#[trigger] v@[j]).timestamp@),
        decreases v@.len() - i,
    {
        if !lex_leq_str(v[m].timestamp.as_str(), v[i].timestamp.as_str()) {
            proof {
                lemma_lex_total(v@[m as int].timestamp@, v@[i as int].timestamp@);
                assert forall|j: int| 0 <= j < i implies lex_leq(
                    v@[i as int].timestamp@,
                    (#[trigger] v@[j]).timestamp@,
                ) by {
                    lemma_lex_trans(
                        v@[i as int].timestamp@,
                        v@[m as int].timestamp@,
                        v@[j].timestamp@,
                    );
                }
            }
            m = i;
        }
        proof {
            lemma_lex_total(v@[m as int].timestamp@, v@[m as int].timestamp@);
        }
        i = i + 1;
    }
    m
}

/// Sorts the histogram by bucket key.
fn sort_buckets(input: Vec<TemporalBucket>, Ghost(bk): Ghost<Seq<Seq<char>>>) -> (out: Vec<
    TemporalBucket,
>)
    requires
        forall|i: int| 0 <= i < input@.len() ==> bucket_ok(#[trigger] input@[i], bk),
        forall|i: int, j: int|
            0 <= i < j < input@.len() ==> input@[i].timestamp@ != input@[j].timestamp@,
    ensures
        out@.len() == input@.len(),
        forall|i: int| 0 <= i < out@.len() ==> bucket_ok(#[trigger] out@[i], bk),
        forall|i: int, j: int|
            0 <= i < j < out@.len() ==> out@[i].timestamp@ != out@[j].timestamp@,
        forall|i: int, j: int|
            0 <= i <= j < out@.len() ==> lex_leq(out@[i].timestamp@, out@[j].timestamp@),
{
    let mut rest = input;
    let mut out: Vec<TemporalBucket> = Vec::new();
    let ghost n = rest@.len();
    while rest.len() > 0
        invariant
            out@.len() + rest@.len() == n,
            forall|i: int| 0 <= i < out@.len() ==> bucket_ok(#[trigger] out@[i], bk),
            forall|j: int| 0 <= j < rest@.len() ==> bucket_ok(#[trigger] rest@[j], bk),
            forall|i: int, j: int|
                0 <= i < j < out@.len() ==> out@[i].timestamp@ != out@[j].timestamp@,
            forall|i: int, j: int|
                0 <= i < j < rest@.len() ==> rest@[i].timestamp@ != rest@[j].timestamp@,
            forall|i: int, j: int|
                0 <= i < out@.len() && 0 <= j < rest@.len() ==> out@[i].timestamp@
                    != rest@[j].timestamp@,
            forall|i: int, j: int|
                0 <= i <= j < out@.len() ==> lex_leq(out@[i].timestamp@, out@[j].timestamp@),
            forall|i: int, j: int|
                0 <= i < out@.len() && 0 <= j < rest@.len() ==> lex_leq(
                    out@[i].timestamp@,
                    rest@[j].timestamp@,
                ),
        decreases rest@.len(),
    {
        let ghost prev = rest@;
        let m = min_bucket_index(&rest);
        let x = rest.remove(m);
        out.push(x);
        proof {
            assert(rest@ == prev.remove(m as int));
            assert forall|j: int| 0 <= j < rest@.len() implies lex_leq(
                out@[out@.len() - 1].timestamp@,
                (#[trigger] rest@[j]).timestamp@,
            ) by {
                assert(rest@[j] == if j < m {
                    prev[j]
                } else {
                    prev[j + 1]
                });
            }
            assert forall|j: int| 0 <= j < rest@.len() implies bucket_ok(
                #[trigger] rest@[j],
                bk,
            ) by {
                assert(rest@[j] == if j < m {
                    prev[j]
                } else {
                    prev[j + 1]
                });
            }
        }
    }
    out
}

/// Builds the temporal histogram of a corpus: one bucket per distinct
/// timestamp hour, counted and ordered lexicographically by bucket key
/// (chronological order for this timestamp shape).
pub fn analyze_temporal_distribution(records: &Vec<FingerprintRecord>) -> (out: Vec<
    TemporalBucket,
>)
    requires
        forall|i: int| 0 <= i < records@.len() ==> record_wf(#[trigger] records@[i]),
    ensures
        out@.len() == spec_keys(buckets_of(records@)).len(),
        forall|i: int| 0 <= i < out@.len() ==> bucket_ok(#[trigger] out@[i], buckets_of(records@)),
        forall|i: int, j: int|
            0 <= i < j < out@.len() ==> out@[i].timestamp@ != out@[j].timestamp@,
        forall|i: int, j: int|
            0 <= i <= j < out@.len() ==> lex_leq(out@[i].timestamp@, out@[j].timestamp@),
{
    let ghost bk = buckets_of(records@);
    let mut bucket_strings: Vec<String> = Vec::new();
    let mut i: usize = 0;
    while i < records.len()
        invariant
            i <= records@.len(),
            forall|k: int| 0 <= k < records@.len() ==> record_wf(#[trigger] records@[k]),
            bucket_strings@.len() == i,
            forall|k: int|
                0 <= k < i ==> bucket_strings@[k]@ == records@[k].server_timestamp@.subrange(
                    0,
                    13,
                ),
            bk == buckets_of(records@),
        decreases records@.len() - i,
    {
        let ts = records[i].server_timestamp.as_str();
        let prefix = ts.substring_ascii(0, 13);
        bucket_strings.push(String::from_str(prefix));
        i = i + 1;
    }
    proof {
        assert forall|k: int| 0 <= k < bucket_strings.deep_view().len() implies bucket_strings
            .deep_view()[k] == bk[k] by {
            assert(bucket_strings.deep_view()[k] == bucket_strings@[k]@);
        }
        assert(bucket_strings.deep_view() =~= bk);
    }

    let (keys, counts) = frequency_table(&bucket_strings);
    let ghost kseq = spec_keys(bk);
    proof {
        crate::freq::lemma_keys_distinct(bk);
    }
    let mut buckets: Vec<TemporalBucket> = Vec::new();
    let mut j: usize = 0;
    while j < keys.len()
        invariant
            j <= keys@.len(),
            keys.deep_view() == kseq,
            counts@.len() == keys@.len(),
            kseq == spec_keys(bk),
            forall|t: int, u: int| 0 <= t < u < kseq.len() ==> kseq[t] != kseq[u],
            forall|t: int|
                0 <= t < counts@.len() ==> counts@[t] == count_of(bk, kseq[t]),
            buckets@.len() == j,
            forall|t: int| 0 <= t < j ==> bucket_ok(#[trigger] buckets@[t], bk),
            forall|t: int, u: int|
                0 <= t < u < j ==> buckets@[t].timestamp@ != buckets@[u].timestamp@,
            forall|t: int| 0 <= t < j ==> buckets@[t].timestamp@ == kseq[t],
        decreases keys@.len() - j,
    {
        let b = TemporalBucket { timestamp: keys[j].clone(), count: counts[j] };
        proof {
            assert(keys.deep_view()[j as int] == keys@[j as int]@);
            assert(b.timestamp@ == kseq[j as int]);
            assert(kseq.contains(kseq[j as int]));
        }
        buckets.push(b);
        j = j + 1;
        proof {
            assert forall|t: int, u: int| 0 <= t < u < j implies buckets@[t].timestamp@
                != buckets@[u].timestamp@ by {
                assert(buckets@[t].timestamp@ == kseq[t]);
                assert(buckets@[u].timestamp@ == kseq[u]);
            }
        }
    }
    sort_buckets(buckets, Ghost(bk))
}

/// The complete analysis of a corpus.
///
/// Entropy fields are in units of 2^-16 bits; `normalized_entropy` is in
/// units of 2^-16 of 1.0 and never exceeds that scale; the uniqueness rate
/// is the exact ratio `uniqueness_rate_num / uniqueness_rate_den`, at most
/// 1, with the denominator held at 1 for an empty corpus so the degenerate
/// rate is an exact 0.
pub struct AnalysisResults {
    pub total_entries: usize,
    pub unique_fingerprints: usize,
    pub unique_sessions: usize,
    pub shannon_entropy: u64,
    pub normalized_entropy: u64,
    pub max_possible_entropy: u64,
    pub uniqueness_rate_num: usize,
    pub uniqueness_rate_den: usize,
    pub component_analysis: ComponentAnalysis,
    pub temporal_distribution: Vec<TemporalBucket>,
}

/// Analyzes a corpus. A pure function of the record sequence: the
/// metrics are fixed exactly by the contract, the degenerate empty corpus
/// yields zero entropy and rate zero, and the bounds of the normalized
/// entropy and the uniqueness rate hold on every input.
pub fn calculate_analysis(records: &Vec<FingerprintRecord>) -> (r: AnalysisResults)
    requires
        forall|i: int| 0 <= i < records@.len() ==> record_wf(#[trigger] records@[i]),
    ensures
        r.total_entries == records@.len(),
        r.unique_fingerprints == spec_keys(ids_of(records@)).len(),
        r.unique_sessions == spec_keys(sessions_of(records@)).len(),
        r.shannon_entropy == spec_id_entropy(records@),
        r.max_possible_entropy == spec_log2q(records@.len() as u64),
        r.normalized_entropy == spec_normalized(
            spec_id_entropy(records@),
            spec_log2q(records@.len() as u64),
        ),
        r.normalized_entropy <= LOG_SCALE,
        r.uniqueness_rate_num == r.unique_fingerprints,
        r.uniqueness_rate_den == if records@.len() == 0 {
            1usize
        } else {
            records@.len() as usize
        },
        r.uniqueness_rate_num <= r.uniqueness_rate_den,
        r.component_analysis.combined_entropy == spec_id_entropy(records@),
        r.temporal_distribution@.len() == spec_keys(buckets_of(records@)).len(),
{
    let total = records.len();
    let ids = collect_ids(records);
    let sessions = collect_sessions(records);
    let unique_fps = unique_count(&ids);
    let unique_sessions = unique_count(&sessions);
    let shannon = calculate_shannon_entropy_from_ids(records);
    let max_h = log2q(total as u64);
    proof {
        lemma_log2q_bound(total as u64);
        assert(ids.deep_view() == ids_of(records@));
        lemma_keys_le_len(ids_of(records@));
        assert(ids_of(records@).len() == records@.len());
    }
    let normalized: u64 = if max_h == 0 {
        0
    } else {
        proof {
            assert(shannon * (LOG_SCALE as int) <= max_h * (LOG_SCALE as int))
                by (nonlinear_arith)
                requires
                    shannon <= max_h,
                    LOG_SCALE as int >= 0,
            ;
            lemma_div_is_ordered(
                shannon * (LOG_SCALE as int),
                max_h * (LOG_SCALE as int),
                max_h as int,
            );
            lemma_div_multiples_vanish(LOG_SCALE as int, max_h as int);
            assert(max_h * (LOG_SCALE as int) == (LOG_SCALE as int) * max_h);
        }
        shannon * LOG_SCALE / max_h
    };
    let component_analysis = analyze_components(records);
    let temporal_distribution = analyze_temporal_distribution(records);
    AnalysisResults {
        total_entries: total,
        unique_fingerprints: unique_fps,
        unique_sessions,
        shannon_entropy: shannon,
        normalized_entropy: normalized,
        max_possible_entropy: max_h,
        uniqueness_rate_num: unique_fps,
        uniqueness_rate_den: if total == 0 {
            1
        } else {
            total
        },
        component_analysis,
        temporal_distribution,
    }
}

} // verus!

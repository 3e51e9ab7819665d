//! Frequency tables over fingerprint identifiers.
//!
//! The table lists each distinct identifier in order of first occurrence
//! together with its number of occurrences; it is pinned down exactly by
//! `spec_keys` and `count_of`, and the counts of a table always sum to the
//! corpus size.

use vstd::prelude::*;

verus! {

/// How often `x` occurs in `s`.
pub open spec fn count_of(s: Seq<Seq<char>>, x: Seq<char>) -> int
    decreases s.len(),
{
    if s.len() == 0 {
        0
    } else {
        count_of(s.drop_last(), x) + if s.last() == x {
            1int
        } else {
            0int
        }
    }
}

/// The distinct values of `s`, in order of first occurrence.
pub open spec fn spec_keys(s: Seq<Seq<char>>) -> Seq<Seq<char>>
    decreases s.len(),
{
    if s.len() == 0 {
        Seq::empty()
    } else {
        let prev = spec_keys(s.drop_last());
        if prev.contains(s.last()) {
            prev
        } else {
            prev.push(s.last())
        }
    }
}

/// The occurrence counts of the distinct values, in table order.
pub open spec fn spec_counts(s: Seq<Seq<char>>) -> Seq<int> {
    Seq::new(spec_keys(s).len(), |j: int| count_of(s, spec_keys(s)[j]))
}

/// The sum of a sequence of counts.
pub open spec fn spec_sum(c: Seq<int>) -> int
    decreases c.len(),
{
    if c.len() == 0 {
        0
    } else {
        spec_sum(c.drop_last()) + c.last()
    }
}

/// A count never exceeds the corpus size.
pub proof fn lemma_count_le_len(s: Seq<Seq<char>>, x: Seq<char>)
    ensures
        0 <= count_of(s, x) <= s.len(),
    decreases s.len(),
{
    if s.len() > 0 {
        lemma_count_le_len(s.drop_last(), x);
    }
}

/// Table keys are pairwise distinct.
pub proof fn lemma_keys_distinct(s: Seq<Seq<char>>)
    ensures
        forall|i: int, j: int|
            0 <= i < j < spec_keys(s).len() ==> spec_keys(s)[i] != spec_keys(s)[j],
    decreases s.len(),
{
    if s.len() > 0 {
        lemma_keys_distinct(s.drop_last());
        let prev = spec_keys(s.drop_last());
        if !prev.contains(s.last()) {
            assert(forall|i: int| 0 <= i < prev.len() ==> prev[i] != s.last());
        }
    }
}

/// A value is a key exactly when it occurs.
pub proof fn lemma_keys_complete(s: Seq<Seq<char>>, x: Seq<char>)
    ensures
        spec_keys(s).contains(x) <==> count_of(s, x) > 0,
    decreases s.len(),
{
    lemma_count_le_len(s, x);
    if s.len() > 0 {
        lemma_keys_complete(s.drop_last(), x);
        lemma_count_le_len(s.drop_last(), x);
        let prev = spec_keys(s.drop_last());
        if spec_keys(s).contains(x) {
            if x != s.last() && !prev.contains(x) {
                // x must be in prev or be the appended last element
                assert(forall|i: int|
                    0 <= i < prev.len() && prev[i] == x ==> prev.contains(x));
                if !prev.contains(s.last()) {
                    assert(spec_keys(s) == prev.push(s.last()));
                    let i = choose|i: int| 0 <= i < spec_keys(s).len() && spec_keys(s)[i] == x;
                    assert(i < prev.len() || spec_keys(s)[i] == s.last());
                    assert(i < prev.len() ==> prev[i] == x);
                }
            }
        } else {
            if count_of(s, x) > 0 {
                if x == s.last() {
                    if prev.contains(x) {
                        let i = choose|i: int| 0 <= i < prev.len() && prev[i] == x;
                        assert(spec_keys(s)[i] == x);
                    } else {
                        assert(spec_keys(s).last() == x);
                    }
                    assert(spec_keys(s).contains(x));
                } else {
                    assert(count_of(s.drop_last(), x) > 0);
                    let i = choose|i: int| 0 <= i < prev.len() && prev[i] == x;
                    assert(spec_keys(s)[i] == x);
                    assert(spec_keys(s).contains(x));
                }
            }
        }
    }
}

/// Bumping one entry of a count sequence bumps its sum.
pub proof fn lemma_sum_update(c: Seq<int>, j: int)
    requires
        0 <= j < c.len(),
    ensures
        spec_sum(c.update(j, c[j] + 1)) == spec_sum(c) + 1,
    decreases c.len(),
{
    let c2 = c.update(j, c[j] + 1);
    if j == c.len() - 1 {
        assert(c2.drop_last() =~= c.drop_last());
        assert(c2.last() == c.last() + 1);
    } else {
        lemma_sum_update(c.drop_last(), j);
        assert(c2.drop_last() =~= c.drop_last().update(j, c[j] + 1));
        assert(c2.last() == c.last());
    }
}

/// The counts of a table sum to the corpus size.
pub proof fn lemma_counts_sum(s: Seq<Seq<char>>)
    ensures
        spec_sum(spec_counts(s)) == s.len(),
    decreases s.len(),
{
    if s.len() == 0 {
        assert(spec_counts(s) =~= Seq::<int>::empty());
    } else {
        let s0 = s.drop_last();
        let x = s.last();
        lemma_counts_sum(s0);
        lemma_keys_distinct(s0);
        lemma_keys_complete(s0, x);
        let prev = spec_keys(s0);
        if prev.contains(x) {
            let j = choose|j: int| 0 <= j < prev.len() && prev[j] == x;
            // every other key's count is unchanged; key j gains one
            assert(spec_keys(s) == prev);
            assert forall|i: int| 0 <= i < prev.len() implies spec_counts(s)[i] == spec_counts(
                s0,
            ).update(j, spec_counts(s0)[j] + 1)[i] by {
                if i == j {
                    assert(count_of(s, prev[i]) == count_of(s0, prev[i]) + 1);
                } else {
                    assert(prev[i] != x);
                    assert(count_of(s, prev[i]) == count_of(s0, prev[i]));
                }
            }
            assert(spec_counts(s) =~= spec_counts(s0).update(j, spec_counts(s0)[j] + 1));
            lemma_sum_update(spec_counts(s0), j);
        } else {
            // a new key with count one appears at the end
            assert(spec_keys(s) == prev.push(x));
            lemma_count_le_len(s0, x);
            assert(count_of(s0, x) == 0);
            assert forall|i: int| 0 <= i < prev.len() implies spec_counts(s)[i] == spec_counts(
                s0,
            )[i] by {
                assert(prev[i] != x);
                assert(count_of(s, prev[i]) == count_of(s0, prev[i]));
            }
            assert(spec_counts(s)[prev.len() as int] == count_of(s, x));
            assert(count_of(s, x) == 1);
            assert(spec_counts(s) =~= spec_counts(s0).push(1));
            assert(spec_sum(spec_counts(s0).push(1)) == spec_sum(spec_counts(s0)) + 1) by {
                assert(spec_counts(s0).push(1).drop_last() =~= spec_counts(s0));
            }
        }
    }
}

/// Every count of a table is at least one.
pub proof fn lemma_counts_positive(s: Seq<Seq<char>>)
    ensures
        forall|j: int|
            0 <= j < spec_counts(s).len() ==> #[trigger] spec_counts(s)[j] >= 1,
{
    assert forall|j: int| 0 <= j < spec_counts(s).len() implies #[trigger] spec_counts(s)[j]
        >= 1 by {
        lemma_keys_complete(s, spec_keys(s)[j]);
        assert(spec_keys(s).contains(spec_keys(s)[j]));
    }
}

/// There are no more keys than corpus entries.
pub proof fn lemma_keys_le_len(s: Seq<Seq<char>>)
    ensures
        spec_keys(s).len() <= s.len(),
    decreases s.len(),
{
    if s.len() > 0 {
        lemma_keys_le_len(s.drop_last());
    }
}

/// The index of `id` among the keys, if it is there.
fn find_key(keys: &Vec<String>, id: &String) -> (r: Option<usize>)
    ensures
        match r {
            Some(j) => j < keys@.len() && keys@[j as int]@ == id@,
            None => forall|k: int| 0 <= k < keys@.len() ==> keys@[k]@ != id@,
        },
{
    let mut j: usize = 0;
    while j < keys.len()
        invariant
            j <= keys@.len(),
            forall|k: int| 0 <= k < j ==> keys@[k]@ != id@,
        decreases keys@.len() - j,
    {
        if keys[j].eq(id) {
            return Some(j);
        }
        j = j + 1;
    }
    None
}

/// Builds the frequency table of `ids`: the distinct values in order of
/// first occurrence, each with its occurrence count.
pub fn frequency_table(ids: &Vec<String>) -> (t: (Vec<String>, Vec<usize>))
    ensures
        t.0.deep_view() == spec_keys(ids.deep_view()),
        t.1@.len() == t.0@.len(),
        forall|j: int|
            0 <= j < t.1@.len() ==> t.1@[j] == count_of(
                ids.deep_view(),
                spec_keys(ids.deep_view())[j],
            ),
{
    let ghost all = ids.deep_view();
    let mut keys: Vec<String> = Vec::new();
    let mut counts: Vec<usize> = Vec::new();
    let mut i: usize = 0;
    while i < ids.len()
        invariant
            i <= ids@.len(),
            all == ids.deep_view(),
            all.len() == ids@.len(),
            forall|k: int| 0 <= k < ids@.len() ==> all[k] == ids@[k]@,
            keys.deep_view() == spec_keys(all.subrange(0, i as int)),
            counts@.len() == keys@.len(),
            forall|j: int| 0 <= j < keys@.len() ==> keys.deep_view()[j] == keys@[j]@,
            forall|j: int|
                0 <= j < counts@.len() ==> counts@[j] == count_of(
                    all.subrange(0, i as int),
                    keys.deep_view()[j],
                ),
        decreases ids@.len() - i,
    {
        let ghost prefix = all.subrange(0, i as int);
        let ghost next_prefix = all.subrange(0, i + 1);
        proof {
            assert(next_prefix.drop_last() =~= prefix);
            assert(next_prefix.last() == all[i as int]);
            lemma_count_le_len(prefix, all[i as int]);
        }
        let id = &ids[i];
        let pos = find_key(&keys, id);
        proof {
            lemma_keys_distinct(prefix);
            lemma_keys_complete(prefix, all[i as int]);
        }
        if let Some(j) = pos {
            proof {
                assert(spec_keys(prefix).contains(all[i as int])) by {
                    assert(keys.deep_view()[j as int] == all[i as int]);
                }
                assert(spec_keys(next_prefix) == spec_keys(prefix));
                lemma_count_le_len(prefix, keys.deep_view()[j as int]);
            }
            let c = counts[j];
            counts.set(j, c + 1);
            proof {
                assert forall|k: int| 0 <= k < counts@.len() implies counts@[k] == count_of(
                    next_prefix,
                    keys.deep_view()[k],
                ) by {
                    if k == j {
                        assert(count_of(next_prefix, keys.deep_view()[k]) == count_of(
                            prefix,
                            keys.deep_view()[k],
                        ) + 1);
                    } else {
                        // distinct keys: only key j matches the new id
                        assert(keys.deep_view()[k] != all[i as int]);
                        assert(count_of(next_prefix, keys.deep_view()[k]) == count_of(
                            prefix,
                            keys.deep_view()[k],
                        ));
                    }
                }
            }
        } else {
            proof {
                assert(!spec_keys(prefix).contains(all[i as int])) by {
                    if spec_keys(prefix).contains(all[i as int]) {
                        let w = choose|w: int|
                            0 <= w < spec_keys(prefix).len() && spec_keys(prefix)[w] == all[
                                i as int];
                        assert(keys.deep_view()[w] == all[i as int]);
                    }
                }
                assert(spec_keys(next_prefix) == spec_keys(prefix).push(all[i as int]));
                assert(count_of(prefix, all[i as int]) == 0);
            }
            keys.push(id.clone());
            counts.push(1);
            proof {
                assert(keys.deep_view() =~= spec_keys(next_prefix));
                assert forall|k: int| 0 <= k < counts@.len() implies counts@[k] == count_of(
                    next_prefix,
                    keys.deep_view()[k],
                ) by {
                    if k < counts@.len() - 1 {
                        assert(keys.deep_view()[k] != all[i as int]);
                        assert(count_of(next_prefix, keys.deep_view()[k]) == count_of(
                            prefix,
                            keys.deep_view()[k],
                        ));
                    } else {
                        assert(count_of(next_prefix, all[i as int]) == 1);
                    }
                }
            }
        }
        i = i + 1;
    }
    proof {
        assert(all.subrange(0, all.len() as int) =~= all);
    }
    (keys, counts)
}

} // verus!

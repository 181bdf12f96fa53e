//! The streaming aggregate state: a pair of counters folded over many
//! sequences, mergeable across parallel partial aggregates.
//!
//! The aggregate result is the ratio of summed counts over all consumed
//! sequences — not the average of per-sequence ratios — so partial
//! states combine exactly by component-wise addition.

use vstd::prelude::*;

use crate::calculator::GcContent;
use crate::calculator::count_bytes;
use crate::calculator::gc_count;
use crate::calculator::lemma_count_concat;
use crate::calculator::lemma_gc_le_total;
use crate::calculator::ratio_of;
use crate::calculator::spec_compute;
use crate::calculator::total_count;

verus! {

/// Sum of the GC counts over a group of sequences.
pub open spec fn gc_sum(seqs: Seq<Seq<u8>>) -> nat
    decreases seqs.len(),
{
    if seqs.len() == 0 {
        0
    } else {
        gc_sum(seqs.drop_last()) + gc_count(seqs.last())
    }
}

/// Sum of the informative-byte counts over a group of sequences.
pub open spec fn total_sum(seqs: Seq<Seq<u8>>) -> nat
    decreases seqs.len(),
{
    if seqs.len() == 0 {
        0
    } else {
        total_sum(seqs.drop_last()) + total_count(seqs.last())
    }
}

/// The aggregate composition of a group of sequences: the ratio of the
/// summed counts, `Undefined` when the whole group has no informative
/// byte.
pub open spec fn spec_aggregate(seqs: Seq<Seq<u8>>) -> GcContent {
    ratio_of(gc_sum(seqs), total_sum(seqs))
}

/// Streaming accumulator for the aggregate form of the computation.
///
/// Created empty, fed any number of sequences with `update`, combined
/// with other partial accumulators by `merge`, and consumed once by
/// `finalize`. Null inputs are skipped by simply not calling `update`
/// (or by `update_option` with `None`), which leaves the state
/// untouched.
pub struct GcAccumulator {
    gc_count: u64,
    total_count: u64,
}

impl GcAccumulator {
    /// The accumulated GC count.
    pub closed spec fn gc(self) -> nat {
        self.gc_count as nat
    }

    /// The accumulated informative-byte count.
    pub closed spec fn total(self) -> nat {
        self.total_count as nat
    }

    /// Well-formedness: the GC count never exceeds the total count.
    pub open spec fn wf(self) -> bool {
        self.gc() <= self.total()
    }

    /// Creates an empty accumulator.
    pub fn new() -> (r: Self)
        ensures
            r.gc() == 0,
            r.total() == 0,
            r.wf(),
    {
        GcAccumulator { gc_count: 0, total_count: 0 }
    }

    /// Folds one sequence into the state: classifies its bytes exactly
    /// as the per-sequence calculator does and adds the counts.
    pub fn update(&mut self, seq: &[u8])
        requires
            old(self).wf(),
            old(self).total() + total_count(seq@) <= u64::MAX,
        ensures
            final(self).gc() == old(self).gc() + gc_count(seq@),
            final(self).total() == old(self).total() + total_count(seq@),
            final(self).wf(),
    {
        let (gc, total) = count_bytes(seq);
        self.gc_count = self.gc_count + gc;
        self.total_count = self.total_count + total;
    }

    /// Folds one sequence into the state, first checking that the new
    /// total cannot overflow the counters; the check is on the
    /// sequence's length, which bounds its informative-byte count.
    /// Returns whether the state was updated.
    pub fn try_update(&mut self, seq: &[u8]) -> (ok: bool)
        requires
            old(self).wf(),
        ensures
            ok == (old(self).total() + seq@.len() <= u64::MAX),
            ok ==> final(self).gc() == old(self).gc() + gc_count(seq@) && final(self).total()
                == old(self).total() + total_count(seq@),
            !ok ==> *final(self) == *old(self),
            final(self).wf(),
    {
        if seq.len() as u64 <= u64::MAX - self.total_count {
            proof {
                lemma_gc_le_total(seq@);
            }
            self.update(seq);
            true
        } else {
            false
        }
    }

    /// Folds a nullable sequence into the state: a null is skipped and
    /// leaves the state exactly as it was.
    pub fn update_option(&mut self, seq: Option<&[u8]>) -> (ok: bool)
        requires
            old(self).wf(),
        ensures
            seq is None ==> *final(self) == *old(self) && ok,
            seq matches Some(s) ==> ok == (old(self).total() + s@.len() <= u64::MAX),
            seq matches Some(s) ==> (ok ==> final(self).gc() == old(self).gc() + gc_count(s@)
                && final(self).total() == old(self).total() + total_count(s@)),
            !ok ==> *final(self) == *old(self),
            final(self).wf(),
    {
        match seq {
            None => true,
            Some(s) => self.try_update(s),
        }
    }

    /// Combines another partial accumulator into this one by summing
    /// the counter pairs component-wise.
    pub fn merge(&mut self, other: &GcAccumulator)
        requires
            old(self).wf(),
            other.wf(),
            old(self).total() + other.total() <= u64::MAX,
        ensures
            final(self).gc() == old(self).gc() + other.gc(),
            final(self).total() == old(self).total() + other.total(),
            final(self).wf(),
    {
        self.gc_count = self.gc_count + other.gc_count;
        self.total_count = self.total_count + other.total_count;
    }

    /// Consumes the state and returns the aggregate composition: the
    /// ratio of the summed counts, `Undefined` when nothing informative
    /// was ever accumulated.
    pub fn finalize(self) -> (r: GcContent)
        ensures
            r == ratio_of(self.gc(), self.total()),
    {
        if self.total_count == 0 {
            GcContent::Undefined
        } else {
            GcContent::Ratio { gc: self.gc_count, total: self.total_count }
        }
    }

    /// The accumulated GC count, for callers that must check bounds
    /// before an update or a merge.
    pub fn gc_value(&self) -> (r: u64)
        ensures
            r == self.gc(),
    {
        self.gc_count
    }

    /// The accumulated informative-byte count, for callers that must
    /// check bounds before an update or a merge.
    pub fn total_value(&self) -> (r: u64)
        ensures
            r == self.total(),
    {
        self.total_count
    }
}

/// The group sums distribute over concatenation of groups: feeding one
/// accumulator the sequences of `a` and then those of `b` accumulates
/// exactly the sum of the two groups' counts.
pub proof fn lemma_sum_concat(a: Seq<Seq<u8>>, b: Seq<Seq<u8>>)
    ensures
        gc_sum(a + b) == gc_sum(a) + gc_sum(b),
        total_sum(a + b) == total_sum(a) + total_sum(b),
    decreases b.len(),
{
    if b.len() == 0 {
        assert(a + b =~= a);
    } else {
        lemma_sum_concat(a, b.drop_last());
        assert((a + b).drop_last() =~= a + b.drop_last());
    }
}

/// Law: merging two partial aggregates is exact. The aggregate over the
/// sequences of two groups taken together equals the ratio of the
/// component-wise sums of the two groups' counters — precisely what
/// `GcAccumulator::merge` followed by `finalize` computes from the two
/// partial states.
pub proof fn lemma_merge_consistent(a: Seq<Seq<u8>>, b: Seq<Seq<u8>>)
    ensures
        spec_aggregate(a + b) == ratio_of(gc_sum(a) + gc_sum(b), total_sum(a) + total_sum(b)),
{
    lemma_sum_concat(a, b);
}

/// Law: merging is commutative — the order in which two partial
/// aggregates are combined does not affect the final composition.
pub proof fn lemma_merge_commutative(a: Seq<Seq<u8>>, b: Seq<Seq<u8>>)
    ensures
        spec_aggregate(a + b) == spec_aggregate(b + a),
{
    lemma_sum_concat(a, b);
    lemma_sum_concat(b, a);
}

/// Law: merging is associative — partial aggregates may be combined in
/// any grouping without affecting the final composition.
pub proof fn lemma_merge_associative(a: Seq<Seq<u8>>, b: Seq<Seq<u8>>, c: Seq<Seq<u8>>)
    ensures
        spec_aggregate((a + b) + c) == spec_aggregate(a + (b + c)),
{
    assert((a + b) + c =~= a + (b + c));
}

/// All sequences of a group, concatenated in order.
pub open spec fn concat_all(seqs: Seq<Seq<u8>>) -> Seq<u8>
    decreases seqs.len(),
{
    if seqs.len() == 0 {
        Seq::empty()
    } else {
        concat_all(seqs.drop_last()) + seqs.last()
    }
}

/// Law: the aggregate over a group is the per-sequence calculator
/// applied to the group's concatenation — the ratio of summed counts,
/// which in general differs from the average of the per-sequence
/// ratios.
pub proof fn lemma_aggregate_is_compute_of_concatenation(seqs: Seq<Seq<u8>>)
    ensures
        gc_sum(seqs) == gc_count(concat_all(seqs)),
        total_sum(seqs) == total_count(concat_all(seqs)),
        spec_aggregate(seqs) == spec_compute(concat_all(seqs)),
    decreases seqs.len(),
{
    if seqs.len() > 0 {
        lemma_aggregate_is_compute_of_concatenation(seqs.drop_last());
        lemma_count_concat(concat_all(seqs.drop_last()), seqs.last());
    }
}

/// A one-sequence group contributes exactly that sequence's counts.
pub proof fn lemma_sum_singleton(x: Seq<u8>)
    ensures
        gc_sum(seq![x]) == gc_count(x),
        total_sum(seq![x]) == total_count(x),
{
    assert(seq![x].drop_last() =~= Seq::<Seq<u8>>::empty());
    assert(gc_sum(Seq::<Seq<u8>>::empty()) == 0);
    assert(total_sum(Seq::<Seq<u8>>::empty()) == 0);
    assert(seq![x].last() == x);
}

/// Removing one sequence from a group removes exactly its counts.
pub proof fn lemma_sum_remove(s: Seq<Seq<u8>>, j: int)
    requires
        0 <= j < s.len(),
    ensures
        gc_sum(s) == gc_sum(s.remove(j)) + gc_count(s[j]),
        total_sum(s) == total_sum(s.remove(j)) + total_count(s[j]),
{
    let pre = s.subrange(0, j);
    let mid = seq![s[j]];
    let post = s.subrange(j + 1, s.len() as int);
    assert(s =~= pre + (mid + post));
    lemma_sum_concat(pre, mid + post);
    lemma_sum_concat(mid, post);
    lemma_sum_singleton(s[j]);
    assert(s.remove(j) =~= pre + post);
    lemma_sum_concat(pre, post);
}

/// The group sums depend only on which sequences a group holds, with
/// multiplicity — never on their order.
pub proof fn lemma_sum_permutation(a: Seq<Seq<u8>>, b: Seq<Seq<u8>>)
    requires
        a.to_multiset() == b.to_multiset(),
    ensures
        gc_sum(a) == gc_sum(b),
        total_sum(a) == total_sum(b),
    decreases a.len(),
{
    a.to_multiset_ensures();
    b.to_multiset_ensures();
    if a.len() == 0 {
        assert(b.to_multiset().len() == 0);
    } else {
        let i = a.len() - 1;
        let x = a.last();
        assert(a.contains(x)) by {
            assert(a[i] == x);
        }
        assert(b.to_multiset().count(x) > 0);
        assert(b.contains(x));
        let j = choose|k: int| 0 <= k < b.len() && b[k] == x;
        assert(a.remove(i).to_multiset() =~= a.to_multiset().remove(x));
        assert(b.remove(j).to_multiset() =~= b.to_multiset().remove(x));
        lemma_sum_permutation(a.remove(i), b.remove(j));
        lemma_sum_remove(a, i);
        lemma_sum_remove(b, j);
    }
}

/// Law: the aggregate composition of a group of sequences depends only
/// on the multiset of sequences fed to it, not on the order in which
/// they arrive or are combined.
pub proof fn lemma_aggregate_permutation(a: Seq<Seq<u8>>, b: Seq<Seq<u8>>)
    requires
        a.to_multiset() == b.to_multiset(),
    ensures
        spec_aggregate(a) == spec_aggregate(b),
{
    lemma_sum_permutation(a, b);
}

/// Concatenation of a partition's groups back into one group.
pub open spec fn concat_groups(groups: Seq<Seq<Seq<u8>>>) -> Seq<Seq<u8>>
    decreases groups.len(),
{
    if groups.len() == 0 {
        Seq::empty()
    } else {
        concat_groups(groups.drop_last()) + groups.last()
    }
}

/// Sum of the GC counts over every sequence of every group.
pub open spec fn groups_gc_sum(groups: Seq<Seq<Seq<u8>>>) -> nat
    decreases groups.len(),
{
    if groups.len() == 0 {
        0
    } else {
        groups_gc_sum(groups.drop_last()) + gc_sum(groups.last())
    }
}

/// Sum of the informative-byte counts over every sequence of every group.
pub open spec fn groups_total_sum(groups: Seq<Seq<Seq<u8>>>) -> nat
    decreases groups.len(),
{
    if groups.len() == 0 {
        0
    } else {
        groups_total_sum(groups.drop_last()) + total_sum(groups.last())
    }
}

/// Law: for any partition of a collection of sequences into groups,
/// summing the per-group accumulators (as `merge` does) and finalizing
/// yields the same composition as one accumulator fed every sequence
/// directly.
pub proof fn lemma_aggregate_partition(groups: Seq<Seq<Seq<u8>>>)
    ensures
        spec_aggregate(concat_groups(groups)) == ratio_of(
            groups_gc_sum(groups),
            groups_total_sum(groups),
        ),
        gc_sum(concat_groups(groups)) == groups_gc_sum(groups),
        total_sum(concat_groups(groups)) == groups_total_sum(groups),
    decreases groups.len(),
{
    if groups.len() > 0 {
        lemma_aggregate_partition(groups.drop_last());
        lemma_sum_concat(concat_groups(groups.drop_last()), groups.last());
    }
}

} // verus!

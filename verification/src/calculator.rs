//! The composition calculator: classifies the bytes of a nucleotide
//! sequence and computes its GC content as an exact ratio.
//!
//! Classification of each byte:
//! - line separators (`\n`) are non-content and excluded from all counts;
//! - `G`, `g`, `C`, `c` count toward both the GC count and the total;
//! - `N`, `n` are ambiguous and excluded from both counts;
//! - every other byte counts toward the total only.
//!
//! The result of a computation is either `Undefined` (no informative
//! bytes at all, which callers must keep distinct from a genuine 0%)
//! or an exact ratio `gc / total`, to be rendered as the percentage
//! `gc / total * 100` by presentation code.

use vstd::prelude::*;

verus! {

/// True of the line-separator byte, which is stripped before
/// classification and never counted.
pub open spec fn is_separator(b: u8) -> bool {
    b == ('\n' as u8)
}

/// True of guanine/cytosine symbols, upper or lower case.
pub open spec fn is_gc(b: u8) -> bool {
    b == ('G' as u8) || b == ('g' as u8) || b == ('C' as u8) || b == ('c' as u8)
}

/// True of the ambiguous symbol `N`/`n`, which is excluded from both
/// counts: an unknown base is not evidence against GC content.
pub open spec fn is_ignored(b: u8) -> bool {
    b == ('N' as u8) || b == ('n' as u8)
}

/// True of the bytes that count toward the total: everything except
/// separators and ambiguous symbols. Unrecognized bytes are permissively
/// treated as informative non-GC content, never rejected.
pub open spec fn is_informative(b: u8) -> bool {
    !is_separator(b) && !is_ignored(b)
}

/// Number of GC-class bytes in a sequence.
pub open spec fn gc_count(s: Seq<u8>) -> nat
    decreases s.len(),
{
    if s.len() == 0 {
        0
    } else {
        gc_count(s.drop_last()) + (if is_gc(s.last()) {
            1nat
        } else {
            0nat
        })
    }
}

/// Number of informative bytes in a sequence.
pub open spec fn total_count(s: Seq<u8>) -> nat
    decreases s.len(),
{
    if s.len() == 0 {
        0
    } else {
        total_count(s.drop_last()) + (if is_informative(s.last()) {
            1nat
        } else {
            0nat
        })
    }
}

/// Result of a GC-content computation.
///
/// `Ratio { gc, total }` stands for the percentage `gc / total * 100`;
/// the exact counts are kept so that no precision is lost and so that
/// partial results can be combined. `Undefined` marks a computation
/// over zero informative bytes; it is deliberately distinct from
/// `Ratio { gc: 0, .. }` (0%), and presentation layers propagate it as
/// a null rather than defaulting it to a number.
#[derive(Clone, Copy, Debug, PartialEq, Eq, Structural)]
pub enum GcContent {
    Undefined,
    Ratio { gc: u64, total: u64 },
}

/// The composition result determined by a pair of counts.
pub open spec fn ratio_of(gc: nat, total: nat) -> GcContent {
    if total == 0 {
        GcContent::Undefined
    } else {
        GcContent::Ratio { gc: gc as u64, total: total as u64 }
    }
}

/// The composition result of one sequence.
pub open spec fn spec_compute(s: Seq<u8>) -> GcContent {
    ratio_of(gc_count(s), total_count(s))
}

/// Every GC-class byte is informative, so the GC count never exceeds
/// the total count.
pub proof fn lemma_gc_le_total(s: Seq<u8>)
    ensures
        gc_count(s) <= total_count(s) <= s.len(),
    decreases s.len(),
{
    if s.len() > 0 {
        lemma_gc_le_total(s.drop_last());
    }
}

/// Appending one byte adds its classification to the counts.
pub proof fn lemma_count_push(s: Seq<u8>, b: u8)
    ensures
        gc_count(s.push(b)) == gc_count(s) + (if is_gc(b) {
            1nat
        } else {
            0nat
        }),
        total_count(s.push(b)) == total_count(s) + (if is_informative(b) {
            1nat
        } else {
            0nat
        }),
{
    assert(s.push(b).drop_last() =~= s);
}

/// The counts distribute over concatenation: a sequence split into
/// pieces yields the same counts as the whole.
pub proof fn lemma_count_concat(a: Seq<u8>, b: Seq<u8>)
    ensures
        gc_count(a + b) == gc_count(a) + gc_count(b),
        total_count(a + b) == total_count(a) + total_count(b),
    decreases b.len(),
{
    if b.len() == 0 {
        assert(a + b =~= a);
    } else {
        lemma_count_concat(a, b.drop_last());
        assert((a + b).drop_last() =~= a + b.drop_last());
    }
}

/// Law: line separators never affect the result. A sequence computes
/// to exactly the same composition as the same sequence with every
/// separator byte removed.
pub proof fn lemma_separators_irrelevant(s: Seq<u8>)
    ensures
        spec_compute(s) == spec_compute(s.filter(|b: u8| !is_separator(b))),
        gc_count(s) == gc_count(s.filter(|b: u8| !is_separator(b))),
        total_count(s) == total_count(s.filter(|b: u8| !is_separator(b))),
    decreases s.len(),
{
    reveal(Seq::filter);
    if s.len() > 0 {
        lemma_separators_irrelevant(s.drop_last());
        if !is_separator(s.last()) {
            lemma_count_push(s.drop_last().filter(|b: u8| !is_separator(b)), s.last());
        }
    }
}

/// Upper-cases one ASCII byte; every other byte is left alone.
pub open spec fn ascii_upper(b: u8) -> u8 {
    if ('a' as u8) <= b <= ('z' as u8) {
        (b - 32) as u8
    } else {
        b
    }
}

/// The classification of a byte is blind to its case.
pub proof fn lemma_classify_case_blind(b: u8)
    ensures
        is_gc(ascii_upper(b)) == is_gc(b),
        is_ignored(ascii_upper(b)) == is_ignored(b),
        is_separator(ascii_upper(b)) == is_separator(b),
{
}

/// Law: the computation is case-insensitive. Upper-casing every byte of
/// a sequence leaves the composition unchanged, so two sequences equal
/// up to ASCII case always compute to the same result.
pub proof fn lemma_case_insensitive(s: Seq<u8>)
    ensures
        spec_compute(s.map_values(|b: u8| ascii_upper(b))) == spec_compute(s),
        gc_count(s.map_values(|b: u8| ascii_upper(b))) == gc_count(s),
        total_count(s.map_values(|b: u8| ascii_upper(b))) == total_count(s),
    decreases s.len(),
{
    let f = |b: u8| ascii_upper(b);
    if s.len() > 0 {
        lemma_case_insensitive(s.drop_last());
        assert(s.map_values(f).drop_last() =~= s.drop_last().map_values(f));
        assert(s.map_values(f).last() == f(s.last()));
        lemma_classify_case_blind(s.last());
    } else {
        assert(s.map_values(f) =~= s);
    }
}

/// Law: a non-empty sequence of GC-class bytes only computes to 100%:
/// the GC count equals the total count and both are positive.
pub proof fn lemma_all_gc(s: Seq<u8>)
    requires
        s.len() >= 1,
        forall|i: int| 0 <= i < s.len() ==> is_gc(s[i]),
    ensures
        gc_count(s) == s.len(),
        total_count(s) == s.len(),
        spec_compute(s) == (GcContent::Ratio { gc: s.len() as u64, total: s.len() as u64 }),
    decreases s.len(),
{
    if s.len() == 1 {
        assert(gc_count(s.drop_last()) == 0);
        assert(total_count(s.drop_last()) == 0);
    } else {
        lemma_all_gc(s.drop_last());
    }
}

/// Law: a non-empty sequence of informative non-GC bytes (`A`/`T` in
/// either case, or any other byte that is neither GC, ambiguous, nor a
/// separator) computes to exactly 0% — a defined result, distinct from
/// `Undefined`, because the total count is positive.
pub proof fn lemma_all_other(s: Seq<u8>)
    requires
        s.len() >= 1,
        forall|i: int| 0 <= i < s.len() ==> is_informative(s[i]) && !is_gc(s[i]),
    ensures
        gc_count(s) == 0,
        total_count(s) == s.len(),
        spec_compute(s) == (GcContent::Ratio { gc: 0, total: s.len() as u64 }),
    decreases s.len(),
{
    if s.len() == 1 {
        assert(gc_count(s.drop_last()) == 0);
        assert(total_count(s.drop_last()) == 0);
    } else {
        lemma_all_other(s.drop_last());
    }
}

/// Law: a sequence of only ambiguous bytes (`N`/`n`) computes to
/// `Undefined`: it has no informative byte at all, and the result must
/// stay distinguishable from a genuine 0%.
pub proof fn lemma_all_ignored(s: Seq<u8>)
    requires
        forall|i: int| 0 <= i < s.len() ==> is_ignored(s[i]),
    ensures
        total_count(s) == 0,
        spec_compute(s) == GcContent::Undefined,
    decreases s.len(),
{
    if s.len() > 0 {
        lemma_all_ignored(s.drop_last());
    }
}

/// Counts the GC-class and informative bytes of a sequence.
///
/// This is the one counting routine shared by the per-sequence
/// calculator and the streaming accumulator, so that both always
/// classify bytes identically.
pub fn count_bytes(seq: &[u8]) -> (r: (u64, u64))
    ensures
        r.0 == gc_count(seq@),
        r.1 == total_count(seq@),
        r.0 <= r.1 <= seq@.len(),
{
    let mut gc: u64 = 0;
    let mut total: u64 = 0;
    let mut i: usize = 0;
    proof {
        assert(seq@.take(0) =~= Seq::<u8>::empty());
    }
    while i < seq.len()
        invariant
            i <= seq@.len(),
            gc == gc_count(seq@.take(i as int)),
            total == total_count(seq@.take(i as int)),
            gc <= total <= i,
        decreases seq@.len() - i,
    {
        let b = seq[i];
        proof {
            assert(seq@.take(i + 1) =~= seq@.take(i as int).push(seq@[i as int]));
            lemma_count_push(seq@.take(i as int), seq@[i as int]);
        }
        if b == ('G' as u8) || b == ('g' as u8) || b == ('C' as u8) || b == ('c' as u8) {
            gc = gc + 1;
            total = total + 1;
        } else if b == ('N' as u8) || b == ('n' as u8) || b == ('\n' as u8) {
            // excluded from all counts
        } else {
            total = total + 1;
        }
        i = i + 1;
    }
    proof {
        assert(seq@.take(seq@.len() as int) =~= seq@);
    }
    (gc, total)
}

/// Computes the GC content of one sequence: the exact ratio of
/// GC-class bytes to informative bytes, or `Undefined` when the
/// sequence has no informative bytes at all.
pub fn compute(seq: &[u8]) -> (r: GcContent)
    ensures
        r == spec_compute(seq@),
{
    let (gc, total) = count_bytes(seq);
    if total == 0 {
        GcContent::Undefined
    } else {
        GcContent::Ratio { gc, total }
    }
}

} // verus!


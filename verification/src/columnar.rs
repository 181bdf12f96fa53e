//! The scalar adapter over columnar data: applies the composition
//! calculator to every row of an arrow string column, preserving null
//! positions, and feeds whole columns into the streaming accumulator.
//!
//! The column type comes from the arrow crates; the rows it holds are
//! modeled as a sequence of nullable byte sequences, and the few
//! methods the adapter calls are trusted to agree with that model.

use vstd::prelude::*;

use crate::accumulator::GcAccumulator;
use crate::calculator::GcContent;
use crate::calculator::compute;
use crate::calculator::gc_count;
use crate::calculator::lemma_gc_le_total;
use crate::calculator::spec_compute;
use crate::calculator::total_count;

verus! {

/// A columnar batch of nullable strings, as the query engine hands it
/// over: an arrow `StringArray` held opaquely. The verifier sees the
/// column only through `rows_of`, which names the rows it holds, and
/// through the trusted accessors below, whose contracts say what the
/// arrow source shows of `len`, `is_null` and `value`.
#[verifier::external_body]
pub struct StringColumn {
    inner: arrow_array::StringArray,
}

/// The rows that a string column holds, in order: `None` at a null
/// position, otherwise the row's bytes.
pub uninterp spec fn rows_of(a: StringColumn) -> Seq<Option<Seq<u8>>>;

/// Total encoded byte length of the non-null rows: what a built column
/// must store in its value buffer.
pub open spec fn encoded_len_sum(rows: Seq<Option<String>>) -> nat
    decreases rows.len(),
{
    if rows.len() == 0 {
        0
    } else {
        encoded_len_sum(rows.drop_last()) + (match rows.last() {
            None => 0nat,
            Some(s) => vstd::utf8::encode_utf8(s@).len(),
        })
    }
}

impl StringColumn {
    /// Relies on arrow's `From<Vec<Option<String>>>` for `StringArray`:
    /// the built column holds exactly the given rows, in order, null
    /// where a row is `None`; a string row's bytes are its UTF-8
    /// encoding. The column stores 32-bit offsets and the builder
    /// panics once the values outgrow them, so the precondition bounds
    /// the total byte length by `i32::MAX`.
    #[verifier::external_body]
    pub fn from_rows(rows: Vec<Option<String>>) -> (r: StringColumn)
        requires
            encoded_len_sum(rows@) <= 0x7fffffff,
        ensures
            rows_of(r).len() == rows@.len(),
            forall|i: int|
                0 <= i < rows@.len() ==> rows_of(r)[i] == (match rows@[i] {
                    None => None::<Seq<u8>>,
                    Some(s) => Some(vstd::utf8::encode_utf8(s@)),
                }),
    {
        StringColumn { inner: arrow_array::StringArray::from(rows) }
    }
}

/// Relies on arrow_array::Array::len for StringArray: the number of
/// rows in the column.
#[verifier::external_body]
fn rows_len(a: &StringColumn) -> (n: usize)
    ensures
        n == rows_of(*a).len(),
{
    arrow_array::Array::len(&a.inner)
}

/// Relies on arrow_array::Array::is_null for StringArray: whether the
/// row at a valid index is null.
#[verifier::external_body]
fn row_is_null(a: &StringColumn, i: usize) -> (r: bool)
    requires
        i < rows_of(*a).len(),
    ensures
        r == (rows_of(*a)[i as int] is None),
{
    arrow_array::Array::is_null(&a.inner, i)
}

/// Relies on GenericByteArray::value for StringArray: the bytes of the
/// non-null row at a valid index (the call panics only on an index out
/// of bounds, which the precondition rules out).
#[verifier::external_body]
fn row_bytes(a: &StringColumn, i: usize) -> (r: Vec<u8>)
    requires
        i < rows_of(*a).len(),
        rows_of(*a)[i as int] is Some,
    ensures
        rows_of(*a)[i as int] == Some(r@),
{
    a.inner.value(i).as_bytes().to_vec()
}

/// The composition result owed for one nullable row: null in, null out;
/// otherwise the calculator's result for the row's bytes.
pub open spec fn row_result(row: Option<Seq<u8>>) -> Option<GcContent> {
    match row {
        None => None,
        Some(s) => Some(spec_compute(s)),
    }
}

/// Applies the calculator to every row of a string column.
///
/// The output has exactly one element per input row, in the same
/// order: a null row yields a null result — independent of every other
/// row — and a non-null row yields the composition of its bytes.
/// An `Undefined` composition is a concrete variant of the element, so
/// it stays distinguishable from a genuine 0% ratio.
pub fn gc_content_of_column(a: &StringColumn) -> (r: Vec<Option<GcContent>>)
    ensures
        r@.len() == rows_of(*a).len(),
        forall|i: int| 0 <= i < r@.len() ==> r@[i] == row_result(rows_of(*a)[i]),
{
    let n = rows_len(a);
    let mut out: Vec<Option<GcContent>> = Vec::new();
    let mut i: usize = 0;
    while i < n
        invariant
            n == rows_of(*a).len(),
            i <= n,
            out@.len() == i,
            forall|j: int| 0 <= j < i ==> out@[j] == row_result(rows_of(*a)[j]),
        decreases n - i,
    {
        if row_is_null(a, i) {
            out.push(None);
        } else {
            let bytes = row_bytes(a, i);
            out.push(Some(compute(bytes.as_slice())));
        }
        i = i + 1;
    }
    out
}

/// Sum of the GC counts over the non-null rows of a column.
pub open spec fn column_gc_sum(rows: Seq<Option<Seq<u8>>>) -> nat
    decreases rows.len(),
{
    if rows.len() == 0 {
        0
    } else {
        column_gc_sum(rows.drop_last()) + (match rows.last() {
            None => 0nat,
            Some(s) => gc_count(s),
        })
    }
}

/// Sum of the informative-byte counts over the non-null rows of a
/// column.
pub open spec fn column_total_sum(rows: Seq<Option<Seq<u8>>>) -> nat
    decreases rows.len(),
{
    if rows.len() == 0 {
        0
    } else {
        column_total_sum(rows.drop_last()) + (match rows.last() {
            None => 0nat,
            Some(s) => total_count(s),
        })
    }
}

/// Sum of the byte lengths of the non-null rows of a column; it bounds
/// both count sums.
pub open spec fn column_len_sum(rows: Seq<Option<Seq<u8>>>) -> nat
    decreases rows.len(),
{
    if rows.len() == 0 {
        0
    } else {
        column_len_sum(rows.drop_last()) + (match rows.last() {
            None => 0nat,
            Some(s) => s.len(),
        })
    }
}

/// The column sums are ordered as the per-sequence counts are: GC sum
/// at most total sum, total sum at most length sum.
pub proof fn lemma_column_sums_le(rows: Seq<Option<Seq<u8>>>)
    ensures
        column_gc_sum(rows) <= column_total_sum(rows) <= column_len_sum(rows),
    decreases rows.len(),
{
    if rows.len() > 0 {
        lemma_column_sums_le(rows.drop_last());
        match rows.last() {
            None => {},
            Some(s) => {
                lemma_gc_le_total(s);
            },
        }
    }
}

/// Folds every non-null row of a string column into an accumulator,
/// skipping null rows, as the aggregate form of the computation does
/// with one incoming batch.
///
/// Succeeds — updating the counts by exactly the column's sums — if
/// and only if the accumulated total plus the column's non-null byte
/// length cannot overflow the counters; on failure the accumulator is
/// left exactly as it was.
pub fn update_from_column(acc: &mut GcAccumulator, a: &StringColumn) -> (ok: bool)
    requires
        old(acc).wf(),
    ensures
        ok == (old(acc).total() + column_len_sum(rows_of(*a)) <= u64::MAX),
        ok ==> final(acc).gc() == old(acc).gc() + column_gc_sum(rows_of(*a)) && final(acc).total()
            == old(acc).total() + column_total_sum(rows_of(*a)),
        !ok ==> *final(acc) == *old(acc),
        final(acc).wf(),
{
    let ghost rows = rows_of(*a);
    let n = rows_len(a);
    let mut part = GcAccumulator::new();
    let mut len_sum: u64 = 0;
    let mut i: usize = 0;
    while i < n
        invariant
            n == rows.len(),
            rows == rows_of(*a),
            i <= n,
            *acc == *old(acc),
            acc.wf(),
            part.wf(),
            part.gc() == column_gc_sum(rows.take(i as int)),
            part.total() == column_total_sum(rows.take(i as int)),
            len_sum == column_len_sum(rows.take(i as int)),
        decreases n - i,
    {
        proof {
            assert(rows.take(i + 1).drop_last() =~= rows.take(i as int));
            assert(rows.take(i + 1).last() == rows[i as int]);
        }
        if !row_is_null(a, i) {
            let bytes = row_bytes(a, i);
            if bytes.len() as u64 > u64::MAX - len_sum || !part.try_update(bytes.as_slice()) {
                proof {
                    lemma_column_len_sum_prefix(rows, i + 1);
                    lemma_column_sums_le(rows.take(i as int));
                }
                return false;
            }
            len_sum = len_sum + bytes.len() as u64;
        }
        i = i + 1;
    }
    proof {
        assert(rows.take(n as int) =~= rows);
    }
    let total = acc.total_value();
    if part.total_value() > u64::MAX - total {
        proof {
            lemma_column_sums_le(rows);
        }
        return false;
    }
    if len_sum > u64::MAX - total {
        proof {
            lemma_column_sums_le(rows);
        }
        return false;
    }
    acc.merge(&part);
    true
}

/// A prefix's length sum never exceeds the whole column's.
pub proof fn lemma_column_len_sum_prefix(rows: Seq<Option<Seq<u8>>>, k: int)
    requires
        0 <= k <= rows.len(),
    ensures
        column_len_sum(rows.take(k)) <= column_len_sum(rows),
    decreases rows.len() - k,
{
    if k < rows.len() {
        lemma_column_len_sum_prefix(rows, k + 1);
        assert(rows.take(k + 1).drop_last() =~= rows.take(k));
    } else {
        assert(rows.take(k) =~= rows);
    }
}

} // verus!

//! The validity tracker and the bitmap it produces, both from `arrow_buffer`.

use vstd::prelude::*;

verus! {

#[verifier::external_type_specification]
#[verifier::external_body]
pub struct ExNullBufferBuilder(arrow_buffer::NullBufferBuilder);

#[verifier::external_type_specification]
#[verifier::external_body]
pub struct ExNullBuffer(arrow_buffer::NullBuffer);

/// The bits appended to a tracker since it was made or last finished, oldest
/// first; `true` marks a row that is not null.
pub uninterp spec fn tracker_bits(tracker: arrow_buffer::NullBufferBuilder) -> Seq<bool>;

/// The bits of a finished bitmap, one per row; `true` marks a row that is not
/// null.
pub uninterp spec fn bitmap_bits(bitmap: arrow_buffer::NullBuffer) -> Seq<bool>;

/// Every bit is set.
pub open spec fn all_valid(bits: Seq<bool>) -> bool {
    forall|i: int| 0 <= i < bits.len() ==> bits[i]
}

/// The number of cleared bits.
pub open spec fn count_nulls(bits: Seq<bool>) -> nat
    decreases bits.len(),
{
    if bits.len() == 0 {
        0
    } else {
        count_nulls(bits.drop_last()) + if bits.last() { 0nat } else { 1nat }
    }
}

/// A sequence without cleared bits counts no nulls, and only such a sequence.
pub proof fn lemma_count_nulls_zero(bits: Seq<bool>)
    ensures
        count_nulls(bits) == 0 <==> all_valid(bits),
    decreases bits.len(),
{
    if bits.len() > 0 {
        let front = bits.drop_last();
        lemma_count_nulls_zero(front);
        if all_valid(bits) {
            assert forall|i: int| 0 <= i < front.len() implies front[i] by {
                assert(front[i] == bits[i]);
            }
        }
        if count_nulls(bits) == 0 {
            assert forall|i: int| 0 <= i < bits.len() implies bits[i] by {
                if i < front.len() {
                    assert(front[i] == bits[i]);
                }
            }
        }
    }
}

/// `NullBufferBuilder::new`: a tracker that holds no bit yet. The capacity is
/// only remembered for the first allocation.
#[verifier::external_body]
pub(crate) fn tracker_new(capacity: usize) -> (tracker: arrow_buffer::NullBufferBuilder)
    ensures
        tracker_bits(tracker) == Seq::<bool>::empty(),
{
    arrow_buffer::NullBufferBuilder::new(capacity)
}

/// `NullBufferBuilder::len`: the number of bits held.
#[verifier::external_body]
pub(crate) fn tracker_len(tracker: &arrow_buffer::NullBufferBuilder) -> (n: usize)
    ensures
        n == tracker_bits(*tracker).len(),
{
    tracker.len()
}

/// `NullBufferBuilder::append`: one more bit at the end. The crate adds one
/// to its length, so the tracker must not be full; running out of memory is
/// outside this contract, as it is for the collections of the standard
/// library.
#[verifier::external_body]
pub(crate) fn tracker_append(tracker: &mut arrow_buffer::NullBufferBuilder, is_valid: bool)
    requires
        tracker_bits(*old(tracker)).len() < usize::MAX,
    ensures
        tracker_bits(*final(tracker)) == tracker_bits(*old(tracker)).push(is_valid),
{
    tracker.append(is_valid)
}

/// `NullBufferBuilder::finish`: hands out the bits held and leaves the
/// tracker empty. The crate materialises a bitmap only once a cleared bit was
/// appended, so no bitmap means that every bit was set; a bitmap holds the
/// bits as they were appended.
#[verifier::external_body]
pub(crate) fn tracker_finish(tracker: &mut arrow_buffer::NullBufferBuilder) -> (bitmap: Option<
    arrow_buffer::NullBuffer,
>)
    ensures
        tracker_bits(*final(tracker)) == Seq::<bool>::empty(),
        match bitmap {
            Some(b) => bitmap_bits(b) == tracker_bits(*old(tracker)),
            None => all_valid(tracker_bits(*old(tracker))),
        },
{
    tracker.finish()
}

/// `NullBufferBuilder::finish_cloned`: the same bitmap as `finish` would hand
/// out, from a tracker that is only read.
#[verifier::external_body]
pub(crate) fn tracker_finish_cloned(tracker: &arrow_buffer::NullBufferBuilder) -> (bitmap: Option<
    arrow_buffer::NullBuffer,
>)
    ensures
        match bitmap {
            Some(b) => bitmap_bits(b) == tracker_bits(*tracker),
            None => all_valid(tracker_bits(*tracker)),
        },
{
    tracker.finish_cloned()
}

/// `NullBuffer::null_count`: the number of cleared bits, which the crate
/// counts when the bitmap is made.
#[verifier::external_body]
pub(crate) fn bitmap_null_count(bitmap: &arrow_buffer::NullBuffer) -> (n: usize)
    ensures
        n == count_nulls(bitmap_bits(*bitmap)),
{
    bitmap.null_count()
}

/// `NullBuffer::is_null`: whether the bit at `row` is cleared. The crate
/// panics on an index past the end.
#[verifier::external_body]
pub(crate) fn bitmap_is_null(bitmap: &arrow_buffer::NullBuffer, row: usize) -> (null: bool)
    requires
        row < bitmap_bits(*bitmap).len(),
    ensures
        null == !bitmap_bits(*bitmap)[row as int],
{
    bitmap.is_null(row)
}

} // verus!

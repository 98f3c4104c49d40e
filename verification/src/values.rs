//! Finished child arrays, carried as `arrow_data::ArrayData`, and the
//! interface of the builders that produce them.

use vstd::prelude::*;

verus! {

#[verifier::external_type_specification]
#[verifier::external_body]
pub struct ExArrayData(arrow_data::ArrayData);

/// The validity of each slot of a child array, in order; `true` marks a slot
/// that holds a value. What the slots hold stays inside the array.
pub uninterp spec fn array_slots(array: arrow_data::ArrayData) -> Seq<bool>;

/// The element type that a child array was made with.
pub uninterp spec fn array_type(array: arrow_data::ArrayData) -> arrow_schema::DataType;

/// `ArrayData::len`: the number of slots.
#[verifier::external_body]
pub(crate) fn array_len(array: &arrow_data::ArrayData) -> (n: usize)
    ensures
        n == array_slots(*array).len(),
{
    array.len()
}

/// `ArrayData::null_count`: the number of slots whose validity bit is
/// cleared; an array without a bitmap has none.
#[verifier::external_body]
pub(crate) fn array_null_count(array: &arrow_data::ArrayData) -> (n: usize)
    ensures
        n == crate::validity::count_nulls(array_slots(*array)),
{
    array.null_count()
}

/// `ArrayData::data_type`: the element type kept in the array.
#[verifier::external_body]
pub(crate) fn array_data_type(array: &arrow_data::ArrayData) -> (data_type:
    &arrow_schema::DataType)
    ensures
        *data_type == array_type(*array),
{
    array.data_type()
}

/// `ArrayData::slice`: the `length` slots from `offset` on, of the same
/// element type. The crate panics where the range overflows or passes the
/// end of the array.
#[verifier::external_body]
pub(crate) fn array_slice(array: &arrow_data::ArrayData, offset: usize, length: usize) -> (part:
    arrow_data::ArrayData)
    requires
        offset + length <= array_slots(*array).len(),
    ensures
        array_slots(part) == array_slots(*array).subrange(offset as int, offset + length),
        array_type(part) == array_type(*array),
{
    array.slice(offset, length)
}

/// A builder of child arrays: it accumulates a flat sequence of slots and
/// hands them out as one array, either emptying itself or staying as it is.
pub trait ArrayBuilder {
    /// The validity of each slot appended since the builder was made or last
    /// finished, oldest first. An implementation that is to be reasoned about
    /// says what this is; left as it stands, nothing is known of it.
    open spec fn slots(&self) -> Seq<bool> {
        arbitrary()
    }

    /// The element type of the arrays that this builder produces; it stays
    /// the same for the life of the builder. As with `slots`, an
    /// implementation says what it is.
    open spec fn element_type(&self) -> arrow_schema::DataType {
        arbitrary()
    }

    /// The number of slots appended so far.
    fn len(&self) -> (n: usize)
        ensures
            n == self.slots().len(),
    ;

    /// Hands out the slots appended so far and leaves the builder empty.
    fn finish(&mut self) -> (array: arrow_data::ArrayData)
        ensures
            array_slots(array) == old(self).slots(),
            array_type(array) == old(self).element_type(),
            final(self).slots() == Seq::<bool>::empty(),
            final(self).element_type() == old(self).element_type(),
    ;

    /// Hands out the slots appended so far and keeps them.
    fn finish_cloned(&self) -> (array: arrow_data::ArrayData)
        ensures
            array_slots(array) == self.slots(),
            array_type(array) == self.element_type(),
    ;
}

} // verus!

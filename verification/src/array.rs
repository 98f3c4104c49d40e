//! The finished list: rows of equal length over one child array.

use crate::field::{clone_type, Field, FieldView};
use crate::validity::{
    all_valid, bitmap_bits, bitmap_is_null, bitmap_null_count, count_nulls, lemma_count_nulls_zero,
};
use crate::values::{array_slice, array_slots, array_type};
use vstd::prelude::*;

verus! {

/// What a [`FixedSizeListArray`] holds, as plain values.
#[verifier::ext_equal]
pub struct FixedSizeListView {
    /// The descriptor of the child values.
    pub field: FieldView,
    /// The number of child slots that each row spans.
    pub list_len: int,
    /// One bit per row; `true` marks a row that is not null.
    pub validity: Seq<bool>,
    /// The child array.
    pub values: arrow_data::ArrayData,
}

impl FixedSizeListView {
    /// The number of rows.
    pub open spec fn row_count(self) -> nat {
        self.validity.len()
    }

    /// The validity of each child slot.
    pub open spec fn slots(self) -> Seq<bool> {
        array_slots(self.values)
    }

    /// The invariants of a finished list: rows have a positive length, the
    /// child array holds exactly the slots of all rows, it has the type that
    /// the descriptor declares, and it holds no null where the descriptor
    /// rules them out.
    pub open spec fn well_formed(self) -> bool {
        &&& self.list_len > 0
        &&& self.slots().len() == self.row_count() * self.list_len
        &&& self.field.data_type == array_type(self.values)
        &&& !self.field.nullable ==> all_valid(self.slots())
    }

    /// The index of the first child slot of `row`.
    pub open spec fn value_offset(self, row: int) -> int {
        row * self.list_len
    }

    /// Whether `row` is null.
    pub open spec fn is_null(self, row: int) -> bool {
        !self.validity[row]
    }

    /// The validity of the child slots of `row`.
    pub open spec fn row_slots(self, row: int) -> Seq<bool> {
        self.slots().subrange(self.value_offset(row), self.value_offset(row + 1))
    }
}

/// A sequence of `len` set bits.
pub open spec fn all_set(len: nat) -> Seq<bool> {
    Seq::new(len, |i: int| true)
}

/// Bits that are all set are the sequence of that many set bits.
pub proof fn lemma_all_set(bits: Seq<bool>)
    requires
        all_valid(bits),
    ensures
        bits == all_set(bits.len()),
{
}

/// An immutable array of lists that all have the same length.
#[derive(Debug)]
pub struct FixedSizeListArray {
    field: Field,
    value_length: i32,
    values: arrow_data::ArrayData,
    nulls: Option<arrow_buffer::NullBuffer>,
    len: usize,
}

impl View for FixedSizeListArray {
    type V = FixedSizeListView;

    closed spec fn view(&self) -> FixedSizeListView {
        FixedSizeListView {
            field: self.field@,
            list_len: self.value_length as int,
            validity: match self.nulls {
                Some(bitmap) => bitmap_bits(bitmap),
                None => all_set(self.len as nat),
            },
            values: self.values,
        }
    }
}

impl FixedSizeListArray {
    #[verifier::type_invariant]
    spec fn inv(self) -> bool {
        &&& self@.row_count() == self.len
        &&& self@.slots().len() <= usize::MAX
        &&& self@.well_formed()
    }

    /// Puts a list together from parts that were checked before: nothing is
    /// validated here, the invariants are the caller's to prove.
    pub(crate) fn assemble(
        field: Field,
        value_length: i32,
        values: arrow_data::ArrayData,
        nulls: Option<arrow_buffer::NullBuffer>,
        len: usize,
    ) -> (array: FixedSizeListArray)
        requires
            value_length > 0,
            array_slots(values).len() == len * value_length,
            array_slots(values).len() <= usize::MAX,
            field@.data_type == array_type(values),
            !field@.nullable ==> all_valid(array_slots(values)),
            match nulls {
                Some(bitmap) => bitmap_bits(bitmap).len() == len,
                None => true,
            },
        ensures
            array@.field == field@,
            array@.list_len == value_length,
            array@.values == values,
            array@.row_count() == len,
            array@.validity == match nulls {
                Some(bitmap) => bitmap_bits(bitmap),
                None => all_set(len as nat),
            },
            array@.well_formed(),
    {
        FixedSizeListArray { field, value_length, values, nulls, len }
    }

    /// The number of rows.
    pub fn len(&self) -> (n: usize)
        ensures
            n == self@.row_count(),
            self@.well_formed(),
    {
        proof {
            use_type_invariant(self);
        }
        self.len
    }

    /// Whether the list has no row.
    pub fn is_empty(&self) -> (empty: bool)
        ensures
            empty == (self@.row_count() == 0),
    {
        proof {
            use_type_invariant(self);
        }
        self.len == 0
    }

    /// The number of child slots that each row spans.
    pub fn value_length(&self) -> (n: i32)
        ensures
            n == self@.list_len,
            n > 0,
    {
        proof {
            use_type_invariant(self);
        }
        self.value_length
    }

    /// The descriptor of the child values.
    pub fn field(&self) -> (field: &Field)
        ensures
            field@ == self@.field,
    {
        &self.field
    }

    /// The type of the child values.
    pub fn value_type(&self) -> (data_type: arrow_schema::DataType)
        ensures
            data_type == self@.field.data_type,
            data_type == array_type(self@.values),
    {
        proof {
            use_type_invariant(self);
        }
        clone_type(self.field.data_type())
    }

    /// The child array, which holds the slots of all rows one after another.
    pub fn values(&self) -> (values: &arrow_data::ArrayData)
        ensures
            *values == self@.values,
    {
        &self.values
    }

    /// The validity bitmap, where one was made; without one every row is
    /// valid.
    pub fn nulls(&self) -> (nulls: Option<&arrow_buffer::NullBuffer>)
        ensures
            match nulls {
                Some(bitmap) => bitmap_bits(*bitmap) == self@.validity,
                None => self@.validity == all_set(self@.row_count()),
            },
    {
        proof {
            use_type_invariant(self);
        }
        self.nulls.as_ref()
    }

    /// The index of the first child slot of `row`.
    pub fn value_offset(&self, row: usize) -> (offset: usize)
        requires
            row < self@.row_count(),
        ensures
            offset == self@.value_offset(row as int),
            offset + self@.list_len <= self@.slots().len(),
    {
        proof {
            use_type_invariant(self);
            lemma_row_in_bounds(row as int, self.len as int, self.value_length as int);
        }
        row * (self.value_length as usize)
    }

    /// The child slots of `row`, as an array of their own.
    pub fn value(&self, row: usize) -> (part: arrow_data::ArrayData)
        requires
            row < self@.row_count(),
        ensures
            array_slots(part) == self@.row_slots(row as int),
            array_slots(part).len() == self@.list_len,
            array_type(part) == array_type(self@.values),
    {
        proof {
            use_type_invariant(self);
            lemma_row_in_bounds(row as int, self.len as int, self.value_length as int);
        }
        let offset = self.value_offset(row);
        array_slice(&self.values, offset, self.value_length as usize)
    }

    /// Whether `row` is null.
    pub fn is_null(&self, row: usize) -> (null: bool)
        requires
            row < self@.row_count(),
        ensures
            null == self@.is_null(row as int),
    {
        proof {
            use_type_invariant(self);
        }
        match &self.nulls {
            Some(bitmap) => bitmap_is_null(bitmap, row),
            None => false,
        }
    }

    /// Whether `row` is not null.
    pub fn is_valid(&self, row: usize) -> (valid: bool)
        requires
            row < self@.row_count(),
        ensures
            valid == !self@.is_null(row as int),
    {
        !self.is_null(row)
    }

    /// The number of null rows.
    pub fn null_count(&self) -> (n: usize)
        ensures
            n == count_nulls(self@.validity),
    {
        match &self.nulls {
            Some(bitmap) => bitmap_null_count(bitmap),
            None => {
                proof {
                    lemma_count_nulls_zero(all_set(self.len as nat));
                }
                0
            },
        }
    }

    /// Takes the list apart: descriptor, row length, child array, bitmap.
    pub fn into_parts(self) -> (parts: (
        Field,
        i32,
        arrow_data::ArrayData,
        Option<arrow_buffer::NullBuffer>,
    ))
        ensures
            parts.0@ == self@.field,
            parts.1 == self@.list_len,
            parts.2 == self@.values,
            match parts.3 {
                Some(bitmap) => bitmap_bits(bitmap) == self@.validity,
                None => self@.validity == all_set(self@.row_count()),
            },
    {
        proof {
            use_type_invariant(&self);
        }
        (self.field, self.value_length, self.values, self.nulls)
    }
}

/// The slots of a row lie inside the slots of all rows.
pub proof fn lemma_row_in_bounds(row: int, rows: int, list_len: int)
    requires
        0 <= row < rows,
        0 < list_len,
    ensures
        0 <= row * list_len,
        (row + 1) * list_len == row * list_len + list_len,
        (row + 1) * list_len <= rows * list_len,
{
    assert(0 <= row * list_len) by (nonlinear_arith)
        requires
            0 <= row,
            0 < list_len,
    ;
    assert((row + 1) * list_len == row * list_len + list_len) by (nonlinear_arith);
    assert((row + 1) * list_len <= rows * list_len) by (nonlinear_arith)
        requires
            row + 1 <= rows,
            0 < list_len,
    ;
}

} // verus!

//! The builder of fixed-size list arrays.

use crate::array::{lemma_all_set, FixedSizeListArray, FixedSizeListView};
use crate::error::BuildError;
use crate::field::{clone_type, same_type, Field, FieldView};
use crate::model::{length_ok, nulls_ok, resolved_field, type_ok, BuilderView};
use crate::validity::{
    lemma_count_nulls_zero, tracker_append, tracker_bits, tracker_finish, tracker_finish_cloned,
    tracker_len, tracker_new,
};
use crate::values::{
    array_data_type, array_len, array_null_count, array_slots, array_type, ArrayBuilder,
};
use vstd::prelude::*;

verus! {

/// What a descriptor that may be absent says.
pub open spec fn field_view(field: Option<Field>) -> Option<FieldView> {
    match field {
        Some(f) => Some(f@),
        None => None,
    }
}

/// What a finished list, or the error in its place, says.
pub open spec fn result_view(result: Result<FixedSizeListArray, BuildError>) -> Result<
    FixedSizeListView,
    BuildError,
> {
    match result {
        Ok(list) => Ok(list@),
        Err(e) => Err(e),
    }
}

/// Holds a child array against the number of rows: it must have
/// `row_count * list_len` slots.
pub fn check_length(values: &arrow_data::ArrayData, row_count: usize, list_len: i32) -> (checked:
    Result<(), BuildError>)
    requires
        list_len > 0,
    ensures
        array_slots(*values).len() <= usize::MAX,
        match checked {
            Ok(()) => length_ok(row_count as nat, list_len as int, array_slots(*values).len()),
            Err(BuildError::LengthMismatch { actual, list_len: each, row_count: rows }) => {
                &&& !length_ok(row_count as nat, list_len as int, array_slots(*values).len())
                &&& actual == array_slots(*values).len()
                &&& each == list_len
                &&& rows == row_count
            },
            Err(_) => false,
        },
{
    let actual = array_len(values);
    match row_count.checked_mul(list_len as usize) {
        Some(expected) if expected == actual => Ok(()),
        _ => Err(BuildError::LengthMismatch { actual, list_len, row_count }),
    }
}

/// Settles the descriptor of a list over the child array `values`: a given
/// one must declare the type of the array and, where it rules out nulls,
/// meet none in it; without one the default descriptor is made.
pub fn resolve_field(field: &Option<Field>, values: &arrow_data::ArrayData) -> (resolved: Result<
    Field,
    BuildError,
>)
    ensures
        match resolved {
            Ok(f) => {
                &&& type_ok(field_view(*field), array_type(*values))
                &&& nulls_ok(field_view(*field), array_slots(*values))
                &&& f@ == resolved_field(field_view(*field), array_type(*values))
            },
            Err(BuildError::TypeMismatch { declared, found }) => {
                &&& field_view(*field) matches Some(f)
                &&& f.data_type != array_type(*values)
                &&& declared == f.data_type
                &&& found == array_type(*values)
            },
            Err(BuildError::NullabilityViolation) => {
                &&& type_ok(field_view(*field), array_type(*values))
                &&& !nulls_ok(field_view(*field), array_slots(*values))
            },
            Err(BuildError::LengthMismatch { .. }) => false,
        },
{
    let found = array_data_type(values);
    match field {
        Some(f) => {
            if !same_type(f.data_type(), found) {
                return Err(
                    BuildError::TypeMismatch {
                        declared: clone_type(f.data_type()),
                        found: clone_type(found),
                    },
                );
            }
            if !f.is_nullable() {
                proof {
                    lemma_count_nulls_zero(array_slots(*values));
                }
                if array_null_count(values) != 0 {
                    return Err(BuildError::NullabilityViolation);
                }
            }
            Ok(f.clone())
        },
        None => Ok(Field::new("item", clone_type(found), true)),
    }
}

/// The length of every row: a positive number, fixed when the builder is
/// made.
#[derive(Debug)]
struct ListLen {
    n: i32,
}

impl ListLen {
    #[verifier::type_invariant]
    spec fn inv(self) -> bool {
        self.n > 0
    }

    fn new(n: i32) -> (len: ListLen)
        requires
            n > 0,
        ensures
            len.n == n,
    {
        ListLen { n }
    }

    fn get(&self) -> (n: i32)
        ensures
            n == self.n,
            n > 0,
    {
        proof {
            use_type_invariant(self);
        }
        self.n
    }
}

/// Builds a [`FixedSizeListArray`] row by row. The child values of a row are
/// appended to the child builder, reached through [`Self::values`]; then
/// [`Self::append`] closes the row.
#[derive(Debug)]
pub struct FixedSizeListBuilder<T: ArrayBuilder> {
    null_buffer_builder: arrow_buffer::NullBufferBuilder,
    values_builder: T,
    list_len: ListLen,
    field: Option<Field>,
}

impl<T: ArrayBuilder> View for FixedSizeListBuilder<T> {
    type V = BuilderView;

    closed spec fn view(&self) -> BuilderView {
        BuilderView {
            rows: tracker_bits(self.null_buffer_builder),
            slots: self.values_builder.slots(),
            element_type: self.values_builder.element_type(),
            list_len: self.list_len.n as int,
            field: field_view(self.field),
        }
    }
}

impl<T: ArrayBuilder> FixedSizeListBuilder<T> {
    /// The child builder.
    pub closed spec fn child(&self) -> T {
        self.values_builder
    }

    /// A builder without rows over `values_builder`, for lists of
    /// `value_length` child values each.
    pub fn new(values_builder: T, value_length: i32) -> (builder: Self)
        requires
            value_length > 0,
        ensures
            builder.child() == values_builder,
            builder@ == (BuilderView {
                rows: Seq::empty(),
                slots: values_builder.slots(),
                element_type: values_builder.element_type(),
                list_len: value_length as int,
                field: None,
            }),
    {
        let capacity = values_builder.len() / (value_length as usize);
        Self::with_capacity(values_builder, value_length, capacity)
    }

    /// As [`Self::new`], with room for `capacity` rows asked of the validity
    /// tracker.
    pub fn with_capacity(values_builder: T, value_length: i32, capacity: usize) -> (builder: Self)
        requires
            value_length > 0,
        ensures
            builder.child() == values_builder,
            builder@ == (BuilderView {
                rows: Seq::empty(),
                slots: values_builder.slots(),
                element_type: values_builder.element_type(),
                list_len: value_length as int,
                field: None,
            }),
    {
        FixedSizeListBuilder {
            null_buffer_builder: tracker_new(capacity),
            values_builder,
            list_len: ListLen::new(value_length),
            field: None,
        }
    }

    /// Sets the descriptor that the finished child array is held against, in
    /// place of the default one.
    pub fn with_field(self, field: Field) -> (builder: Self)
        ensures
            builder.child() == self.child(),
            builder@ == self@.with_field(field@),
    {
        FixedSizeListBuilder {
            null_buffer_builder: self.null_buffer_builder,
            values_builder: self.values_builder,
            list_len: self.list_len,
            field: Some(field),
        }
    }

    /// The child builder, to append the child values of the next row to.
    /// Nothing else of the list builder changes while it is borrowed.
    pub fn values(&mut self) -> (child: &mut T)
        ensures
            *child == old(self).child(),
            child.slots() == old(self)@.slots,
            child.element_type() == old(self)@.element_type,
            final(self).child() == *final(child),
            final(self)@ == (BuilderView {
                slots: final(child).slots(),
                element_type: final(child).element_type(),
                ..old(self)@
            }),
    {
        &mut self.values_builder
    }

    /// The number of child slots that each row spans.
    pub fn value_length(&self) -> (n: i32)
        ensures
            n == self@.list_len,
            n > 0,
    {
        self.list_len.get()
    }

    /// The number of rows delimited so far.
    pub fn len(&self) -> (n: usize)
        ensures
            n == self@.rows.len(),
    {
        tracker_len(&self.null_buffer_builder)
    }

    /// Whether no row was delimited yet.
    pub fn is_empty(&self) -> (empty: bool)
        ensures
            empty == (self@.rows.len() == 0),
    {
        self.len() == 0
    }

    /// Closes the current row and records whether it is valid.
    pub fn append(&mut self, is_valid: bool)
        requires
            old(self)@.rows.len() < usize::MAX,
        ensures
            final(self).child() == old(self).child(),
            final(self)@ == old(self)@.append(is_valid),
    {
        tracker_append(&mut self.null_buffer_builder, is_valid);
    }

    /// Finishes the list and empties the builder. The child array must hold
    /// `len() * value_length()` slots and meet the descriptor, if one was
    /// set; else the first violation found is returned and no list exists.
    pub fn finish(&mut self) -> (result: Result<FixedSizeListArray, BuildError>)
        ensures
            old(self)@.yields(result_view(result)),
            final(self)@ == old(self)@.after_finish(),
    {
        let list_len = self.list_len.get();
        let len = tracker_len(&self.null_buffer_builder);
        let values = self.values_builder.finish();
        match check_length(&values, len, list_len) {
            Ok(()) => {},
            Err(e) => {
                return Err(e);
            },
        }
        let nulls = tracker_finish(&mut self.null_buffer_builder);
        match resolve_field(&self.field, &values) {
            Ok(field) => {
                let list = FixedSizeListArray::assemble(field, list_len, values, nulls, len);
                proof {
                    if nulls is None {
                        lemma_all_set(old(self)@.rows);
                    }
                }
                Ok(list)
            },
            Err(e) => Err(e),
        }
    }

    /// Finishes a list from the current state and leaves the builder as it
    /// is, so that rows can be added and a longer list finished later.
    pub fn finish_cloned(&self) -> (result: Result<FixedSizeListArray, BuildError>)
        ensures
            self@.yields(result_view(result)),
    {
        let list_len = self.list_len.get();
        let len = tracker_len(&self.null_buffer_builder);
        let values = self.values_builder.finish_cloned();
        match check_length(&values, len, list_len) {
            Ok(()) => {},
            Err(e) => {
                return Err(e);
            },
        }
        let nulls = tracker_finish_cloned(&self.null_buffer_builder);
        match resolve_field(&self.field, &values) {
            Ok(field) => {
                let list = FixedSizeListArray::assemble(field, list_len, values, nulls, len);
                proof {
                    if nulls is None {
                        lemma_all_set(self@.rows);
                    }
                }
                Ok(list)
            },
            Err(e) => Err(e),
        }
    }
}

} // verus!

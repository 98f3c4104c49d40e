//! The state of a list builder as plain values, and what finishing makes of
//! it.

use crate::array::FixedSizeListView;
use crate::error::BuildError;
use crate::field::{default_field, FieldView};
use crate::validity::all_valid;
use crate::values::{array_slots, array_type};
use vstd::prelude::*;

verus! {

/// The child array holds exactly the slots of `rows` rows.
pub open spec fn length_ok(rows: nat, list_len: int, slots: nat) -> bool {
    slots == rows * list_len
}

/// A given descriptor declares the type that the child values have.
pub open spec fn type_ok(field: Option<FieldView>, element_type: arrow_schema::DataType) -> bool {
    match field {
        Some(f) => f.data_type == element_type,
        None => true,
    }
}

/// A given descriptor that rules out nulls meets no null among the slots.
pub open spec fn nulls_ok(field: Option<FieldView>, slots: Seq<bool>) -> bool {
    match field {
        Some(f) => f.nullable || all_valid(slots),
        None => true,
    }
}

/// The descriptor of the finished list: the given one, else the default for
/// the type of the child values.
pub open spec fn resolved_field(
    field: Option<FieldView>,
    element_type: arrow_schema::DataType,
) -> FieldView {
    match field {
        Some(f) => f,
        None => default_field(element_type),
    }
}

/// What a list builder holds, as plain values.
#[verifier::ext_equal]
pub struct BuilderView {
    /// The validity of each row delimited since the builder was made or last
    /// finished.
    pub rows: Seq<bool>,
    /// The validity of each slot that the child builder holds.
    pub slots: Seq<bool>,
    /// The element type of the child builder.
    pub element_type: arrow_schema::DataType,
    /// The number of child slots that each row spans.
    pub list_len: int,
    /// The descriptor to check the child values against, if one was given.
    pub field: Option<FieldView>,
}

impl BuilderView {
    /// The builder after one more row was delimited.
    pub open spec fn append(self, is_valid: bool) -> BuilderView {
        BuilderView { rows: self.rows.push(is_valid), ..self }
    }

    /// The builder after one row was delimited for each flag, in order.
    pub open spec fn appended(self, flags: Seq<bool>) -> BuilderView
        decreases flags.len(),
    {
        if flags.len() == 0 {
            self
        } else {
            self.appended(flags.drop_last()).append(flags.last())
        }
    }

    /// The builder with another content of its child builder.
    pub open spec fn with_slots(self, slots: Seq<bool>) -> BuilderView {
        BuilderView { slots, ..self }
    }

    /// The builder with a descriptor to check against.
    pub open spec fn with_field(self, field: FieldView) -> BuilderView {
        BuilderView { field: Some(field), ..self }
    }

    /// Finishing succeeds: no invariant of the list would be violated.
    pub open spec fn buildable(self) -> bool {
        &&& length_ok(self.rows.len(), self.list_len, self.slots.len())
        &&& type_ok(self.field, self.element_type)
        &&& nulls_ok(self.field, self.slots)
    }

    /// The list that finishing yields around the child array `values`.
    pub open spec fn finished(self, values: arrow_data::ArrayData) -> FixedSizeListView {
        FixedSizeListView {
            field: resolved_field(self.field, self.element_type),
            list_len: self.list_len,
            validity: self.rows,
            values,
        }
    }

    /// `result` is what finishing yields: a list around the slots held, or
    /// the first invariant that they violate, checked in the order length,
    /// type, nulls.
    pub open spec fn yields(self, result: Result<FixedSizeListView, BuildError>) -> bool {
        match result {
            Ok(list) => {
                &&& self.buildable()
                &&& list == self.finished(list.values)
                &&& array_slots(list.values) == self.slots
                &&& array_type(list.values) == self.element_type
            },
            Err(BuildError::LengthMismatch { actual, list_len, row_count }) => {
                &&& !length_ok(self.rows.len(), self.list_len, self.slots.len())
                &&& actual == self.slots.len()
                &&& list_len == self.list_len
                &&& row_count == self.rows.len()
            },
            Err(BuildError::TypeMismatch { declared, found }) => {
                &&& length_ok(self.rows.len(), self.list_len, self.slots.len())
                &&& self.field matches Some(f)
                &&& f.data_type != self.element_type
                &&& declared == f.data_type
                &&& found == self.element_type
            },
            Err(BuildError::NullabilityViolation) => {
                &&& length_ok(self.rows.len(), self.list_len, self.slots.len())
                &&& type_ok(self.field, self.element_type)
                &&& !nulls_ok(self.field, self.slots)
            },
        }
    }

    /// The builder after a finish that consumed its state. The child builder
    /// is emptied first; the rows are only taken once the length was found
    /// right.
    pub open spec fn after_finish(self) -> BuilderView {
        BuilderView {
            rows: if length_ok(self.rows.len(), self.list_len, self.slots.len()) {
                Seq::empty()
            } else {
                self.rows
            },
            slots: Seq::empty(),
            ..self
        }
    }
}

/// Delimiting rows adds one validity bit per flag, in order, behind the rows
/// already there, and touches nothing else.
pub proof fn lemma_appended(state: BuilderView, flags: Seq<bool>)
    ensures
        state.appended(flags) == (BuilderView { rows: state.rows + flags, ..state }),
    decreases flags.len(),
{
    if flags.len() == 0 {
        assert(state.rows + flags =~= state.rows);
    } else {
        lemma_appended(state, flags.drop_last());
        assert((state.rows + flags.drop_last()).push(flags.last()) =~= state.rows + flags);
    }
}

/// Every list that finishing yields meets the invariants of a finished list.
pub proof fn lemma_finished_is_well_formed(state: BuilderView, list: FixedSizeListView)
    requires
        state.list_len > 0,
        state.yields(Ok(list)),
    ensures
        list.well_formed(),
{
}

/// Finishing succeeds exactly on a state without violation; on any other it
/// names the first violation in the order length, type, nulls.
pub proof fn lemma_yields_decides(state: BuilderView, result: Result<FixedSizeListView, BuildError>)
    requires
        state.yields(result),
    ensures
        result is Ok <==> state.buildable(),
        result matches Err(BuildError::LengthMismatch { .. }) <==> !length_ok(
            state.rows.len(),
            state.list_len,
            state.slots.len(),
        ),
        result matches Err(BuildError::TypeMismatch { .. }) <==> length_ok(
            state.rows.len(),
            state.list_len,
            state.slots.len(),
        ) && !type_ok(state.field, state.element_type),
        result matches Err(BuildError::NullabilityViolation) <==> length_ok(
            state.rows.len(),
            state.list_len,
            state.slots.len(),
        ) && type_ok(state.field, state.element_type) && !nulls_ok(state.field, state.slots),
{
}

/// A builder without rows, after one `append` per flag and with child slots
/// for as many rows, never fails on the length, and the list it yields has
/// one row per `append`, null exactly where the flag was `false`.
pub proof fn lemma_rows_follow_appends(
    start: BuilderView,
    flags: Seq<bool>,
    slots: Seq<bool>,
    result: Result<FixedSizeListView, BuildError>,
)
    requires
        start.rows.len() == 0,
        slots.len() == flags.len() * start.list_len,
        start.appended(flags).with_slots(slots).yields(result),
    ensures
        !(result matches Err(BuildError::LengthMismatch { .. })),
        result matches Ok(list) ==> {
            &&& list.row_count() == flags.len()
            &&& list.validity == flags
            &&& forall|row: int| 0 <= row < flags.len() ==> list.is_null(row) == !flags[row]
        },
{
    lemma_appended(start, flags);
    assert(start.rows + flags =~= flags);
}

/// The offset of a row is the row's index times the row length, and the
/// rows of a well-formed list lie one behind the other inside the child
/// array.
pub proof fn lemma_value_offset(list: FixedSizeListView, row: int)
    requires
        list.well_formed(),
        0 <= row < list.row_count(),
    ensures
        list.value_offset(row) == row * list.list_len,
        0 <= list.value_offset(row),
        list.value_offset(row + 1) == list.value_offset(row) + list.list_len,
        list.value_offset(row + 1) <= list.slots().len(),
        list.row_slots(row).len() == list.list_len,
{
    crate::array::lemma_row_in_bounds(row, list.row_count() as int, list.list_len);
}

/// A snapshot stays a prefix: where rows and child slots are only added
/// after it was taken, the list finished later starts with the rows of the
/// snapshot, each with the same validity, offset and child slots.
pub proof fn lemma_snapshot_is_prefix(
    at_snapshot: BuilderView,
    flags: Seq<bool>,
    more_slots: Seq<bool>,
    snapshot: FixedSizeListView,
    list: FixedSizeListView,
)
    requires
        at_snapshot.list_len > 0,
        at_snapshot.yields(Ok(snapshot)),
        at_snapshot.appended(flags).with_slots(at_snapshot.slots + more_slots).yields(Ok(list)),
    ensures
        snapshot.row_count() <= list.row_count(),
        list.row_count() == snapshot.row_count() + flags.len(),
        list.list_len == snapshot.list_len,
        list.field == snapshot.field,
        forall|row: int|
            0 <= row < snapshot.row_count() ==> {
                &&& list.is_null(row) == snapshot.is_null(row)
                &&& list.value_offset(row) == snapshot.value_offset(row)
                &&& #[trigger] list.row_slots(row) == snapshot.row_slots(row)
            },
{
    lemma_appended(at_snapshot, flags);
    lemma_finished_is_well_formed(at_snapshot, snapshot);
    assert forall|row: int| 0 <= row < snapshot.row_count() implies {
        &&& list.is_null(row) == snapshot.is_null(row)
        &&& list.value_offset(row) == snapshot.value_offset(row)
        &&& #[trigger] list.row_slots(row) == snapshot.row_slots(row)
    } by {
        lemma_value_offset(snapshot, row);
        assert(list.row_slots(row) =~= snapshot.row_slots(row));
    }
}

/// A finish that succeeded leaves neither rows nor child slots, and a
/// second finish right after it yields a list without rows.
pub proof fn lemma_finish_resets(
    state: BuilderView,
    first: FixedSizeListView,
    second: Result<FixedSizeListView, BuildError>,
)
    requires
        state.yields(Ok(first)),
        state.after_finish().yields(second),
    ensures
        state.after_finish().rows.len() == 0,
        state.after_finish().slots.len() == 0,
        second matches Ok(list) && list.row_count() == 0,
{
    assert(0 * state.list_len == 0) by (nonlinear_arith);
}

} // verus!

use arrow_buffer::{Buffer, NullBufferBuilder};
use arrow_data::ArrayData;
use arrow_schema::DataType;
use fixed_size_list::builder::FixedSizeListBuilder;
use fixed_size_list::error::BuildError;
use fixed_size_list::field::Field;
use fixed_size_list::values::ArrayBuilder;

/// A child builder of 32-bit integers.
struct Int32Builder {
    values: Vec<i32>,
    nulls: NullBufferBuilder,
}

impl Int32Builder {
    fn new() -> Self {
        Self::with_capacity(0)
    }

    fn with_capacity(capacity: usize) -> Self {
        Int32Builder { values: Vec::with_capacity(capacity), nulls: NullBufferBuilder::new(capacity) }
    }

    fn append_value(&mut self, value: i32) {
        self.values.push(value);
        self.nulls.append(true);
    }

    fn append_null(&mut self) {
        self.values.push(0);
        self.nulls.append(false);
    }

    fn append_slice(&mut self, values: &[i32]) {
        for value in values {
            self.append_value(*value);
        }
    }
}

fn int32_array(values: Vec<Option<i32>>) -> ArrayData {
    let mut builder = Int32Builder::new();
    for value in values {
        match value {
            Some(v) => builder.append_value(v),
            None => builder.append_null(),
        }
    }
    builder.finish()
}

impl ArrayBuilder for Int32Builder {
    fn len(&self) -> usize {
        self.values.len()
    }

    fn finish(&mut self) -> ArrayData {
        let values = std::mem::take(&mut self.values);
        ArrayData::builder(DataType::Int32)
            .len(values.len())
            .add_buffer(Buffer::from_vec(values))
            .nulls(self.nulls.finish())
            .build()
            .unwrap()
    }

    fn finish_cloned(&self) -> ArrayData {
        ArrayData::builder(DataType::Int32)
            .len(self.values.len())
            .add_buffer(Buffer::from_vec(self.values.clone()))
            .nulls(self.nulls.finish_cloned())
            .build()
            .unwrap()
    }
}

#[test]
fn test_fixed_size_list_array_builder() {
    let values_builder = Int32Builder::new();
    let mut builder = FixedSizeListBuilder::new(values_builder, 3);

    //  [[0, 1, 2], null, [3, null, 5], [6, 7, null]]
    builder.values().append_value(0);
    builder.values().append_value(1);
    builder.values().append_value(2);
    builder.append(true);
    builder.values().append_null();
    builder.values().append_null();
    builder.values().append_null();
    builder.append(false);
    builder.values().append_value(3);
    builder.values().append_null();
    builder.values().append_value(5);
    builder.append(true);
    builder.values().append_value(6);
    builder.values().append_value(7);
    builder.values().append_null();
    builder.append(true);
    let list_array = builder.finish().unwrap();

    assert_eq!(DataType::Int32, list_array.value_type());
    assert_eq!(4, list_array.len());
    assert_eq!(1, list_array.null_count());
    assert_eq!(6, list_array.value_offset(2));
    assert_eq!(3, list_array.value_length());
}

#[test]
fn test_fixed_size_list_array_builder_with_field() {
    let values_builder = Int32Builder::new();
    let mut builder = FixedSizeListBuilder::new(values_builder, 3).with_field(Field::new(
        "list_element",
        DataType::Int32,
        true,
    ));

    //  [[0, 1, 2], null, [3, null, 5], [6, 7, null]]
    builder.values().append_value(0);
    builder.values().append_value(1);
    builder.values().append_value(2);
    builder.append(true);
    builder.values().append_null();
    builder.values().append_null();
    builder.values().append_null();
    builder.append(false);
    builder.values().append_value(3);
    builder.values().append_null();
    builder.values().append_value(5);
    builder.append(true);
    builder.values().append_value(6);
    builder.values().append_value(7);
    builder.values().append_null();
    builder.append(true);
    let list_array = builder.finish().unwrap();

    assert_eq!(DataType::Int32, list_array.value_type());
    assert_eq!(4, list_array.len());
    assert_eq!(1, list_array.null_count());
    assert_eq!(6, list_array.value_offset(2));
    assert_eq!(3, list_array.value_length());
}

#[test]
fn test_fixed_size_list_array_builder_cloned_with_field() {
    let values_builder = Int32Builder::new();
    let mut builder = FixedSizeListBuilder::new(values_builder, 3).with_field(Field::new(
        "list_element",
        DataType::Int32,
        true,
    ));

    //  [[0, 1, 2], null, [3, null, 5], [6, 7, null]]
    builder.values().append_value(0);
    builder.values().append_value(1);
    builder.values().append_value(2);
    builder.append(true);
    builder.values().append_null();
    builder.values().append_null();
    builder.values().append_null();
    builder.append(false);
    builder.values().append_value(3);
    builder.values().append_null();
    builder.values().append_value(5);
    builder.append(true);
    builder.values().append_value(6);
    builder.values().append_value(7);
    builder.values().append_null();
    builder.append(true);
    let list_array = builder.finish_cloned().unwrap();

    assert_eq!(DataType::Int32, list_array.value_type());
    assert_eq!(4, list_array.len());
    assert_eq!(1, list_array.null_count());
    assert_eq!(6, list_array.value_offset(2));
    assert_eq!(3, list_array.value_length());
}

#[test]
fn test_fixed_size_list_array_builder_finish_cloned() {
    let values_builder = Int32Builder::new();
    let mut builder = FixedSizeListBuilder::new(values_builder, 3);

    //  [[0, 1, 2], null, [3, null, 5], [6, 7, null]]
    builder.values().append_value(0);
    builder.values().append_value(1);
    builder.values().append_value(2);
    builder.append(true);
    builder.values().append_null();
    builder.values().append_null();
    builder.values().append_null();
    builder.append(false);
    builder.values().append_value(3);
    builder.values().append_null();
    builder.values().append_value(5);
    builder.append(true);
    let mut list_array = builder.finish_cloned().unwrap();

    assert_eq!(DataType::Int32, list_array.value_type());
    assert_eq!(3, list_array.len());
    assert_eq!(1, list_array.null_count());
    assert_eq!(3, list_array.value_length());

    builder.values().append_value(6);
    builder.values().append_value(7);
    builder.values().append_null();
    builder.append(true);
    builder.values().append_null();
    builder.values().append_null();
    builder.values().append_null();
    builder.append(false);
    list_array = builder.finish().unwrap();

    assert_eq!(DataType::Int32, list_array.value_type());
    assert_eq!(5, list_array.len());
    assert_eq!(2, list_array.null_count());
    assert_eq!(6, list_array.value_offset(2));
    assert_eq!(3, list_array.value_length());
}

#[test]
fn test_fixed_size_list_array_builder_empty() {
    let values_builder = Int32Builder::with_capacity(5);
    let mut builder = FixedSizeListBuilder::new(values_builder, 3);
    assert!(builder.is_empty());
    let arr = builder.finish().unwrap();
    assert_eq!(0, arr.len());
    assert_eq!(0, builder.len());
}

#[test]
fn test_fixed_size_list_array_builder_finish() {
    let values_builder = Int32Builder::with_capacity(5);
    let mut builder = FixedSizeListBuilder::new(values_builder, 3);

    builder.values().append_slice(&[1, 2, 3]);
    builder.append(true);
    builder.values().append_slice(&[4, 5, 6]);
    builder.append(true);

    let mut arr = builder.finish().unwrap();
    assert_eq!(2, arr.len());
    assert_eq!(0, builder.len());

    builder.values().append_slice(&[7, 8, 9]);
    builder.append(true);
    arr = builder.finish().unwrap();
    assert_eq!(1, arr.len());
    assert_eq!(0, builder.len());
}

#[test]
fn test_fixed_size_list_array_builder_fail() {
    let values_builder = Int32Builder::with_capacity(5);
    let mut builder = FixedSizeListBuilder::new(values_builder, 3);

    builder.values().append_slice(&[1, 2, 3]);
    builder.append(true);
    builder.values().append_slice(&[4, 5, 6]);
    builder.append(true);
    builder.values().append_slice(&[7, 8, 9, 10]);
    builder.append(true);

    match builder.finish() {
        Err(BuildError::LengthMismatch { actual, list_len, row_count }) => {
            assert_eq!(10, actual);
            assert_eq!(3, list_len);
            assert_eq!(3, row_count);
        }
        _ => panic!("a child array of 10 slots was taken for 3 rows of 3"),
    }
    // the rows stay, the child builder was emptied
    assert_eq!(3, builder.len());
    assert_eq!(0, builder.values().len());
}

#[test]
fn value_hands_out_the_child_slots_of_a_row() {
    let mut builder = FixedSizeListBuilder::new(Int32Builder::new(), 3);
    builder.values().append_slice(&[0, 1, 2]);
    builder.append(true);
    builder.values().append_null();
    builder.values().append_null();
    builder.values().append_null();
    builder.append(false);
    builder.values().append_value(3);
    builder.values().append_null();
    builder.values().append_value(5);
    builder.append(true);
    let list = builder.finish().unwrap();
    assert_eq!(list.value(0), int32_array(vec![Some(0), Some(1), Some(2)]));
    assert_eq!(list.value(2), int32_array(vec![Some(3), None, Some(5)]));
    assert!(list.is_null(1));
    assert!(list.is_valid(0));
}

/// Three rows of three values, the second one null: `[[0, 1, 2], null, [3, null, 5]]`.
fn three_rows(builder: &mut FixedSizeListBuilder<Int32Builder>) {
    builder.values().append_value(0);
    builder.values().append_value(1);
    builder.values().append_value(2);
    builder.append(true);
    builder.values().append_null();
    builder.values().append_null();
    builder.values().append_null();
    builder.append(false);
    builder.values().append_value(3);
    builder.values().append_null();
    builder.values().append_value(5);
    builder.append(true);
}

#[test]
fn test_fixed_size_list_array_builder_with_field_null_panic() {
    let values_builder = Int32Builder::new();
    let builder = FixedSizeListBuilder::new(values_builder, 3);
    let mut builder = builder.with_field(Field::new("list_item", DataType::Int32, false));
    three_rows(&mut builder);

    assert_eq!(builder.finish().unwrap_err(), BuildError::NullabilityViolation);
}

#[test]
fn test_fixed_size_list_array_builder_with_field_type_panic() {
    let values_builder = Int32Builder::new();
    let builder = FixedSizeListBuilder::new(values_builder, 3);
    let mut builder = builder.with_field(Field::new("list_item", DataType::Int64, true));
    three_rows(&mut builder);

    assert_eq!(
        builder.finish().unwrap_err(),
        BuildError::TypeMismatch { declared: DataType::Int64, found: DataType::Int32 }
    );
}

#[test]
fn test_fixed_size_list_array_builder_cloned_with_field_null_panic() {
    let values_builder = Int32Builder::new();
    let builder = FixedSizeListBuilder::new(values_builder, 3);
    let mut builder = builder.with_field(Field::new("list_item", DataType::Int32, false));
    three_rows(&mut builder);

    assert_eq!(builder.finish_cloned().unwrap_err(), BuildError::NullabilityViolation);
}

#[test]
fn test_fixed_size_list_array_builder_cloned_with_field_type_panic() {
    let values_builder = Int32Builder::new();
    let builder = FixedSizeListBuilder::new(values_builder, 3);
    let mut builder = builder.with_field(Field::new("list_item", DataType::Int64, true));
    three_rows(&mut builder);

    assert_eq!(
        builder.finish_cloned().unwrap_err(),
        BuildError::TypeMismatch { declared: DataType::Int64, found: DataType::Int32 }
    );
}

#[test]
fn four_rows_with_one_null() {
    let mut builder = FixedSizeListBuilder::new(Int32Builder::new(), 3);
    three_rows(&mut builder);
    builder.values().append_value(6);
    builder.values().append_value(7);
    builder.values().append_null();
    builder.append(true);
    assert_eq!(4, builder.len());
    assert!(!builder.is_empty());
    assert_eq!(3, builder.value_length());

    let list = builder.finish().unwrap();
    assert_eq!(4, list.len());
    assert!(!list.is_empty());
    assert_eq!(1, list.null_count());
    assert_eq!(vec![false, true, false, false], (0..4).map(|row| list.is_null(row)).collect::<Vec<_>>());
    assert_eq!(vec![true, false, true, true], (0..4).map(|row| list.is_valid(row)).collect::<Vec<_>>());
    assert_eq!(vec![0, 3, 6, 9], (0..4).map(|row| list.value_offset(row)).collect::<Vec<_>>());
    assert_eq!(list.value(0), int32_array(vec![Some(0), Some(1), Some(2)]));
    assert_eq!(list.value(1), int32_array(vec![None, None, None]));
    assert_eq!(list.value(3), int32_array(vec![Some(6), Some(7), None]));
    assert_eq!(12, list.values().len());
    assert_eq!(5, list.values().null_count());
    assert_eq!(4, list.nulls().unwrap().len());
}

#[test]
fn default_descriptor_is_a_nullable_item() {
    let mut builder = FixedSizeListBuilder::new(Int32Builder::new(), 2);
    builder.values().append_slice(&[1, 2]);
    builder.append(true);
    let list = builder.finish().unwrap();
    assert_eq!("item", list.field().name());
    assert!(list.field().is_nullable());
    assert_eq!(&DataType::Int32, list.field().data_type());
    assert_eq!(list.field(), &Field::new("item", DataType::Int32, true));
}

#[test]
fn given_descriptor_is_kept() {
    let mut builder = FixedSizeListBuilder::new(Int32Builder::new(), 2)
        .with_field(Field::new("pair", DataType::Int32, false));
    builder.values().append_slice(&[1, 2]);
    builder.append(true);
    builder.values().append_slice(&[3, 4]);
    builder.append(false);
    let list = builder.finish_cloned().unwrap();
    assert_eq!("pair", list.field().name());
    assert!(!list.field().is_nullable());
    assert_eq!(DataType::Int32, list.value_type());
    assert_eq!(1, list.null_count());
    // the descriptor stays with the builder
    let again = builder.finish().unwrap();
    assert_eq!(again.field(), &Field::new("pair", DataType::Int32, false));
    assert_eq!(2, again.len());
}

#[test]
fn rows_without_null_need_no_bitmap() {
    let mut builder = FixedSizeListBuilder::with_capacity(Int32Builder::new(), 1, 16);
    for value in 0..5 {
        builder.values().append_value(value);
        builder.append(true);
    }
    let list = builder.finish().unwrap();
    assert_eq!(5, list.len());
    assert_eq!(0, list.null_count());
    assert!(list.nulls().is_none());
    assert!(!list.is_null(4));
    assert_eq!(4, list.value_offset(4));
    assert_eq!(list.value(4), int32_array(vec![Some(4)]));
}

#[test]
fn snapshot_is_a_prefix_of_the_later_list() {
    let mut builder = FixedSizeListBuilder::new(Int32Builder::new(), 3);
    three_rows(&mut builder);
    let snapshot = builder.finish_cloned().unwrap();
    assert_eq!(3, builder.len());
    assert_eq!(9, builder.values().len());

    builder.values().append_slice(&[6, 7, 8]);
    builder.append(true);
    builder.values().append_null();
    builder.values().append_null();
    builder.values().append_null();
    builder.append(false);
    let list = builder.finish().unwrap();

    assert_eq!(3, snapshot.len());
    assert_eq!(5, list.len());
    for row in 0..snapshot.len() {
        assert_eq!(snapshot.is_null(row), list.is_null(row));
        assert_eq!(snapshot.value_offset(row), list.value_offset(row));
        assert_eq!(snapshot.value(row), list.value(row));
    }
    assert_eq!(list.value(3), int32_array(vec![Some(6), Some(7), Some(8)]));
    assert!(list.is_null(4));
}

#[test]
fn snapshots_repeat_while_nothing_is_appended() {
    let mut builder = FixedSizeListBuilder::new(Int32Builder::new(), 3);
    three_rows(&mut builder);
    let first = builder.finish_cloned().unwrap();
    let second = builder.finish_cloned().unwrap();
    assert_eq!(first.len(), second.len());
    assert_eq!(first.values(), second.values());
    assert_eq!(first.nulls(), second.nulls());
    assert_eq!(first.field(), second.field());
}

#[test]
fn finish_empties_rows_and_child_builder() {
    let mut builder = FixedSizeListBuilder::new(Int32Builder::new(), 3);
    three_rows(&mut builder);
    let list = builder.finish().unwrap();
    assert_eq!(3, list.len());
    assert_eq!(0, builder.len());
    assert_eq!(0, builder.values().len());

    let next = builder.finish().unwrap();
    assert_eq!(0, next.len());
    assert!(next.is_empty());
    assert_eq!(0, next.null_count());
    assert_eq!(0, next.values().len());
    assert_eq!(3, next.value_length());
}

#[test]
fn rows_count_the_appends_since_the_last_finish() {
    let mut builder = FixedSizeListBuilder::new(Int32Builder::new(), 2);
    let flags = [true, false, false, true, true, false, true];
    for flag in flags {
        builder.values().append_slice(&[1, 2]);
        builder.append(flag);
    }
    let list = builder.finish().unwrap();
    assert_eq!(flags.len(), list.len());
    for (row, flag) in flags.iter().enumerate() {
        assert_eq!(!flag, list.is_null(row));
        assert_eq!(2 * row, list.value_offset(row));
    }
    assert_eq!(3, list.null_count());

    builder.values().append_slice(&[1, 2, 3, 4]);
    builder.append(false);
    builder.append(true);
    let list = builder.finish().unwrap();
    assert_eq!(2, list.len());
    assert!(list.is_null(0));
    assert!(list.is_valid(1));
}

#[test]
fn too_few_child_values_are_a_length_mismatch() {
    let mut builder = FixedSizeListBuilder::new(Int32Builder::new(), 3)
        .with_field(Field::new("list_item", DataType::Int64, false));
    builder.values().append_slice(&[1, 2]);
    builder.values().append_null();
    builder.append(true);
    builder.append(true);
    // the length is looked at first, whatever else is wrong
    assert_eq!(
        builder.finish_cloned().unwrap_err(),
        BuildError::LengthMismatch { actual: 3, list_len: 3, row_count: 2 }
    );
    // a snapshot changes nothing
    assert_eq!(2, builder.len());
    assert_eq!(3, builder.values().len());
}

#[test]
fn the_type_is_held_against_the_descriptor_before_the_nulls() {
    let mut builder = FixedSizeListBuilder::new(Int32Builder::new(), 3)
        .with_field(Field::new("list_item", DataType::Int64, false));
    three_rows(&mut builder);
    assert_eq!(
        builder.finish().unwrap_err(),
        BuildError::TypeMismatch { declared: DataType::Int64, found: DataType::Int32 }
    );
    // rows and child values were taken before the descriptor was looked at
    assert_eq!(0, builder.len());
    assert_eq!(0, builder.values().len());
}

#[test]
fn a_descriptor_without_nulls_takes_rows_without_nulls() {
    let mut builder = FixedSizeListBuilder::new(Int32Builder::new(), 2)
        .with_field(Field::new("list_item", DataType::Int32, false));
    builder.values().append_slice(&[1, 2]);
    builder.append(true);
    builder.values().append_slice(&[3, 4]);
    builder.append(false);
    let list = builder.finish().unwrap();
    assert_eq!(2, list.len());
    assert_eq!(1, list.null_count());
    assert_eq!(0, list.values().null_count());
}

#[test]
fn child_values_from_before_the_builder_count() {
    let mut child = Int32Builder::new();
    child.append_slice(&[1, 2, 3]);
    let mut builder = FixedSizeListBuilder::new(child, 3);
    assert!(builder.is_empty());
    assert_eq!(
        builder.finish_cloned().unwrap_err(),
        BuildError::LengthMismatch { actual: 3, list_len: 3, row_count: 0 }
    );
    builder.append(true);
    let list = builder.finish().unwrap();
    assert_eq!(1, list.len());
    assert_eq!(list.value(0), int32_array(vec![Some(1), Some(2), Some(3)]));
}

#[test]
fn a_list_comes_apart_into_what_it_was_made_of() {
    let mut builder = FixedSizeListBuilder::new(Int32Builder::new(), 3);
    three_rows(&mut builder);
    let list = builder.finish().unwrap();
    let (field, value_length, values, nulls) = list.into_parts();
    assert_eq!(field, Field::new("item", DataType::Int32, true));
    assert_eq!(3, value_length);
    assert_eq!(values, int32_array(vec![Some(0), Some(1), Some(2), None, None, None, Some(3), None, Some(5)]));
    let nulls = nulls.unwrap();
    assert_eq!(3, nulls.len());
    assert_eq!(1, nulls.null_count());
    assert!(nulls.is_null(1));
}

#[test]
fn a_copy_of_a_descriptor_says_the_same() {
    let field = Field::new("list_element", DataType::Int64, false);
    let copy = field.clone();
    assert_eq!(field, copy);
    assert_eq!("list_element", copy.name());
    assert_eq!(&DataType::Int64, copy.data_type());
    assert!(!copy.is_nullable());
    assert_ne!(copy, Field::new("list_element", DataType::Int32, false));
}

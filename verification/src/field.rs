//! Element types, taken from `arrow_schema`, and the descriptor of a list's
//! child field.

use vstd::prelude::*;

verus! {

#[verifier::external_type_specification]
#[verifier::external_body]
pub struct ExDataType(arrow_schema::DataType);

/// `DataType::eq`, which `arrow_schema` derives together with `Eq`: contracts
/// take two element types for the same value exactly when it holds.
#[verifier::external_body]
pub(crate) fn same_type(left: &arrow_schema::DataType, right: &arrow_schema::DataType) -> (same:
    bool)
    ensures
        same == (*left == *right),
{
    left == right
}

/// `DataType::clone`, which `arrow_schema` derives: the copy is the same
/// element type.
#[verifier::external_body]
pub(crate) fn clone_type(data_type: &arrow_schema::DataType) -> (copy: arrow_schema::DataType)
    ensures
        copy == *data_type,
{
    data_type.clone()
}

/// Describes the child values of a list: a label, their type and whether
/// they may be null.
#[derive(Debug, PartialEq, Eq)]
pub struct Field {
    name: String,
    data_type: arrow_schema::DataType,
    nullable: bool,
}

/// What a [`Field`] says, as plain values.
#[verifier::ext_equal]
pub struct FieldView {
    pub name: Seq<char>,
    pub data_type: arrow_schema::DataType,
    pub nullable: bool,
}

/// The descriptor that a list gets when none was given: labelled `item`,
/// nullable, of the type of the child values.
pub open spec fn default_field(data_type: arrow_schema::DataType) -> FieldView {
    FieldView { name: "item"@, data_type, nullable: true }
}

impl View for Field {
    type V = FieldView;

    closed spec fn view(&self) -> FieldView {
        FieldView { name: self.name@, data_type: self.data_type, nullable: self.nullable }
    }
}

impl Clone for Field {
    fn clone(&self) -> (copy: Self)
        ensures
            copy@ == self@,
    {
        Field {
            name: self.name.clone(),
            data_type: clone_type(&self.data_type),
            nullable: self.nullable,
        }
    }
}

impl Field {
    /// A descriptor with the given label, type and nullability. The label is
    /// not validated.
    pub fn new(name: &str, data_type: arrow_schema::DataType, nullable: bool) -> (field: Field)
        ensures
            field@ == (FieldView { name: name@, data_type, nullable }),
    {
        Field { name: name.to_owned(), data_type, nullable }
    }

    /// The label.
    pub fn name(&self) -> (name: &str)
        ensures
            name@ == self@.name,
    {
        self.name.as_str()
    }

    /// The type of the child values.
    pub fn data_type(&self) -> (data_type: &arrow_schema::DataType)
        ensures
            *data_type == self@.data_type,
    {
        &self.data_type
    }

    /// Whether the child values may be null.
    pub fn is_nullable(&self) -> (nullable: bool)
        ensures
            nullable == self@.nullable,
    {
        self.nullable
    }
}

} // verus!

//! Why a list could not be finished.

use vstd::prelude::*;

verus! {

/// A violated invariant, found before any list exists.
#[derive(Debug, PartialEq, Eq)]
pub enum BuildError {
    /// The child array does not hold `row_count * list_len` slots.
    LengthMismatch { actual: usize, list_len: i32, row_count: usize },
    /// The descriptor declares another element type than the child array has.
    TypeMismatch { declared: arrow_schema::DataType, found: arrow_schema::DataType },
    /// The descriptor rules out nulls and the child array holds some.
    NullabilityViolation,
}

} // verus!

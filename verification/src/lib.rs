//! A builder for fixed-size list arrays: every row spans the same number of
//! child values and carries one validity bit.

pub mod array;
pub mod builder;
pub mod error;
pub mod field;
pub mod model;
pub mod validity;
pub mod values;

//! Declarative value validation: the error report, the check that a
//! value is one of an allowed set, and the trait validated types
//! implement. The companion derive that writes `Validate` impls from
//! field attributes is a compile-time code generator and lives outside
//! the library.

use crate::text::str_eq;
use vstd::prelude::*;

verus! {

/// A report of one failed validation: the message and the field it is
/// about.
#[derive(Debug)]
pub struct ValidationError {
    pub message: String,
    pub field: &'static str,
}

impl ValidationError {
    pub fn new(message: String, field: &'static str) -> (r: Self)
        ensures
            r.message == message,
            r.field == field,
    {
        Self { message, field }
    }
}

/// Whether a value is one of an allowed set of alternatives.
pub fn is_enum(current_value: &str, values: Vec<&'static str>) -> (r: bool)
    ensures
        r == exists|i: int| 0 <= i < values@.len() && values@[i]@ == current_value@,
{
    let mut i: usize = 0;
    while i < values.len()
        invariant
            0 <= i <= values@.len(),
            forall|j: int| 0 <= j < i ==> values@[j]@ != current_value@,
        decreases values@.len() - i,
    {
        if str_eq(values[i], current_value) {
            return true;
        }
        i = i + 1;
    }
    false
}

/// A type whose values can check themselves against declared rules.
pub trait Validate {
    fn validate(&self) -> Result<(), Vec<ValidationError>>;
}

/// One declared validation rule for a field.
#[derive(Debug)]
pub enum Validator {
    Enum(Vec<String>),
}

} // verus!

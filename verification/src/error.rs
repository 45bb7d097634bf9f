//! What can go wrong in one exchange with the service.

use vstd::prelude::*;

verus! {

/// Why a JSON value could not be read as the expected structure.
#[derive(Clone, Copy, Debug, PartialEq, Eq, Structural)]
pub enum SchemaError {
    /// A field without a default is absent.
    MissingField,
    /// A value is of another JSON type than the one expected.
    TypeMismatch,
    /// A number does not fit the field.
    OutOfRange,
    /// A role or a `type` tag names no known variant.
    UnknownVariant,
}

/// A result whose success is looked at through its view.
pub open spec fn view_ok<T: DeepView>(result: Result<T, SchemaError>) -> Result<T::V, SchemaError> {
    match result {
        Ok(value) => Ok(value.deep_view()),
        Err(error) => Err(error),
    }
}

} // verus!

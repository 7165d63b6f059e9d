//! Conversions that can fail.

use vstd::prelude::*;

verus! {

/// A conversion from `T` that can fail. The implementor says which values
/// convert and what the error is for those that do not.
pub trait TryFrom<T>: Sized {
    /// What is returned where the conversion fails.
    type Error;

    /// Converts `value`, or says why it cannot be converted.
    fn try_from(value: T) -> Result<Self, Self::Error>;
}

/// A conversion into `T` that can fail: [`TryFrom`] seen from the value
/// that is converted.
pub trait TryInto<T>: Sized {
    /// What is returned where the conversion fails.
    type Error;

    /// Converts `self`, or says why it cannot be converted.
    fn try_into(self) -> Result<T, Self::Error>;
}

} // verus!

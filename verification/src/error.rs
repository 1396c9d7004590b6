//! Error and result types.

use vstd::prelude::*;

use crate::flags::{ClassFlags, DataType};

verus! {

/// The main error type of the library.
#[derive(Debug, PartialEq)]
pub enum Error {
    /// Incorrect number of arguments: given, then expected.
    IncorrectArguments(u32, u32),
    /// A zval could not be converted into the requested type.
    ZvalConversion(DataType),
    /// An unknown data type was encountered.
    UnknownDatatype(u32),
    /// An exception of a class that cannot be thrown.
    InvalidException(ClassFlags),
    /// A string contained a NUL byte and could not become a C string.
    InvalidCString,
    /// A string was not valid UTF-8.
    InvalidUtf8,
    /// A pointer was null where a value was required.
    InvalidPointer,
    /// The value was not an object.
    Object,
    /// The value was not callable.
    Callable,
    /// A property name was invalid, or a key was not a number.
    InvalidProperty,
    /// An integer did not fit the target type.
    IntegerOverflow,
    /// The class metadata has no class entry yet.
    InvalidScope,
}

} // verus!

//! Errors that the binding returns.
use vstd::prelude::*;

verus! {

/// Every failure that the binding reports to its caller.
#[derive(Debug, PartialEq, Eq)]
pub enum Error {
    /// The engine could not parse the text it was given.
    ParseError,
    /// The text parsed, but to another variant than the one asked for.
    WrongTemporalType,
    /// The engine refused to build a value from the elements given.
    ConstructionError,
    /// The engine could not serialise a value.
    EncodingError,
    /// The engine reported an inconsistent result, with the code read.
    MeosError(i32),
    /// Text could not cross the C string boundary: an interior nul byte, or
    /// bytes that are not UTF-8.
    FfiStringError(String),
    /// The engine was initialised while already initialised, or finalised
    /// while not initialised.
    LifecycleError,
}

} // verus!

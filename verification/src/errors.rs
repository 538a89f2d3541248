//! Custom error types.
use vstd::prelude::*;

verus! {

/// A type representing errors that are specific to `subtile`.
#[derive(Debug, Clone, PartialEq, Eq)]
pub enum SubError {
    /// Our input data ended sooner than we expected.
    IncompleteInput,
    /// We were unable to find a required key in an `*.idx` file.
    MissingKey(&'static str),
    /// We could not parse a value.
    Parse(String),
    /// We could not process a subtitle image.
    Image(String),
    /// We have leftover input that we didn't expect.
    UnexpectedInput,
}

} // verus!

use vstd::prelude::*;

verus! {

/// Classification of the failures that the optimizers in this crate report.
#[derive(Debug, Clone, Copy, PartialEq, Eq, Hash, Structural)]
pub enum ErrorKind {
    /// Invalid input was given, such as malformed construction parameters.
    InvalidInput,
    /// A result was reported for an observation that the addressed
    /// component never issued.
    UnknownObservation,
    /// I/O error raised by a surrounding application.
    IoError,
    /// An internal invariant was violated.
    Bug,
    /// Any other error.
    Other,
}

} // verus!

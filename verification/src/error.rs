//! Errors of the library.
use vstd::prelude::*;

verus! {

/// Why a chord could not be read.
#[derive(Debug, Clone, Copy, PartialEq, Eq, Structural)]
pub enum Error {
    /// The chord text was empty.
    EmptyChord,
    /// The chord text did not start with a note letter.
    UnknownNote,
}

} // verus!

//! Problems that the tokenizer notices in a song text.
use vstd::prelude::*;

verus! {

#[derive(Debug, Clone, Copy, PartialEq, Eq, Structural)]
pub enum TokenizerError {
    UnclosedChord,
    NestedChord,
    InvalidChordCharacter,
    UnexpectedChordEnd,
    UnexpectedHeaderStart,
    UnexpectedEndOfFile,
}

impl TokenizerError {
    /// The name of the problem.
    pub fn as_str(&self) -> (r: &'static str)
        ensures
            r@ == (match self {
                TokenizerError::UnclosedChord => "UnclosedChord"@,
                TokenizerError::NestedChord => "NestedChord"@,
                TokenizerError::InvalidChordCharacter => "InvalidChordCharacter"@,
                TokenizerError::UnexpectedChordEnd => "UnexpectedChordEnd"@,
                TokenizerError::UnexpectedHeaderStart => "UnexpectedHeaderStart"@,
                TokenizerError::UnexpectedEndOfFile => "UnexpectedEndOfFile"@,
            }),
    {
        match self {
            TokenizerError::UnclosedChord => "UnclosedChord",
            TokenizerError::NestedChord => "NestedChord",
            TokenizerError::InvalidChordCharacter => "InvalidChordCharacter",
            TokenizerError::UnexpectedChordEnd => "UnexpectedChordEnd",
            TokenizerError::UnexpectedHeaderStart => "UnexpectedHeaderStart",
            TokenizerError::UnexpectedEndOfFile => "UnexpectedEndOfFile",
        }
    }
}

} // verus!

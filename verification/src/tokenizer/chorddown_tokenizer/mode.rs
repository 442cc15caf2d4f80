//! The modes of the scanning tokenizer's state machine.
use vstd::prelude::*;
use super::lexeme::{Lexeme, LexemeModel, CHORD_START, HEADER_START, NEWLINE, QUOTE_START};

verus! {

/// Where the state machine stands. The order of the variants is the rank by which one mode
/// ends another.
#[derive(Debug, PartialOrd, PartialEq, Eq, Copy, Clone, Structural)]
pub enum Mode {
    Literal,
    Header,
    Quote,
    Chord,
    Newline,
    Bof,
    Eof,
}

/// The rank of a mode: a mode is ended by every mode of higher rank.
pub open spec fn rank(m: Mode) -> int {
    match m {
        Mode::Literal => 0,
        Mode::Header => 4,
        Mode::Quote => 6,
        Mode::Chord => 8,
        Mode::Newline => 10,
        Mode::Bof => 100,
        Mode::Eof => 110,
    }
}

/// The mode that a character opens.
pub open spec fn mode_of_char(c: char) -> Mode {
    if c == QUOTE_START {
        Mode::Quote
    } else if c == HEADER_START {
        Mode::Header
    } else if c == CHORD_START {
        Mode::Chord
    } else if c == NEWLINE {
        Mode::Newline
    } else {
        Mode::Literal
    }
}

/// The mode that a lexeme opens.
pub open spec fn mode_of_lexeme(l: LexemeModel) -> Mode {
    match l {
        LexemeModel::QuoteStart => Mode::Quote,
        LexemeModel::HeaderStart => Mode::Header,
        LexemeModel::ChordStart => Mode::Chord,
        LexemeModel::Newline => Mode::Newline,
        _ => Mode::Literal,
    }
}

/// Whether `by` ends `m`: a line break ends and is ended by everything; otherwise a mode
/// is ended by the modes of higher rank.
pub open spec fn terminated_by(m: Mode, by: Mode) -> bool {
    m == Mode::Newline || rank(m) < rank(by)
}

impl Mode {
    /// The rank of the mode.
    pub fn rank(self) -> (r: u8)
        ensures
            r == rank(self),
    {
        match self {
            Mode::Literal => 0,
            Mode::Header => 4,
            Mode::Quote => 6,
            Mode::Chord => 8,
            Mode::Newline => 10,
            Mode::Bof => 100,
            Mode::Eof => 110,
        }
    }

    /// The mode that a character opens.
    pub fn from_char(character: char) -> (r: Mode)
        ensures
            r == mode_of_char(character),
    {
        if character == QUOTE_START {
            Mode::Quote
        } else if character == HEADER_START {
            Mode::Header
        } else if character == CHORD_START {
            Mode::Chord
        } else if character == NEWLINE {
            Mode::Newline
        } else {
            Mode::Literal
        }
    }

    /// The mode that a lexeme opens.
    pub fn from_lexeme(lexeme: &Lexeme) -> (r: Mode)
        ensures
            r == mode_of_lexeme(lexeme@),
    {
        match lexeme {
            Lexeme::QuoteStart => Mode::Quote,
            Lexeme::HeaderStart => Mode::Header,
            Lexeme::ChordStart => Mode::Chord,
            Lexeme::Newline => Mode::Newline,
            _ => Mode::Literal,
        }
    }

    /// Whether `mode` ends this mode.
    pub fn is_terminated_by(self, mode: Mode) -> (r: bool)
        ensures
            r == terminated_by(self, mode),
    {
        if self == Mode::Newline {
            true
        } else {
            self.rank() < mode.rank()
        }
    }
}

} // verus!

//! The modes of the line tokenizer.
use vstd::prelude::*;

verus! {

/// What a run of characters in a line is. The order of the variants is the rank by which one
/// mode ends another.
#[derive(Debug, PartialOrd, PartialEq, Eq, Copy, Clone, Structural)]
pub enum Mode {
    Literal,
    Header,
    Quote,
    Chord,
    Newline,
}

pub const NEWLINE: char = '\n';
pub const CHORD_START: char = '[';
pub const CHORD_END: char = ']';
pub const HEADER_START: char = '#';
pub const HEADER_END: char = NEWLINE;
pub const QUOTE_START: char = '>';
pub const QUOTE_END: char = NEWLINE;

/// The rank of a mode: a mode is ended by every mode of higher rank.
pub open spec fn rank(m: Mode) -> int {
    match m {
        Mode::Literal => 0,
        Mode::Header => 4,
        Mode::Quote => 6,
        Mode::Chord => 8,
        Mode::Newline => 10,
    }
}

/// The mode that a character opens.
pub open spec fn mode_of_char(c: char) -> Mode {
    if c == QUOTE_START {
        Mode::Quote
    } else if c == HEADER_START {
        Mode::Header
    } else if c == CHORD_START {
        Mode::Chord
    } else if c == NEWLINE {
        Mode::Newline
    } else {
        Mode::Literal
    }
}

/// Whether `c` closes a run in mode `m` (a line break is never asked this).
pub open spec fn is_end_of_spec(c: char, m: Mode) -> bool {
    match m {
        Mode::Chord => c == CHORD_END,
        Mode::Header => c == HEADER_END,
        Mode::Quote => c == QUOTE_END,
        Mode::Literal => c == NEWLINE,
        Mode::Newline => false,
    }
}

/// Whether `c` is one of the characters that open or close a run.
pub open spec fn is_signal_spec(c: char) -> bool {
    c == NEWLINE || c == CHORD_START || c == CHORD_END || c == HEADER_START || c == QUOTE_START
}

/// Whether the character `c` ends a run in mode `m`: it closes it, or opens a mode of higher rank.
pub open spec fn terminated_by_char(m: Mode, c: char) -> bool {
    is_end_of_spec(c, m) || rank(m) < rank(mode_of_char(c))
}

/// Whether `c` closes a run in mode `m`.
pub fn is_end_of(c: char, m: Mode) -> (r: bool)
    requires
        m != Mode::Newline,
    ensures
        r == is_end_of_spec(c, m),
{
    match m {
        Mode::Chord => c == CHORD_END,
        Mode::Header => c == HEADER_END,
        Mode::Quote => c == QUOTE_END,
        Mode::Literal => c == NEWLINE,
        Mode::Newline => false,
    }
}

/// Whether `c` is one of the characters that open or close a run.
pub fn is_signal(c: char) -> (r: bool)
    ensures
        r == is_signal_spec(c),
{
    c == NEWLINE || c == CHORD_START || c == CHORD_END || c == HEADER_START || c == QUOTE_START
}

impl Mode {
    fn rank(self) -> (r: u8)
        ensures
            r == rank(self),
    {
        match self {
            Mode::Literal => 0,
            Mode::Header => 4,
            Mode::Quote => 6,
            Mode::Chord => 8,
            Mode::Newline => 10,
        }
    }

    /// Whether the mode closes itself: a line break is a run of its own.
    pub fn is_self_closing(&self) -> (r: bool)
        ensures
            r == (*self == Mode::Newline),
    {
        match self {
            Mode::Newline => true,
            _ => false,
        }
    }

    /// Whether `character` ends a run in this mode.
    pub fn is_terminated_by_char(&self, character: char) -> (r: bool)
        requires
            *self != Mode::Newline,
        ensures
            r == terminated_by_char(*self, character),
    {
        is_end_of(character, *self) || self.is_terminated_by(Mode::from_char(character))
    }

    /// The mode that a character opens.
    pub fn from_char(character: char) -> (r: Mode)
        ensures
            r == mode_of_char(character),
    {
        if character == QUOTE_START {
            Mode::Quote
        } else if character == HEADER_START {
            Mode::Header
        } else if character == CHORD_START {
            Mode::Chord
        } else if character == NEWLINE {
            Mode::Newline
        } else {
            Mode::Literal
        }
    }

    fn is_terminated_by(&self, mode: Mode) -> (r: bool)
        ensures
            r == (rank(*self) < rank(mode)),
    {
        self.rank() < mode.rank()
    }
}

} // verus!

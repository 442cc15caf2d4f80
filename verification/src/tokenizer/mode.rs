//! The modes of the ChordPro tokenizer.
use vstd::prelude::*;

verus! {

#[derive(Debug, PartialEq, Eq, Copy, Clone, Structural)]
pub enum Mode {
    Chord,
    Directive,
    Newline,
    Comment,
    Literal,
}

pub const NEWLINE: char = '\n';
pub const CHORD_START: char = '[';
pub const CHORD_END: char = ']';
pub const DIRECTIVE_START: char = '{';
pub const DIRECTIVE_END: char = '}';
pub const COMMENT_START: char = '#';
pub const COMMENT_END: char = NEWLINE;

/// Whether `c` ends a run in mode `m`.
pub open spec fn is_end_character_spec(m: Mode, c: char) -> bool {
    match m {
        Mode::Literal => c == NEWLINE,
        Mode::Comment => c == COMMENT_END,
        Mode::Directive => c == DIRECTIVE_END,
        Mode::Chord => c == CHORD_END,
        Mode::Newline => false,
    }
}

/// The mode that a character opens.
pub open spec fn mode_of_char(c: char) -> Mode {
    if c == COMMENT_START {
        Mode::Comment
    } else if c == DIRECTIVE_START {
        Mode::Directive
    } else if c == CHORD_START {
        Mode::Chord
    } else if c == NEWLINE {
        Mode::Newline
    } else {
        Mode::Literal
    }
}

impl Mode {
    /// Whether the mode closes itself: a line break is a run of its own.
    pub fn is_self_closing(&self) -> (r: bool)
        ensures
            r == (*self == Mode::Newline),
    {
        match self {
            Mode::Newline => true,
            _ => false,
        }
    }

    /// Whether `character` ends a run in this mode.
    pub fn is_end_character(self, character: char) -> (r: bool)
        ensures
            r == is_end_character_spec(self, character),
    {
        if self == Mode::Literal && character == NEWLINE {
            true
        } else if self == Mode::Literal {
            false
        } else if self == Mode::Comment && character == COMMENT_END {
            true
        } else if self == Mode::Directive && character == DIRECTIVE_END {
            true
        } else if self == Mode::Chord && character == CHORD_END {
            true
        } else {
            false
        }
    }

    /// The mode that a character opens.
    pub fn from_char(character: char) -> (r: Mode)
        ensures
            r == mode_of_char(character),
    {
        if character == COMMENT_START {
            Mode::Comment
        } else if character == DIRECTIVE_START {
            Mode::Directive
        } else if character == CHORD_START {
            Mode::Chord
        } else if character == NEWLINE {
            Mode::Newline
        } else {
            Mode::Literal
        }
    }
}

} // verus!

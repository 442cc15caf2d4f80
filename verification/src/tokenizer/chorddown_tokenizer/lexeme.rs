//! The lexemes that the scanner cuts a song text into.
use vstd::prelude::*;
use crate::text::{is_blank, is_blank_str};
use crate::tokenizer::modifier::Modifier;

verus! {

pub const NEWLINE: char = '\n';
pub const CHORD_START: char = '[';
pub const CHORD_END: char = ']';
pub const HEADER_START: char = '#';
pub const QUOTE_START: char = '>';
pub const COLON: char = ':';
pub const CHORUS_MARK: char = '!';
pub const BRIDGE_MARK: char = '-';

#[derive(Debug, Clone, PartialEq)]
pub enum Lexeme {
    Newline,
    ChordStart,
    ChordEnd,
    HeaderStart,
    QuoteStart,
    Colon,
    ChorusMark,
    BridgeMark,
    Literal(String),
    Eof,
}

/// The abstract value of a lexeme.
pub enum LexemeModel {
    Newline,
    ChordStart,
    ChordEnd,
    HeaderStart,
    QuoteStart,
    Colon,
    ChorusMark,
    BridgeMark,
    Literal(Seq<char>),
    Eof,
}

impl View for Lexeme {
    type V = LexemeModel;

    open spec fn view(&self) -> LexemeModel {
        match self {
            Lexeme::Newline => LexemeModel::Newline,
            Lexeme::ChordStart => LexemeModel::ChordStart,
            Lexeme::ChordEnd => LexemeModel::ChordEnd,
            Lexeme::HeaderStart => LexemeModel::HeaderStart,
            Lexeme::QuoteStart => LexemeModel::QuoteStart,
            Lexeme::Colon => LexemeModel::Colon,
            Lexeme::ChorusMark => LexemeModel::ChorusMark,
            Lexeme::BridgeMark => LexemeModel::BridgeMark,
            Lexeme::Literal(s) => LexemeModel::Literal(s@),
            Lexeme::Eof => LexemeModel::Eof,
        }
    }
}

/// The views of a sequence of lexemes.
pub open spec fn lexemes_view(ls: Seq<Lexeme>) -> Seq<LexemeModel> {
    ls.map_values(|l: Lexeme| l@)
}

/// The lexeme that a character stands for on its own, if it is one of the marks.
pub open spec fn mark_of_char(c: char) -> Option<LexemeModel> {
    if c == NEWLINE {
        Some(LexemeModel::Newline)
    } else if c == CHORD_START {
        Some(LexemeModel::ChordStart)
    } else if c == CHORD_END {
        Some(LexemeModel::ChordEnd)
    } else if c == HEADER_START {
        Some(LexemeModel::HeaderStart)
    } else if c == QUOTE_START {
        Some(LexemeModel::QuoteStart)
    } else if c == COLON {
        Some(LexemeModel::Colon)
    } else if c == CHORUS_MARK {
        Some(LexemeModel::ChorusMark)
    } else if c == BRIDGE_MARK {
        Some(LexemeModel::BridgeMark)
    } else {
        None
    }
}

/// The character of a mark lexeme.
pub open spec fn mark_char(l: LexemeModel) -> char {
    match l {
        LexemeModel::Newline => NEWLINE,
        LexemeModel::ChordStart => CHORD_START,
        LexemeModel::ChordEnd => CHORD_END,
        LexemeModel::HeaderStart => HEADER_START,
        LexemeModel::QuoteStart => QUOTE_START,
        LexemeModel::Colon => COLON,
        LexemeModel::ChorusMark => CHORUS_MARK,
        LexemeModel::BridgeMark => BRIDGE_MARK,
        _ => ' ',
    }
}

/// Whether a lexeme is one of the single-character marks.
pub open spec fn is_mark(l: LexemeModel) -> bool {
    !(l is Literal) && !(l is Eof)
}

/// The text that a lexeme stands for: its character, its literal text, or nothing for the end.
pub open spec fn lexeme_text(l: LexemeModel) -> Seq<char> {
    match l {
        LexemeModel::Literal(s) => s,
        LexemeModel::Eof => seq![],
        _ => seq![mark_char(l)],
    }
}

/// The modifier that a lexeme signals at the start of a headline.
pub open spec fn detect_modifier_spec(l: LexemeModel) -> Option<Modifier> {
    match l {
        LexemeModel::ChordStart | LexemeModel::ChordEnd | LexemeModel::QuoteStart
        | LexemeModel::Colon => Some(Modifier::Plain),
        LexemeModel::ChorusMark => Some(Modifier::Chorus),
        LexemeModel::BridgeMark => Some(Modifier::Bridge),
        LexemeModel::Literal(t) => if is_blank(t) {
            None
        } else {
            Some(Modifier::Plain)
        },
        LexemeModel::HeaderStart | LexemeModel::Newline | LexemeModel::Eof => None,
    }
}

impl Lexeme {
    /// A literal lexeme.
    pub fn literal(s: &str) -> (r: Lexeme)
        ensures
            r@ == LexemeModel::Literal(s@),
    {
        Lexeme::Literal(s.to_owned())
    }

    /// The modifier that this lexeme signals at the start of a headline, if any.
    pub fn detect_modifier(&self) -> (r: Option<Modifier>)
        ensures
            r == detect_modifier_spec(self@),
    {
        match self {
            Lexeme::ChordStart | Lexeme::ChordEnd | Lexeme::QuoteStart | Lexeme::Colon => {
                Some(Modifier::Plain)
            },
            Lexeme::ChorusMark => Some(Modifier::Chorus),
            Lexeme::BridgeMark => Some(Modifier::Bridge),
            Lexeme::Literal(text) => {
                if is_blank_str(text.as_str()) {
                    None
                } else {
                    Some(Modifier::Plain)
                }
            },
            Lexeme::HeaderStart => None,
            Lexeme::Newline => None,
            Lexeme::Eof => None,
        }
    }

    /// The character of a mark lexeme.
    pub fn as_char(&self) -> (r: char)
        requires
            is_mark(self@),
        ensures
            r == mark_char(self@),
    {
        match self {
            Lexeme::Newline => NEWLINE,
            Lexeme::ChordStart => CHORD_START,
            Lexeme::ChordEnd => CHORD_END,
            Lexeme::HeaderStart => HEADER_START,
            Lexeme::QuoteStart => QUOTE_START,
            Lexeme::Colon => COLON,
            Lexeme::ChorusMark => CHORUS_MARK,
            Lexeme::BridgeMark => BRIDGE_MARK,
            Lexeme::Literal(_) => ' ',
            Lexeme::Eof => ' ',
        }
    }

    /// The text that the lexeme stands for (nothing for the end of the input).
    pub fn to_text(&self) -> (r: String)
        ensures
            r@ == lexeme_text(self@),
    {
        match self {
            Lexeme::Literal(inner) => inner.clone(),
            Lexeme::Eof => String::new(),
            _ => {
                let mut s = String::new();
                crate::text::push_char(&mut s, self.as_char());
                s
            },
        }
    }
}

} // verus!

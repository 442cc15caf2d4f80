//! The tokens of the ChordPro format.
use vstd::prelude::*;
use crate::text::{trim, trim_spec};
use crate::tokenizer::mode::Mode;
use super::directive::{Directive, DirectiveModel, directive_of_text};

verus! {

/// A token of a ChordPro line.
#[derive(Debug, PartialEq)]
pub enum Token {
    Chord(String),
    Directive(Directive),
    Literal(String),
    Newline,
    Comment(String),
}

/// The abstract value of a ChordPro token.
pub enum ProTokenModel {
    Chord(Seq<char>),
    Directive(DirectiveModel),
    Literal(Seq<char>),
    Newline,
    Comment(Seq<char>),
}

impl View for Token {
    type V = ProTokenModel;

    open spec fn view(&self) -> ProTokenModel {
        match self {
            Token::Chord(s) => ProTokenModel::Chord(s@),
            Token::Directive(d) => ProTokenModel::Directive(d@),
            Token::Literal(s) => ProTokenModel::Literal(s@),
            Token::Newline => ProTokenModel::Newline,
            Token::Comment(s) => ProTokenModel::Comment(s@),
        }
    }
}

/// The views of a sequence of ChordPro tokens.
pub open spec fn pro_tokens_view(ts: Seq<Token>) -> Seq<ProTokenModel> {
    ts.map_values(|t: Token| t@)
}

/// The token that a run of text collected in mode `mode` makes: chords and comments are
/// trimmed, directives are read from their text, literals are kept as they are.
pub open spec fn pro_token_of(mode: Mode, literal: Seq<char>) -> ProTokenModel {
    match mode {
        Mode::Chord => ProTokenModel::Chord(trim_spec(literal)),
        Mode::Comment => ProTokenModel::Comment(trim_spec(literal)),
        Mode::Literal => ProTokenModel::Literal(literal),
        Mode::Newline => ProTokenModel::Newline,
        Mode::Directive => ProTokenModel::Directive(directive_of_text(literal)),
    }
}

impl Token {
    /// The token that a run of text collected in `mode` makes.
    pub fn from_mode_and_literal(mode: Mode, literal: &str) -> (r: Token)
        ensures
            r@ == pro_token_of(mode, literal@),
    {
        match mode {
            Mode::Chord => Token::Chord(trim(literal)),
            Mode::Comment => Token::Comment(trim(literal)),
            Mode::Literal => Token::Literal(literal.to_owned()),
            Mode::Newline => Token::Newline,
            Mode::Directive => Token::Directive(Directive::from_str(literal)),
        }
    }

    /// A chord token.
    pub fn chord(value: &str) -> (r: Token)
        ensures
            r@ == ProTokenModel::Chord(value@),
    {
        Token::Chord(value.to_owned())
    }

    /// A literal token.
    pub fn literal(value: &str) -> (r: Token)
        ensures
            r@ == ProTokenModel::Literal(value@),
    {
        Token::Literal(value.to_owned())
    }

    /// A comment token.
    pub fn comment(value: &str) -> (r: Token)
        ensures
            r@ == ProTokenModel::Comment(value@),
    {
        Token::Comment(value.to_owned())
    }
}

} // verus!

//! The tokens that the tokenizers hand to the parsers.
use vstd::prelude::*;
use super::meta::Meta;
use super::metadata::RawMetadata;
use super::keyword::MetaModel;
use super::modifier::Modifier;

verus! {

#[derive(Debug, PartialOrd, PartialEq, Clone)]
pub enum Token {
    Headline { level: u8, text: String, modifier: Modifier },
    Literal(String),
    Meta(Meta),
    Metadata(RawMetadata),
    Chord(String),
    Quote(String),
    Newline,
}

/// The abstract value of a token.
pub enum TokenModel {
    Headline { level: u8, text: Seq<char>, modifier: Modifier },
    Literal(Seq<char>),
    Meta(MetaModel),
    Metadata(MetaModel),
    Chord(Seq<char>),
    Quote(Seq<char>),
    Newline,
}

impl View for Token {
    type V = TokenModel;

    open spec fn view(&self) -> TokenModel {
        match self {
            Token::Headline { level, text, modifier } => TokenModel::Headline {
                level: *level,
                text: text@,
                modifier: *modifier,
            },
            Token::Literal(s) => TokenModel::Literal(s@),
            Token::Meta(m) => TokenModel::Meta(m@),
            Token::Metadata(m) => TokenModel::Metadata(m@),
            Token::Chord(s) => TokenModel::Chord(s@),
            Token::Quote(s) => TokenModel::Quote(s@),
            Token::Newline => TokenModel::Newline,
        }
    }
}

/// The views of a sequence of tokens.
pub open spec fn tokens_view(ts: Seq<Token>) -> Seq<TokenModel> {
    ts.map_values(|t: Token| t@)
}

/// The view of an optional token.
pub open spec fn token_option_view(t: Option<Token>) -> Option<TokenModel> {
    match t {
        Some(x) => Some(x@),
        None => None,
    }
}

impl Token {
    /// A headline of the given level.
    pub fn headline(level: u8, value: &str, modifier: Modifier) -> (r: Token)
        ensures
            r@ == (TokenModel::Headline { level, text: value@, modifier }),
    {
        Token::Headline { level, text: value.to_owned(), modifier }
    }

    /// A chord mark.
    pub fn chord(value: &str) -> (r: Token)
        ensures
            r@ == TokenModel::Chord(value@),
    {
        Token::Chord(value.to_owned())
    }

    /// A line break.
    pub fn newline() -> (r: Token)
        ensures
            r@ == TokenModel::Newline,
    {
        Token::Newline
    }

    /// Plain text.
    pub fn literal(value: &str) -> (r: Token)
        ensures
            r@ == TokenModel::Literal(value@),
    {
        Token::Literal(value.to_owned())
    }

    /// A quote line.
    pub fn quote(value: &str) -> (r: Token)
        ensures
            r@ == TokenModel::Quote(value@),
    {
        Token::Quote(value.to_owned())
    }

    /// Whether the token is a line break.
    pub fn is_newline(&self) -> (r: bool)
        ensures
            r == (self@ is Newline),
    {
        match self {
            Token::Newline => true,
            _ => false,
        }
    }

    /// A copy of the token.
    pub fn duplicate(&self) -> (r: Token)
        ensures
            r@ == self@,
    {
        match self {
            Token::Headline { level, text, modifier } => Token::Headline {
                level: *level,
                text: text.clone(),
                modifier: *modifier,
            },
            Token::Literal(s) => Token::Literal(s.clone()),
            Token::Meta(m) => Token::Meta(m.duplicate()),
            Token::Metadata(m) => Token::Metadata(m.duplicate()),
            Token::Chord(s) => Token::Chord(s.clone()),
            Token::Quote(s) => Token::Quote(s.clone()),
            Token::Newline => Token::Newline,
        }
    }
}

} // verus!

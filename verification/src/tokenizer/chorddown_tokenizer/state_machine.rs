//! The state machine that turns lexemes into tokens.
use vstd::prelude::*;
use crate::text::{trim_start, trim_start_spec};
use crate::tokenizer::keyword::{meta_from_line, MetaModel};
use crate::tokenizer::metadata::RawMetadata;
use crate::tokenizer::modifier::Modifier;
use crate::tokenizer::token::{Token, TokenModel};
use crate::tokenizer::tokenizer_error::TokenizerError;
use super::lexeme::{detect_modifier_spec, is_mark, mark_char, Lexeme, LexemeModel};
use super::mode::Mode;

verus! {

/// The abstract state of the machine.
pub struct FsmModel {
    pub state: Mode,
    pub buffer: Seq<char>,
    pub level: u8,
    pub modifier: Option<Modifier>,
    pub warnings: Seq<TokenizerError>,
}

/// The state in which the machine starts.
pub open spec fn initial_model() -> FsmModel {
    FsmModel {
        state: Mode::Bof,
        buffer: seq![],
        level: 0,
        modifier: None,
        warnings: seq![],
    }
}

/// The buffer with the text of a lexeme appended (nothing for the end of the input).
pub open spec fn append_spec(buf: Seq<char>, l: LexemeModel) -> Seq<char> {
    match l {
        LexemeModel::Literal(t) => buf + t,
        LexemeModel::Eof => buf,
        _ => buf.push(mark_char(l)),
    }
}

/// The headline modifier after seeing `l`: the first lexeme that signals one decides.
pub open spec fn modifier_after(m: Option<Modifier>, l: LexemeModel) -> Option<Modifier> {
    if m is None {
        detect_modifier_spec(l)
    } else {
        m
    }
}

/// The machine with the text of `l` appended to its buffer.
pub open spec fn with_appended(f: FsmModel, l: LexemeModel) -> FsmModel {
    FsmModel { buffer: append_spec(f.buffer, l), ..f }
}

/// The machine with a warning recorded.
pub open spec fn with_warning(f: FsmModel, w: TokenizerError) -> FsmModel {
    FsmModel { warnings: f.warnings.push(w), ..f }
}

/// The machine with the headline modifier updated for `l`.
pub open spec fn with_modifier(f: FsmModel, l: LexemeModel) -> FsmModel {
    FsmModel { modifier: modifier_after(f.modifier, l), ..f }
}

/// Whether seeing `l` would push the headline level past its largest value.
pub open spec fn overflows(f: FsmModel, l: LexemeModel) -> bool {
    f.state == Mode::Header && l is HeaderStart && f.level == 255
}

/// One step of the machine: the new state of its buffers, and the mode that `l` switches to,
/// if it switches.
pub open spec fn step_spec(f: FsmModel, l: LexemeModel) -> (FsmModel, Option<Mode>) {
    match f.state {
        Mode::Bof | Mode::Newline => match l {
            LexemeModel::HeaderStart => (FsmModel { level: 1, ..f }, Some(Mode::Header)),
            LexemeModel::Newline => (f, Some(Mode::Newline)),
            LexemeModel::ChordStart => (f, Some(Mode::Chord)),
            LexemeModel::ChordEnd => (
                with_warning(f, TokenizerError::UnexpectedChordEnd),
                Some(Mode::Literal),
            ),
            LexemeModel::QuoteStart => (f, Some(Mode::Quote)),
            LexemeModel::Colon | LexemeModel::ChorusMark | LexemeModel::BridgeMark
            | LexemeModel::Literal(_) => (with_appended(f, l), Some(Mode::Literal)),
            LexemeModel::Eof => (f, Some(Mode::Eof)),
        },
        Mode::Chord => match l {
            LexemeModel::HeaderStart | LexemeModel::Literal(_) => (with_appended(f, l), None),
            LexemeModel::Newline => (
                with_warning(f, TokenizerError::UnclosedChord),
                Some(Mode::Newline),
            ),
            LexemeModel::ChordStart => (
                with_warning(with_appended(f, l), TokenizerError::NestedChord),
                None,
            ),
            LexemeModel::ChordEnd => (f, Some(Mode::Literal)),
            LexemeModel::QuoteStart | LexemeModel::Colon | LexemeModel::ChorusMark
            | LexemeModel::BridgeMark => (
                with_warning(with_appended(f, l), TokenizerError::InvalidChordCharacter),
                None,
            ),
            LexemeModel::Eof => (
                with_warning(f, TokenizerError::UnexpectedEndOfFile),
                Some(Mode::Eof),
            ),
        },
        Mode::Header => match l {
            LexemeModel::HeaderStart => (FsmModel { level: (f.level + 1) as u8, ..f }, None),
            LexemeModel::Newline => (f, Some(Mode::Newline)),
            LexemeModel::ChordStart | LexemeModel::ChordEnd | LexemeModel::QuoteStart
            | LexemeModel::Colon | LexemeModel::Literal(_) => (
                with_appended(with_modifier(f, l), l),
                None,
            ),
            LexemeModel::ChorusMark | LexemeModel::BridgeMark => if f.modifier is Some {
                (with_appended(f, l), None)
            } else {
                (with_modifier(f, l), None)
            },
            LexemeModel::Eof => (f, Some(Mode::Eof)),
        },
        Mode::Quote => match l {
            LexemeModel::Newline => (f, Some(Mode::Newline)),
            LexemeModel::Eof => (f, Some(Mode::Eof)),
            _ => (with_appended(f, l), None),
        },
        Mode::Literal => match l {
            LexemeModel::Newline => (f, Some(Mode::Newline)),
            LexemeModel::HeaderStart => (
                with_appended(with_warning(f, TokenizerError::UnexpectedHeaderStart), l),
                None,
            ),
            LexemeModel::ChordStart => (f, Some(Mode::Chord)),
            LexemeModel::ChordEnd => (with_warning(f, TokenizerError::UnexpectedChordEnd), None),
            LexemeModel::QuoteStart | LexemeModel::Colon | LexemeModel::ChorusMark
            | LexemeModel::BridgeMark | LexemeModel::Literal(_) => (with_appended(f, l), None),
            LexemeModel::Eof => (
                with_warning(f, TokenizerError::UnexpectedEndOfFile),
                Some(Mode::Eof),
            ),
        },
        Mode::Eof => (f, None),
    }
}

/// The token that a finished literal run makes: metadata where the text is a metadata line,
/// plain text otherwise, nothing where the run is empty.
pub open spec fn literal_token(buf: Seq<char>) -> Option<TokenModel> {
    if buf.len() == 0 {
        None
    } else {
        match meta_from_line(buf) {
            Some(m) => Some(TokenModel::Metadata(m)),
            None => Some(TokenModel::Literal(buf)),
        }
    }
}

/// The token that the machine emits when it leaves its current mode, and its new buffers.
pub open spec fn build_spec(f: FsmModel) -> (FsmModel, Option<TokenModel>) {
    match f.state {
        Mode::Header => (
            FsmModel { buffer: seq![], level: 0, modifier: None, ..f },
            Some(
                TokenModel::Headline {
                    level: f.level,
                    text: trim_start_spec(f.buffer),
                    modifier: match f.modifier {
                        Some(m) => m,
                        None => Modifier::Plain,
                    },
                },
            ),
        ),
        Mode::Chord => (FsmModel { buffer: seq![], ..f }, Some(TokenModel::Chord(f.buffer))),
        Mode::Newline => (f, Some(TokenModel::Newline)),
        Mode::Quote => (
            FsmModel { buffer: seq![], ..f },
            Some(TokenModel::Quote(trim_start_spec(f.buffer))),
        ),
        Mode::Literal => (FsmModel { buffer: seq![], ..f }, literal_token(f.buffer)),
        Mode::Bof | Mode::Eof => (f, None),
    }
}

/// The tokens of an optional token.
pub open spec fn opt_seq(t: Option<TokenModel>) -> Seq<TokenModel> {
    match t {
        Some(x) => seq![x],
        None => seq![],
    }
}

/// The machine after `l`: its new buffers, and the tokens it emitted.
pub open spec fn feed_spec(f: FsmModel, l: LexemeModel) -> (FsmModel, Seq<TokenModel>) {
    let (f1, changed) = step_spec(f, l);
    match changed {
        None => (f1, seq![]),
        Some(m) => {
            let (f2, t) = build_spec(f1);
            (FsmModel { state: m, ..f2 }, opt_seq(t))
        },
    }
}

/// The tokens that the machine emits for the lexemes `ls`, starting in `f`.
pub open spec fn run_from(f: FsmModel, ls: Seq<LexemeModel>) -> Seq<TokenModel>
    decreases ls.len(),
{
    if ls.len() == 0 {
        seq![]
    } else {
        let (f1, ts) = feed_spec(f, ls[0]);
        ts + run_from(f1, ls.drop_first())
    }
}

/// Whether the machine can take every lexeme of `ls` starting in `f`: it never gets a lexeme
/// after the end of the input, and no headline level passes its largest value.
pub open spec fn run_fits(f: FsmModel, ls: Seq<LexemeModel>) -> bool
    decreases ls.len(),
{
    if ls.len() == 0 {
        true
    } else {
        f.state != Mode::Eof && !overflows(f, ls[0]) && run_fits(feed_spec(f, ls[0]).0, ls.drop_first())
    }
}

pub struct Fsm {
    state: Mode,
    literal_buffer: String,
    header_level: u8,
    header_modifier: Option<Modifier>,
    warnings: Vec<TokenizerError>,
}

impl View for Fsm {
    type V = FsmModel;

    closed spec fn view(&self) -> FsmModel {
        FsmModel {
            state: self.state,
            buffer: self.literal_buffer@,
            level: self.header_level,
            modifier: self.header_modifier,
            warnings: self.warnings@,
        }
    }
}

impl Fsm {
    /// A machine at the beginning of the input.
    pub fn new() -> (r: Fsm)
        ensures
            r@ == initial_model(),
    {
        let r = Fsm {
            state: Mode::Bof,
            literal_buffer: String::new(),
            header_level: 0,
            header_modifier: None,
            warnings: Vec::new(),
        };
        assert(r@.warnings =~= Seq::<TokenizerError>::empty());
        r
    }

    /// The mode the machine is in.
    pub fn state(&self) -> (r: Mode)
        ensures
            r == self@.state,
    {
        self.state
    }

    /// The current headline level.
    pub fn header_level(&self) -> (r: u8)
        ensures
            r == self@.level,
    {
        self.header_level
    }

    /// Take `lexeme` in and return the mode that it switches to, if it switches.
    pub fn characterize_lexeme(&mut self, lexeme: &Lexeme) -> (r: Option<Mode>)
        requires
            old(self)@.state != Mode::Eof,
            !overflows(old(self)@, lexeme@),
        ensures
            (final(self)@, r) == step_spec(old(self)@, lexeme@),
    {
        match self.state {
            Mode::Bof | Mode::Newline => match lexeme {
                Lexeme::HeaderStart => {
                    self.header_level = 1;
                    Some(Mode::Header)
                },
                Lexeme::Newline => Some(Mode::Newline),
                Lexeme::ChordStart => Some(Mode::Chord),
                Lexeme::ChordEnd => {
                    self.warn(TokenizerError::UnexpectedChordEnd);
                    Some(Mode::Literal)
                },
                Lexeme::QuoteStart => Some(Mode::Quote),
                Lexeme::Colon | Lexeme::ChorusMark | Lexeme::BridgeMark | Lexeme::Literal(_) => {
                    self.append_lexeme(lexeme);
                    Some(Mode::Literal)
                },
                Lexeme::Eof => Fsm::build_eof(),
            },
            Mode::Chord => {
                match lexeme {
                    Lexeme::HeaderStart => {
                        // a sharp inside the chord
                        self.append_lexeme(lexeme);
                        None
                    },
                    Lexeme::Newline => {
                        self.warn(TokenizerError::UnclosedChord);
                        Some(Mode::Newline)
                    },
                    Lexeme::ChordStart => {
                        self.append_lexeme(lexeme);
                        self.warn(TokenizerError::NestedChord);
                        None
                    },
                    Lexeme::ChordEnd => Some(Mode::Literal),
                    Lexeme::QuoteStart | Lexeme::Colon | Lexeme::ChorusMark | Lexeme::BridgeMark => {
                        self.append_lexeme(lexeme);
                        self.warn(TokenizerError::InvalidChordCharacter);
                        None
                    },
                    Lexeme::Literal(_) => {
                        self.append_lexeme(lexeme);
                        None
                    },
                    Lexeme::Eof => {
                        self.warn(TokenizerError::UnexpectedEndOfFile);
                        Fsm::build_eof()
                    },
                }
            },
            Mode::Header => {
                match lexeme {
                    Lexeme::HeaderStart => {
                        self.header_level = self.header_level + 1;
                        None
                    },
                    Lexeme::Newline => Some(Mode::Newline),
                    Lexeme::ChordStart | Lexeme::ChordEnd => {
                        // a chord inside a headline
                        self.set_header_modifier_for_lexeme(lexeme);
                        self.append_lexeme(lexeme);
                        None
                    },
                    Lexeme::QuoteStart | Lexeme::Colon => {
                        self.set_header_modifier_for_lexeme(lexeme);
                        self.append_lexeme(lexeme);
                        None
                    },
                    Lexeme::ChorusMark | Lexeme::BridgeMark => {
                        if self.header_modifier.is_some() {
                            // the modifier is already known: the mark is text
                            self.append_lexeme(lexeme);
                        } else {
                            self.set_header_modifier_for_lexeme(lexeme);
                        }
                        None
                    },
                    Lexeme::Literal(_) => {
                        self.set_header_modifier_for_lexeme(lexeme);
                        self.append_lexeme(lexeme);
                        None
                    },
                    Lexeme::Eof => Fsm::build_eof(),
                }
            },
            Mode::Quote => match lexeme {
                Lexeme::Newline => Some(Mode::Newline),
                Lexeme::HeaderStart | Lexeme::ChordStart | Lexeme::ChordEnd | Lexeme::QuoteStart
                | Lexeme::Colon | Lexeme::ChorusMark | Lexeme::BridgeMark | Lexeme::Literal(_) => {
                    self.append_lexeme(lexeme);
                    None
                },
                Lexeme::Eof => Fsm::build_eof(),
            },
            Mode::Literal => {
                match lexeme {
                    Lexeme::Newline => Some(Mode::Newline),
                    Lexeme::HeaderStart => {
                        self.warn(TokenizerError::UnexpectedHeaderStart);
                        self.append_lexeme(lexeme);
                        None
                    },
                    Lexeme::ChordStart => Some(Mode::Chord),
                    Lexeme::ChordEnd => {
                        // a chord end without an opening bracket
                        self.warn(TokenizerError::UnexpectedChordEnd);
                        None
                    },
                    Lexeme::QuoteStart | Lexeme::Colon | Lexeme::ChorusMark | Lexeme::BridgeMark
                    | Lexeme::Literal(_) => {
                        self.append_lexeme(lexeme);
                        None
                    },
                    Lexeme::Eof => {
                        self.warn(TokenizerError::UnexpectedEndOfFile);
                        Fsm::build_eof()
                    },
                }
            },
            Mode::Eof => None,
        }
    }

    fn build_eof() -> (r: Option<Mode>)
        ensures
            r == Some(Mode::Eof),
    {
        Some(Mode::Eof)
    }

    fn warn(&mut self, w: TokenizerError)
        ensures
            final(self)@ == with_warning(old(self)@, w),
    {
        self.warnings.push(w);
    }

    /// Emit the token for the mode that the machine is leaving, if it makes one.
    pub fn build_token(&mut self) -> (r: Option<Token>)
        ensures
            (final(self)@, crate::tokenizer::token::token_option_view(r)) == build_spec(old(self)@),
    {
        match self.state {
            Mode::Header => self.build_token_from_header(),
            Mode::Chord => {
                let b = self.consume_buffer();
                Some(Token::Chord(b))
            },
            Mode::Newline => Some(Token::newline()),
            Mode::Quote => {
                let b = self.consume_buffer();
                Some(Token::Quote(trim_start(b.as_str())))
            },
            Mode::Literal => self.build_token_from_literal(),
            Mode::Bof => None,
            Mode::Eof => None,
        }
    }

    /// Switch to `state`.
    pub fn set_state(&mut self, state: Mode)
        ensures
            final(self)@ == (FsmModel { state, ..old(self)@ }),
    {
        self.state = state
    }

    fn build_token_from_header(&mut self) -> (r: Option<Token>)
        requires
            old(self)@.state == Mode::Header,
        ensures
            (final(self)@, crate::tokenizer::token::token_option_view(r)) == build_spec(old(self)@),
    {
        let level = self.header_level;
        let modifier = match self.header_modifier {
            Some(m) => m,
            None => Modifier::Plain,
        };
        let b = self.consume_buffer();
        let token = Token::Headline { level, text: trim_start(b.as_str()), modifier };
        self.header_level = 0;
        self.header_modifier = None;
        Some(token)
    }

    fn consume_buffer(&mut self) -> (r: String)
        ensures
            r@ == old(self)@.buffer,
            final(self)@ == (FsmModel { buffer: seq![], ..old(self)@ }),
    {
        let mut b = String::new();
        std::mem::swap(&mut b, &mut self.literal_buffer);
        b
    }

    fn append_lexeme(&mut self, lexeme: &Lexeme)
        ensures
            final(self)@ == with_appended(old(self)@, lexeme@),
    {
        match lexeme {
            Lexeme::Literal(inner) => {
                let mut b = String::new();
                std::mem::swap(&mut b, &mut self.literal_buffer);
                self.literal_buffer = b.concat(inner.as_str());
            },
            Lexeme::Eof => {},
            _ => crate::text::push_char(&mut self.literal_buffer, lexeme.as_char()),
        }
    }

    fn build_token_from_literal(&mut self) -> (r: Option<Token>)
        requires
            old(self)@.state == Mode::Literal,
        ensures
            (final(self)@, crate::tokenizer::token::token_option_view(r)) == build_spec(old(self)@),
    {
        let literal = self.consume_buffer();
        if literal.as_str().is_empty() {
            return None;
        }
        match RawMetadata::try_from_str(literal.as_str()) {
            Ok(meta) => Some(Token::Metadata(meta)),
            Err(_) => Some(Token::Literal(literal)),
        }
    }

    fn set_header_modifier_for_lexeme(&mut self, lexeme: &Lexeme)
        ensures
            final(self)@ == with_modifier(old(self)@, lexeme@),
    {
        if self.header_modifier.is_none() {
            if let Some(v) = lexeme.detect_modifier() {
                self.header_modifier = Some(v)
            }
        }
    }

    /// Take `lexeme` in and return the token that it completes, if any.
    pub fn feed(&mut self, lexeme: &Lexeme) -> (r: Option<Token>)
        requires
            old(self)@.state != Mode::Eof,
            !overflows(old(self)@, lexeme@),
        ensures
            final(self)@ == feed_spec(old(self)@, lexeme@).0,
            opt_seq(crate::tokenizer::token::token_option_view(r)) == feed_spec(
                old(self)@,
                lexeme@,
            ).1,
    {
        if let Some(changed_state) = self.characterize_lexeme(lexeme) {
            let token = self.build_token();
            self.set_state(changed_state);
            token
        } else {
            None
        }
    }
}

} // verus!

//! The line tokenizer for the Chorddown format: it reads one line at a time, character by
//! character.
use vstd::prelude::*;
use crate::text::{chars_of, is_blank, is_blank_str, is_ws, push_char, trim, trim_end_spec, trim_spec, trim_start_spec};
use crate::tokenizer::keyword::{count_before, find_char, meta_from_line};
use crate::tokenizer::meta::Meta;
use crate::tokenizer::modifier::{split_spec, Modifier};
use crate::tokenizer::token::{tokens_view, Token, TokenModel};
use self::mode::{
    is_end_of, is_end_of_spec, is_signal, is_signal_spec, mode_of_char, terminated_by_char, Mode,
};

pub mod mode;

verus! {

/// The token that a finished run makes.
#[verifier::opaque]
pub open spec fn line_token(mode: Mode, literal: Seq<char>, level: u8) -> TokenModel {
    match mode {
        Mode::Header => {
            let (modifier, text) = split_spec(trim_spec(literal));
            TokenModel::Headline { level, text: trim_spec(text), modifier }
        },
        Mode::Literal => match meta_from_line(literal) {
            Some(m) => TokenModel::Meta(m),
            None => TokenModel::Literal(literal),
        },
        Mode::Chord => TokenModel::Chord(trim_spec(literal)),
        Mode::Quote => TokenModel::Quote(trim_spec(literal)),
        Mode::Newline => TokenModel::Newline,
    }
}

/// The state of the line tokenizer between two characters.
pub struct LineState {
    pub tokens: Seq<TokenModel>,
    pub buf: Seq<char>,
    pub level: u8,
    pub reference: Mode,
    pub first: bool,
}

/// The state before the first character.
pub open spec fn line_start() -> LineState {
    LineState { tokens: seq![], buf: seq![], level: 1, reference: Mode::Literal, first: true }
}

/// The character after index `i` of the line, or a line break after its end.
pub open spec fn next_char(s: Seq<char>, i: int) -> char {
    if i + 1 < s.len() {
        s[i + 1]
    } else {
        '\n'
    }
}

/// The state after the character `c`, followed by `next`: the first character fixes the
/// mode; another `#` in a headline deepens it; a line break is a token of its own; a
/// character that ends the current run emits its token and opens the mode of `next`.
pub open spec fn line_step(st: LineState, c: char, next: char) -> LineState {
    let last = st.reference;
    let reference = if st.first {
        mode_of_char(c)
    } else {
        st.reference
    };
    let level = if last == Mode::Header && mode_of_char(c) == Mode::Header {
        (st.level + 1) as u8
    } else {
        st.level
    };
    let buf = if !is_signal_spec(c) {
        st.buf.push(c)
    } else {
        st.buf
    };
    if reference == Mode::Newline {
        LineState {
            tokens: st.tokens.push(line_token(reference, buf, level)),
            buf,
            level,
            reference,
            first: false,
        }
    } else if is_end_of_spec(c, reference) || terminated_by_char(reference, next) {
        LineState {
            tokens: if buf.len() > 0 {
                st.tokens.push(line_token(reference, buf, level))
            } else {
                st.tokens
            },
            buf: seq![],
            level,
            reference: mode_of_char(next),
            first: false,
        }
    } else {
        LineState { tokens: st.tokens, buf, level, reference, first: false }
    }
}

/// Whether the character `c` would deepen a headline past its largest level.
pub open spec fn line_overflows(st: LineState, c: char) -> bool {
    st.reference == Mode::Header && mode_of_char(c) == Mode::Header && st.level == 255
}

/// The state after the first `n` characters of the line `s`.
pub open spec fn line_run(s: Seq<char>, n: nat) -> LineState
    decreases n,
{
    if n == 0 {
        line_start()
    } else {
        line_step(line_run(s, (n - 1) as nat), s[n - 1], next_char(s, n - 1))
    }
}

/// Whether no headline in the line is deeper than 255 levels.
#[verifier::opaque]
pub open spec fn line_fits(s: Seq<char>) -> bool {
    forall|i: int| 0 <= i < s.len() ==> !line_overflows(line_run(s, i as nat), #[trigger] s[i])
}

/// The tokens of a line; `None` for a blank line.
#[verifier::opaque]
pub open spec fn tokenize_line_spec(s: Seq<char>) -> Option<Seq<TokenModel>> {
    if is_blank(s) {
        None
    } else {
        Some(line_run(s, s.len()).tokens)
    }
}

/// The lines of a text, each with its line break (the last one without, if the text does not
/// end with one).
#[verifier::opaque]
pub open spec fn line_pieces(s: Seq<char>) -> Seq<Seq<char>>
    decreases s.len(),
{
    let k = count_before(s, '\n');
    if s.len() == 0 {
        seq![]
    } else if k >= s.len() {
        seq![s]
    } else {
        seq![s.take(k as int + 1)] + line_pieces(s.skip(k as int + 1))
    }
}

/// The token lines of a sequence of lines, leaving the blank ones out.
pub open spec fn token_lines_spec(lines: Seq<Seq<char>>) -> Seq<Seq<TokenModel>>
    decreases lines.len(),
{
    if lines.len() == 0 {
        seq![]
    } else {
        match tokenize_line_spec(lines[0]) {
            Some(ts) => seq![ts] + token_lines_spec(lines.drop_first()),
            None => token_lines_spec(lines.drop_first()),
        }
    }
}

/// Whether every line of the text fits.
pub open spec fn all_lines_fit(lines: Seq<Seq<char>>) -> bool {
    forall|i: int| 0 <= i < lines.len() ==> line_fits(#[trigger] lines[i])
}

/// The views of token lines.
pub open spec fn token_lines_view(ls: Seq<Vec<Token>>) -> Seq<Seq<TokenModel>> {
    ls.map_values(|l: Vec<Token>| tokens_view(l@))
}

/// `n` headline marks.
pub open spec fn hashes(n: nat) -> Seq<char> {
    Seq::new(n, |i: int| '#')
}

/// Whether a character is plain headline text: no bracket, hash, quote mark or line break.
pub open spec fn plain_headline_char(c: char) -> bool {
    c != '[' && c != ']' && c != '#' && c != '>' && c != '\n'
}

/// The state of the line tokenizer inside the headline `body`, after its first `k` characters.
proof fn lemma_headline_run(s: Seq<char>, body: Seq<char>, n: nat, k: nat)
    requires
        1 <= n <= 255,
        n < body.len(),
        body.len() <= s.len() <= body.len() + 1,
        s.len() == body.len() + 1 ==> s[body.len() as int] == '\n',
        forall|i: int| 0 <= i < body.len() ==> s[i] == #[trigger] body[i],
        forall|i: int| 0 <= i < n ==> #[trigger] body[i] == '#',
        body[n as int] == '!' || body[n as int] == '-',
        forall|i: int| n < i < body.len() ==> plain_headline_char(#[trigger] body[i]),
        1 <= k < body.len(),
    ensures
        k <= n ==> line_run(s, k) == (LineState {
            tokens: seq![],
            buf: seq![],
            level: k as u8,
            reference: Mode::Header,
            first: false,
        }),
        k >= n ==> line_run(s, k) == (LineState {
            tokens: seq![],
            buf: body.subrange(n as int, k as int),
            level: n as u8,
            reference: Mode::Header,
            first: false,
        }),
    decreases k,
{
    let c = s[k - 1];
    let next = next_char(s, k - 1);
    assert(next == body[k as int]);
    if k > 1 {
        lemma_headline_run(s, body, n, (k - 1) as nat);
    }
    assert(s[k - 1] == body[k - 1]);
    if k <= n {
        assert(body[k - 1] == '#');
        assert(c == '#');
    } else {
        assert(c == body[k - 1]);
        assert(body.subrange(n as int, k - 1).push(c) =~= body.subrange(n as int, k as int));
    }
    if k == n {
        assert(body.subrange(n as int, k as int) =~= Seq::<char>::empty());
    }
}

/// A headline line, `#` written `n` times, then `!` or `-`, then its title, is one headline
/// token of level `n` whose modifier is the mark: `!` a chorus, `-` a bridge; the title is
/// trimmed. A line break at its end adds a line break token.
pub proof fn lemma_headline_line(n: nat, m: char, t: Seq<char>, newline: bool)
    requires
        1 <= n <= 255,
        m == '!' || m == '-',
        forall|i: int| 0 <= i < t.len() ==> plain_headline_char(#[trigger] t[i]),
        t.len() == 0 || !is_ws(t.last()),
    ensures
        ({
            let body = hashes(n) + seq![m] + t;
            let line = if newline { body.push('\n') } else { body };
            let headline = TokenModel::Headline {
                level: n as u8,
                text: trim_spec(t),
                modifier: if m == '!' { Modifier::Chorus } else { Modifier::Bridge },
            };
            tokenize_line_spec(line) == Some(
                if newline { seq![headline, TokenModel::Newline] } else { seq![headline] },
            )
        }),
{
    let body = hashes(n) + seq![m] + t;
    let s = if newline { body.push('\n') } else { body };
    let p = body.len();
    assert forall|i: int| 0 <= i < body.len() implies s[i] == #[trigger] body[i] by {}
    assert forall|i: int| 0 <= i < n implies #[trigger] body[i] == '#' by {}
    assert(body[n as int] == m);
    assert forall|i: int| n < i < body.len() implies plain_headline_char(#[trigger] body[i]) by {
        assert(body[i] == t[i - n - 1]);
    }
    lemma_headline_run(s, body, n, (p - 1) as nat);
    let st = line_run(s, (p - 1) as nat);
    assert(next_char(s, p - 1) == '\n');
    let lit = body.subrange(n as int, p as int);
    assert(lit =~= seq![m] + t);
    reveal(line_token);
    assert(trim_start_spec(lit) == lit);
    if t.len() == 0 {
        assert(lit.last() == m);
    } else {
        assert(lit.last() == t.last());
    }
    assert(trim_end_spec(lit) == lit);
    assert(lit.drop_first() =~= t);
    let headline = TokenModel::Headline {
        level: n as u8,
        text: trim_spec(t),
        modifier: if m == '!' { Modifier::Chorus } else { Modifier::Bridge },
    };
    assert(line_token(Mode::Header, lit, n as u8) == headline);
    let c = s[p - 1];
    assert(c == body[p - 1]);
    if p - 1 > n {
        assert(plain_headline_char(body[p - 1]));
    }
    assert(!is_signal_spec(c));
    assert(mode_of_char(c) == Mode::Literal);
    assert(st.buf.push(c) =~= lit);
    assert(line_run(s, p) == line_step(st, c, next_char(s, p - 1)));
    assert(line_run(s, p).tokens =~= seq![headline]);
    reveal(tokenize_line_spec);
    assert(!is_ws(s[0]));
    if newline {
        assert(s[p as int] == '\n');
        assert(line_token(Mode::Newline, seq![], n as u8) == TokenModel::Newline);
        assert(line_run(s, p + 1).tokens =~= seq![headline, TokenModel::Newline]);
    }
}

pub struct ChordDownTokenizer {}

fn from_mode_and_literal(mode: Mode, literal: &str, header_level: u8) -> (r: Token)
    ensures
        r@ == line_token(mode, literal@, header_level),
{
    reveal(line_token);
    match mode {
        Mode::Header => build_headline_token(header_level, trim(literal).as_str()),
        Mode::Literal => build_token_from_literal(literal),
        Mode::Chord => Token::Chord(trim(literal)),
        Mode::Quote => Token::Quote(trim(literal)),
        Mode::Newline => Token::Newline,
    }
}

fn build_token_from_literal(literal: &str) -> (r: Token)
    ensures
        r@ == line_token(Mode::Literal, literal@, 0),
{
    reveal(line_token);
    match Meta::try_from_str(literal) {
        Ok(meta) => Token::Meta(meta),
        Err(_) => Token::Literal(literal.to_owned()),
    }
}

fn build_headline_token(level: u8, value: &str) -> (r: Token)
    ensures
        ({
            let (modifier, text) = split_spec(value@);
            r@ == TokenModel::Headline { level, text: trim_spec(text), modifier }
        }),
{
    let (modifier, text) = Modifier::split(value);
    Token::Headline { level, text: trim(text.as_str()), modifier }
}

fn build_and_add_token(
    tokens: &mut Vec<Token>,
    collected_literal: &mut String,
    mode: Mode,
    header_level: u8,
)
    ensures
        tokens_view(final(tokens)@) == if old(collected_literal)@.len() > 0 {
            tokens_view(old(tokens)@).push(line_token(mode, old(collected_literal)@, header_level))
        } else {
            tokens_view(old(tokens)@)
        },
        final(collected_literal)@ == if old(collected_literal)@.len() > 0 {
            Seq::<char>::empty()
        } else {
            old(collected_literal)@
        },
{
    if !collected_literal.as_str().is_empty() {
        add_token(tokens, from_mode_and_literal(mode, collected_literal.as_str(), header_level));
        *collected_literal = String::new();
    }
}

fn add_token(tokens: &mut Vec<Token>, token: Token)
    ensures
        tokens_view(final(tokens)@) == tokens_view(old(tokens)@).push(token@),
{
    let ghost before = tokens@;
    tokens.push(token);
    assert(tokens_view(tokens@) =~= tokens_view(before).push(token@));
}

impl ChordDownTokenizer {
    pub fn new() -> (r: ChordDownTokenizer) {
        ChordDownTokenizer {  }
    }

    /// The tokens of one line, `None` for a blank line; `Err` where a headline in the line is
    /// deeper than 255 levels.
    #[verifier::rlimit(40)]
    pub fn try_tokenize_line(&self, line: &str) -> (r: Result<Option<Vec<Token>>, ()>)
        ensures
            r is Ok <==> line_fits(line@),
            r matches Ok(o) ==> match o {
                Some(ts) => tokenize_line_spec(line@) == Some(tokens_view(ts@)),
                None => tokenize_line_spec(line@) is None,
            },
    {
        let v = chars_of(line);
        let ghost s = line@;
        let mut tokens: Vec<Token> = Vec::new();
        let mut literal_buffer = String::new();
        let mut header_level: u8 = 1;
        let mut reference_mode = Mode::Literal;
        let mut is_first_frame = true;
        let mut i: usize = 0;
        assert(tokens_view(tokens@) =~= Seq::<TokenModel>::empty());
        while i < v.len()
            invariant
                i <= v.len(),
                v@ == s,
                s == line@,
                forall|k: int| 0 <= k < i ==> !line_overflows(line_run(s, k as nat), #[trigger] s[k]),
                ({
                    let st = line_run(s, i as nat);
                    &&& st.tokens == tokens_view(tokens@)
                    &&& st.buf == literal_buffer@
                    &&& st.level == header_level
                    &&& st.reference == reference_mode
                    &&& st.first == is_first_frame
                }),
            decreases v.len() - i,
        {
            let current_character = v[i];
            let last_mode = reference_mode;
            if last_mode == Mode::Header && Mode::from_char(current_character) == Mode::Header
                && header_level == 255 {
                proof {
                    reveal(line_fits);
                    assert(line_overflows(line_run(s, i as nat), s[i as int]));
                }
                return Err(());
            }
            if is_first_frame {
                reference_mode = Mode::from_char(current_character);
                is_first_frame = false;
            }
            let current_mode = Mode::from_char(current_character);
            if last_mode == Mode::Header && current_mode == Mode::Header {
                header_level = header_level + 1;
            }
            let next_character = if i + 1 < v.len() {
                v[i + 1]
            } else {
                '\n'
            };
            let next_mode = Mode::from_char(next_character);
            if !is_signal(current_character) {
                push_char(&mut literal_buffer, current_character);
            }
            if reference_mode.is_self_closing() {
                add_token(
                    &mut tokens,
                    from_mode_and_literal(reference_mode, literal_buffer.as_str(), header_level),
                );
            } else if is_end_of(current_character, reference_mode)
                || reference_mode.is_terminated_by_char(next_character) {
                // the run ends: emit its token and open the next mode
                build_and_add_token(&mut tokens, &mut literal_buffer, reference_mode, header_level);
                if !literal_buffer.as_str().is_empty() {
                    literal_buffer = String::new();
                }
                reference_mode = next_mode;
            }
            i = i + 1;
        }
        proof {
            reveal(tokenize_line_spec);
            reveal(line_fits);
        }
        if is_blank_str(line) {
            return Ok(None);
        }
        Ok(Some(tokens))
    }

    /// The tokens of one line, `None` for a blank line.
    pub fn tokenize_line(&self, line: &str) -> (r: Option<Vec<Token>>)
        requires
            line_fits(line@),
        ensures
            match r {
                Some(ts) => tokenize_line_spec(line@) == Some(tokens_view(ts@)),
                None => tokenize_line_spec(line@) is None,
            },
    {
        match self.try_tokenize_line(line) {
            Ok(o) => o,
            Err(_) => None,
        }
    }

    /// The token lines of a text, leaving the blank lines out; `None` where a headline is
    /// deeper than 255 levels.
    #[verifier::rlimit(40)]
    pub fn try_tokenize(&self, content: &str) -> (r: Option<Vec<Vec<Token>>>)
        ensures
            r is Some <==> all_lines_fit(line_pieces(content@)),
            r matches Some(ls) ==> token_lines_view(ls@) == token_lines_spec(line_pieces(content@)),
    {
        let v = chars_of(content);
        let mut lines: Vec<Vec<Token>> = Vec::new();
        let mut start: usize = 0;
        let ghost all = line_pieces(content@);
        let ghost mut done: Seq<Seq<char>> = seq![];
        assert(v@.skip(0) =~= v@);
        assert(token_lines_view(lines@) =~= Seq::<Seq<TokenModel>>::empty());
        while start < v.len()
            invariant
                start <= v.len(),
                v@ == content@,
                all == line_pieces(content@),
                all == done + line_pieces(v@.skip(start as int)),
                all_lines_fit(done),
                token_lines_view(lines@) == token_lines_spec(done),
            decreases v.len() - start,
        {
            let k = find_char(&v, start, '\n');
            let end = if k < v.len() {
                k + 1
            } else {
                k
            };
            let piece = crate::text::string_from_range(&v, start, end);
            let ghost rest = v@.skip(start as int);
            proof {
                crate::tokenizer::keyword::lemma_count_before(rest, '\n');
                if k < v.len() {
                    assert(rest.take(k - start + 1) =~= piece@);
                    assert(rest.skip(k - start + 1) =~= v@.skip(end as int));
                } else {
                    assert(rest =~= piece@);
                    assert(v@.skip(end as int) =~= Seq::<char>::empty());
                }
                reveal(line_pieces);
                assert(line_pieces(rest) =~= seq![piece@] + line_pieces(v@.skip(end as int)));
            }
            let ghost old_done = done;
            proof {
                done = done + seq![piece@];
                lemma_token_lines_push(old_done, piece@);
            }
            match self.try_tokenize_line(piece.as_str()) {
                Err(_) => {
                    proof {
                        assert(all[old_done.len() as int] == piece@);
                        assert(!line_fits(all[old_done.len() as int]));
                    }
                    return None;
                },
                Ok(Some(ts)) => {
                    let ghost before = lines@;
                    lines.push(ts);
                    assert(token_lines_view(lines@) =~= token_lines_view(before).push(
                        tokens_view(ts@),
                    ));
                },
                Ok(None) => {},
            }
            assert(all_lines_fit(done)) by {
                assert forall|j: int| 0 <= j < done.len() implies line_fits(#[trigger] done[j]) by {
                    if j < old_done.len() {
                        assert(done[j] == old_done[j]);
                    }
                }
            }
            assert(all =~= done + line_pieces(v@.skip(end as int)));
            start = end;
        }
        assert(v@.skip(start as int) =~= Seq::<char>::empty());
        proof {
            reveal(line_pieces);
        }
        assert(all =~= done);
        Some(lines)
    }

    /// The token lines of a text, leaving the blank lines out.
    pub fn tokenize(&self, content: &str) -> (r: Vec<Vec<Token>>)
        requires
            all_lines_fit(line_pieces(content@)),
        ensures
            token_lines_view(r@) == token_lines_spec(line_pieces(content@)),
    {
        match self.try_tokenize(content) {
            Some(ls) => ls,
            None => Vec::new(),
        }
    }
}

proof fn lemma_token_lines_push(lines: Seq<Seq<char>>, last: Seq<char>)
    ensures
        token_lines_spec(lines + seq![last]) == token_lines_spec(lines) + match tokenize_line_spec(
            last,
        ) {
            Some(ts) => seq![ts],
            None => Seq::<Seq<TokenModel>>::empty(),
        },
    decreases lines.len(),
{
    if lines.len() == 0 {
        assert(lines + seq![last] =~= seq![last]);
        assert(seq![last].drop_first() =~= Seq::<Seq<char>>::empty());
        assert(seq![last][0] == last);
        assert(token_lines_spec(Seq::<Seq<char>>::empty()) == Seq::<Seq<TokenModel>>::empty());
        match tokenize_line_spec(last) {
            Some(ts) => {
                assert(seq![ts] + Seq::<Seq<TokenModel>>::empty() =~= seq![ts]);
            },
            None => {},
        }
        assert(Seq::<Seq<TokenModel>>::empty() + token_lines_spec(seq![last]) =~= token_lines_spec(
            seq![last],
        ));
    } else {
        assert((lines + seq![last]).drop_first() =~= lines.drop_first() + seq![last]);
        lemma_token_lines_push(lines.drop_first(), last);
        match tokenize_line_spec(lines[0]) {
            Some(ts) => {
                assert(seq![ts] + (token_lines_spec(lines.drop_first()) + match tokenize_line_spec(
                    last,
                ) {
                    Some(t) => seq![t],
                    None => Seq::<Seq<TokenModel>>::empty(),
                }) =~= (seq![ts] + token_lines_spec(lines.drop_first())) + match tokenize_line_spec(
                    last,
                ) {
                    Some(t) => seq![t],
                    None => Seq::<Seq<TokenModel>>::empty(),
                });
            },
            None => {},
        }
    }
}

/// All the tokens of token lines, one line after another.
pub fn token_lines_to_tokens(token_lines: Vec<Vec<Token>>) -> (r: Vec<Token>)
    ensures
        tokens_view(r@) == token_lines_view(token_lines@).fold_left(
            Seq::<TokenModel>::empty(),
            |acc: Seq<TokenModel>, l: Seq<TokenModel>| acc + l,
        ),
{
    let mut r: Vec<Token> = Vec::new();
    let mut i: usize = 0;
    assert(tokens_view(r@) =~= Seq::<TokenModel>::empty());
    while i < token_lines.len()
        invariant
            i <= token_lines.len(),
            tokens_view(r@) == token_lines_view(token_lines@).take(i as int).fold_left(
                Seq::<TokenModel>::empty(),
                |acc: Seq<TokenModel>, l: Seq<TokenModel>| acc + l,
            ),
        decreases token_lines.len() - i,
    {
        let line = &token_lines[i];
        let mut j: usize = 0;
        let ghost base = tokens_view(r@);
        assert(tokens_view(line@).take(0) =~= Seq::<TokenModel>::empty());
        assert(base + Seq::<TokenModel>::empty() =~= base);
        while j < line.len()
            invariant
                j <= line.len(),
                tokens_view(r@) == base + tokens_view(line@).take(j as int),
            decreases line.len() - j,
        {
            let ghost before = r@;
            let t = line[j].duplicate();
            r.push(t);
            assert(tokens_view(line@)[j as int] == line@[j as int]@);
            assert(tokens_view(r@) =~= tokens_view(before).push(t@));
            assert(tokens_view(line@).take(j + 1) =~= tokens_view(line@).take(j as int).push(
                t@,
            ));
            assert(tokens_view(r@) =~= base + tokens_view(line@).take(j + 1));
            j = j + 1;
        }
        assert(tokens_view(line@).take(j as int) =~= tokens_view(line@));
        proof {
            let ls = token_lines_view(token_lines@);
            assert(ls.take(i + 1).drop_last() =~= ls.take(i as int));
            assert(ls.take(i + 1).last() == tokens_view(line@));
        }
        i = i + 1;
    }
    assert(token_lines_view(token_lines@).take(i as int) =~= token_lines_view(token_lines@));
    r
}

} // verus!

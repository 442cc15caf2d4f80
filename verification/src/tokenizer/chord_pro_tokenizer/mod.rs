//! The tokenizer of the ChordPro format: chords in brackets, directives in braces, comments
//! after a hash sign.
pub mod directive;
pub mod token;

use vstd::prelude::*;
use crate::text::{chars_of, string_from_chars, string_from_range, trim_spec};
use crate::tokenizer::chord_down_tokenizer::line_pieces;
use crate::tokenizer::keyword::{count_before, find_char, lemma_count_before};
use crate::tokenizer::mode::{Mode, is_end_character_spec, mode_of_char};
use self::token::{Token, ProTokenModel, pro_token_of, pro_tokens_view};

verus! {

/// The state of the ChordPro tokenizer within a line: the current mode, the text collected in
/// it, and the tokens made so far.
pub struct ProState {
    pub mode: Mode,
    pub collected: Seq<char>,
    pub tokens: Seq<ProTokenModel>,
}

/// `tokens`, with the token of the collected text appended where any text was collected.
pub open spec fn pro_flush(tokens: Seq<ProTokenModel>, collected: Seq<char>, mode: Mode) -> Seq<
    ProTokenModel,
> {
    if collected.len() == 0 {
        tokens
    } else {
        tokens.push(pro_token_of(mode, collected))
    }
}

/// The state at the start of a line.
pub open spec fn pro_start() -> ProState {
    ProState { mode: Mode::Literal, collected: seq![], tokens: seq![] }
}

/// One character read: outside any block, a bracket, brace or hash sign opens a block and a
/// line break makes a token of its own; inside a block, its closing character ends it.
pub open spec fn pro_step(st: ProState, c: char) -> ProState {
    if st.mode == Mode::Literal {
        let nm = mode_of_char(c);
        if nm == Mode::Newline {
            ProState {
                mode: Mode::Literal,
                collected: seq![],
                tokens: pro_flush(st.tokens, st.collected, st.mode).push(ProTokenModel::Newline),
            }
        } else if nm != Mode::Literal {
            ProState { mode: nm, collected: seq![], tokens: pro_flush(st.tokens, st.collected, st.mode) }
        } else {
            ProState { mode: st.mode, collected: st.collected.push(c), tokens: st.tokens }
        }
    } else if is_end_character_spec(st.mode, c) {
        ProState {
            mode: Mode::Literal,
            collected: seq![],
            tokens: pro_flush(st.tokens, st.collected, st.mode),
        }
    } else {
        ProState { mode: st.mode, collected: st.collected.push(c), tokens: st.tokens }
    }
}

/// The state after the first `n` characters of `s`.
pub open spec fn pro_run(s: Seq<char>, n: nat) -> ProState
    decreases n,
{
    if n == 0 || n > s.len() {
        pro_start()
    } else {
        pro_step(pro_run(s, (n - 1) as nat), s[n - 1])
    }
}

/// The tokens of a line of ChordPro text.
pub open spec fn pro_tokenize_line_spec(s: Seq<char>) -> Seq<ProTokenModel> {
    let st = pro_run(s, s.len());
    pro_flush(st.tokens, st.collected, st.mode)
}

/// Whether a character opens a block or breaks the line.
pub open spec fn is_pro_signal(c: char) -> bool {
    mode_of_char(c) != Mode::Literal
}

/// The token lines of a sequence of lines.
pub open spec fn pro_lines_spec(lines: Seq<Seq<char>>) -> Seq<Seq<ProTokenModel>> {
    lines.map_values(|l: Seq<char>| pro_tokenize_line_spec(l))
}

/// The views of token lines.
pub open spec fn pro_lines_view(ls: Seq<Vec<Token>>) -> Seq<Seq<ProTokenModel>> {
    ls.map_values(|l: Vec<Token>| pro_tokens_view(l@))
}

/// A line without brackets, braces, hash signs and line breaks is one literal token holding the
/// whole line (no token at all for an empty line).
pub proof fn lemma_plain_line_is_literal(s: Seq<char>)
    requires
        forall|i: int| 0 <= i < s.len() ==> !is_pro_signal(#[trigger] s[i]),
    ensures
        pro_tokenize_line_spec(s) == (if s.len() == 0 {
            seq![]
        } else {
            seq![ProTokenModel::Literal(s)]
        }),
{
    lemma_plain_run(s, s.len());
    assert(s.take(s.len() as int) =~= s);
}

proof fn lemma_plain_run(s: Seq<char>, n: nat)
    requires
        n <= s.len(),
        forall|i: int| 0 <= i < s.len() ==> !is_pro_signal(#[trigger] s[i]),
    ensures
        pro_run(s, n) == (ProState { mode: Mode::Literal, collected: s.take(n as int), tokens: seq![] }),
    decreases n,
{
    if n == 0 {
        assert(s.take(0) =~= Seq::<char>::empty());
    } else {
        lemma_plain_run(s, (n - 1) as nat);
        assert(!is_pro_signal(s[n - 1]));
        assert(s.take(n - 1).push(s[n - 1]) =~= s.take(n as int));
    }
}

proof fn lemma_chord_collect(s: Seq<char>, c: Seq<char>, k: nat)
    requires
        s == seq!['['] + c + seq![']'],
        forall|i: int| 0 <= i < c.len() ==> #[trigger] c[i] != ']',
        1 <= k <= c.len() + 1,
    ensures
        pro_run(s, k) == (ProState {
            mode: Mode::Chord,
            collected: c.take(k - 1),
            tokens: seq![],
        }),
    decreases k,
{
    if k == 1 {
        assert(s[0] == '[');
        assert(c.take(0) =~= Seq::<char>::empty());
        assert(pro_run(s, 0) == pro_start());
    } else {
        lemma_chord_collect(s, c, (k - 1) as nat);
        assert(s[k - 1] == c[k - 2]);
        assert(c.take(k - 2).push(c[k - 2]) =~= c.take(k - 1));
    }
}

/// A ChordPro chord mark, `[` then the chord's text then `]`, is one chord token holding the
/// trimmed text (no token for an empty mark).
pub proof fn lemma_pro_chord_mark(c: Seq<char>)
    requires
        forall|i: int| 0 <= i < c.len() ==> #[trigger] c[i] != ']',
    ensures
        pro_tokenize_line_spec(seq!['['] + c + seq![']']) == (if c.len() == 0 {
            seq![]
        } else {
            seq![ProTokenModel::Chord(trim_spec(c))]
        }),
{
    let s = seq!['['] + c + seq![']'];
    let n = c.len();
    lemma_chord_collect(s, c, n + 1);
    assert(c.take(n as int) =~= c);
    assert(s[n + 1int] == ']');
    assert(s.len() == n + 2);
    assert(pro_run(s, (n + 2) as nat) == pro_step(pro_run(s, (n + 1) as nat), s[n + 1int]));
    if n == 0 {
        assert(Seq::<ProTokenModel>::empty() =~= seq![]);
    }
}

/// The ChordPro tokenizer.
pub struct ChordProTokenizer {}

impl ChordProTokenizer {
    /// A new tokenizer.
    pub fn new() -> (r: ChordProTokenizer) {
        ChordProTokenizer {  }
    }

    /// Appends the token of the collected text, if any was collected, and empties the collection.
    fn add_token(tokens: &mut Vec<Token>, collected: &mut Vec<char>, mode: Mode)
        ensures
            pro_tokens_view(final(tokens)@) == pro_flush(
                pro_tokens_view(old(tokens)@),
                old(collected)@,
                mode,
            ),
            final(collected)@ == Seq::<char>::empty(),
    {
        if collected.len() > 0 {
            let literal = string_from_chars(collected);
            let t = Token::from_mode_and_literal(mode, literal.as_str());
            let ghost before = tokens@;
            tokens.push(t);
            assert(pro_tokens_view(tokens@) =~= pro_tokens_view(before).push(t@));
            *collected = Vec::new();
        } else {
            assert(collected@ =~= Seq::<char>::empty());
        }
    }

    /// The tokens of one line.
    pub fn tokenize_line(&self, line: &str) -> (r: Vec<Token>)
        ensures
            pro_tokens_view(r@) == pro_tokenize_line_spec(line@),
    {
        let v = chars_of(line);
        let mut collected: Vec<char> = Vec::new();
        let mut mode = Mode::Literal;
        let mut tokens: Vec<Token> = Vec::new();
        let mut i: usize = 0;
        assert(pro_tokens_view(tokens@) =~= Seq::<ProTokenModel>::empty());
        while i < v.len()
            invariant
                i <= v.len(),
                v@ == line@,
                pro_run(v@, i as nat) == (ProState {
                    mode: mode,
                    collected: collected@,
                    tokens: pro_tokens_view(tokens@),
                }),
            decreases v.len() - i,
        {
            let character = v[i];
            if mode == Mode::Literal {
                let new_mode = Mode::from_char(character);
                if new_mode.is_self_closing() {
                    ChordProTokenizer::add_token(&mut tokens, &mut collected, mode);
                    let ghost before = tokens@;
                    let t = Token::from_mode_and_literal(new_mode, "");
                    tokens.push(t);
                    assert(pro_tokens_view(tokens@) =~= pro_tokens_view(before).push(
                        ProTokenModel::Newline,
                    ));
                    mode = Mode::Literal;
                } else if new_mode != mode && new_mode != Mode::Literal {
                    ChordProTokenizer::add_token(&mut tokens, &mut collected, mode);
                    mode = new_mode;
                } else {
                    collected.push(character);
                }
            } else if mode.is_end_character(character) {
                ChordProTokenizer::add_token(&mut tokens, &mut collected, mode);
                mode = Mode::Literal;
            } else {
                collected.push(character);
            }
            i = i + 1;
        }
        ChordProTokenizer::add_token(&mut tokens, &mut collected, mode);
        tokens
    }

    /// The token lines of a text: one for each line, line break included.
    pub fn tokenize(&self, content: &str) -> (r: Vec<Vec<Token>>)
        ensures
            pro_lines_view(r@) == pro_lines_spec(line_pieces(content@)),
    {
        let v = chars_of(content);
        let mut lines: Vec<Vec<Token>> = Vec::new();
        let mut start: usize = 0;
        let ghost all = line_pieces(content@);
        let ghost mut done: Seq<Seq<char>> = seq![];
        assert(v@.skip(0) =~= v@);
        assert(pro_lines_view(lines@) =~= pro_lines_spec(done));
        while start < v.len()
            invariant
                start <= v.len(),
                v@ == content@,
                all == line_pieces(content@),
                all == done + line_pieces(v@.skip(start as int)),
                pro_lines_view(lines@) == pro_lines_spec(done),
            decreases v.len() - start,
        {
            let k = find_char(&v, start, '\n');
            let end = if k < v.len() {
                k + 1
            } else {
                k
            };
            let piece = string_from_range(&v, start, end);
            let ghost rest = v@.skip(start as int);
            proof {
                lemma_count_before(rest, '\n');
                if k < v.len() {
                    assert(rest.take(k - start + 1) =~= piece@);
                    assert(rest.skip(k - start + 1) =~= v@.skip(end as int));
                } else {
                    assert(rest =~= piece@);
                    assert(v@.skip(end as int) =~= Seq::<char>::empty());
                }
                reveal(line_pieces);
                assert(line_pieces(rest) =~= seq![piece@] + line_pieces(v@.skip(end as int)));
            }
            let ts = self.tokenize_line(piece.as_str());
            let ghost before = lines@;
            let ghost old_done = done;
            lines.push(ts);
            proof {
                done = done + seq![piece@];
                assert(pro_lines_view(lines@) =~= pro_lines_view(before).push(
                    pro_tokens_view(ts@),
                ));
                assert(pro_lines_spec(done) =~= pro_lines_spec(old_done).push(
                    pro_tokenize_line_spec(piece@),
                ));
            }
            assert(all =~= done + line_pieces(v@.skip(end as int)));
            start = end;
        }
        assert(v@.skip(start as int) =~= Seq::<char>::empty());
        proof {
            reveal(line_pieces);
        }
        assert(all =~= done);
        lines
    }
}

} // verus!

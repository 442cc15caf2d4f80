//! The scanner: it cuts a song text into lexemes.
use vstd::prelude::*;
use crate::text::{chars_of, push_char};
use super::lexeme::{
    lexeme_text, lexemes_view, mark_of_char, Lexeme, LexemeModel, BRIDGE_MARK, CHORD_END,
    CHORD_START, CHORUS_MARK, COLON, HEADER_START, NEWLINE, QUOTE_START,
};

verus! {

/// `lex` with the pending literal text `buf` appended as a lexeme, if there is any.
pub open spec fn flush(lex: Seq<LexemeModel>, buf: Seq<char>) -> Seq<LexemeModel> {
    if buf.len() == 0 {
        lex
    } else {
        lex.push(LexemeModel::Literal(buf))
    }
}

/// The lexemes of `s`, after the lexemes `lex` already produced and the pending text `buf`:
/// each mark character becomes a lexeme of its own, the runs of other characters between
/// them become literals, and the end of the input becomes `Eof`.
pub open spec fn scan_from(s: Seq<char>, lex: Seq<LexemeModel>, buf: Seq<char>) -> Seq<
    LexemeModel,
>
    decreases s.len(),
{
    if s.len() == 0 {
        flush(lex, buf).push(LexemeModel::Eof)
    } else {
        match mark_of_char(s[0]) {
            Some(l) => scan_from(s.drop_first(), flush(lex, buf).push(l), seq![]),
            None => scan_from(s.drop_first(), lex, buf.push(s[0])),
        }
    }
}

/// The lexemes of a whole song text.
pub open spec fn scan_spec(s: Seq<char>) -> Seq<LexemeModel> {
    scan_from(s, seq![], seq![])
}

/// The text that a sequence of lexemes stands for.
pub open spec fn render(ls: Seq<LexemeModel>) -> Seq<char>
    decreases ls.len(),
{
    if ls.len() == 0 {
        seq![]
    } else {
        render(ls.drop_last()) + lexeme_text(ls.last())
    }
}

pub struct Scanner {
    lexemes: Vec<Lexeme>,
}

impl Scanner {
    /// A scanner that has produced nothing yet.
    pub fn new() -> (r: Scanner)
        ensures
            r.produced().len() == 0,
    {
        Scanner { lexemes: Vec::with_capacity(400) }
    }

    /// The lexemes produced so far.
    pub closed spec fn produced(&self) -> Seq<LexemeModel> {
        lexemes_view(self.lexemes@)
    }

    /// Cut `input` into lexemes, after those produced so far.
    pub fn scan(self, input: &str) -> (r: Vec<Lexeme>)
        ensures
            lexemes_view(r@) == scan_from(input@, self.produced(), seq![]),
    {
        let mut scanner = self;
        let v = chars_of(input);
        let mut literal_buffer = String::new();
        let ghost start = scanner.produced();
        let mut i: usize = 0;
        assert(v@.skip(0) =~= v@);
        while i < v.len()
            invariant
                i <= v.len(),
                v@ == input@,
                scan_from(input@, start, seq![]) == scan_from(
                    v@.skip(i as int),
                    lexemes_view(scanner.lexemes@),
                    literal_buffer@,
                ),
            decreases v.len() - i,
        {
            let c = v[i];
            assert(v@.skip(i as int).drop_first() =~= v@.skip(i + 1));
            assert(v@.skip(i as int)[0] == c);
            if c == NEWLINE {
                scanner.build_n_push(&mut literal_buffer, Lexeme::Newline);
            } else if c == CHORD_START {
                scanner.build_n_push(&mut literal_buffer, Lexeme::ChordStart);
            } else if c == CHORD_END {
                scanner.build_n_push(&mut literal_buffer, Lexeme::ChordEnd);
            } else if c == HEADER_START {
                scanner.build_n_push(&mut literal_buffer, Lexeme::HeaderStart);
            } else if c == QUOTE_START {
                scanner.build_n_push(&mut literal_buffer, Lexeme::QuoteStart);
            } else if c == COLON {
                scanner.build_n_push(&mut literal_buffer, Lexeme::Colon);
            } else if c == CHORUS_MARK {
                scanner.build_n_push(&mut literal_buffer, Lexeme::ChorusMark);
            } else if c == BRIDGE_MARK {
                scanner.build_n_push(&mut literal_buffer, Lexeme::BridgeMark);
            } else {
                push_char(&mut literal_buffer, c);
            }
            i = i + 1;
        }
        assert(v@.skip(i as int) =~= Seq::<char>::empty());
        scanner.build_n_push(&mut literal_buffer, Lexeme::Eof);
        scanner.lexemes
    }

    /// Flush `literal_buffer` (see `build_n_drain`) and append `lexeme`.
    fn build_n_push(&mut self, literal_buffer: &mut String, lexeme: Lexeme)
        ensures
            final(self).produced() == flush(old(self).produced(), old(literal_buffer)@).push(
                lexeme@,
            ),
            final(literal_buffer)@ == Seq::<char>::empty(),
    {
        self.build_n_drain(literal_buffer);
        let ghost before = self.lexemes@;
        self.lexemes.push(lexeme);
        assert(lexemes_view(self.lexemes@) =~= lexemes_view(before).push(lexeme@));
    }

    /// Append the pending literal text as a lexeme, if there is any, and empty the buffer.
    fn build_n_drain(&mut self, literal_buffer: &mut String)
        ensures
            final(self).produced() == flush(old(self).produced(), old(literal_buffer)@),
            final(literal_buffer)@ == Seq::<char>::empty(),
    {
        if !literal_buffer.as_str().is_empty() {
            let mut text = String::new();
            std::mem::swap(&mut text, literal_buffer);
            let ghost before = self.lexemes@;
            self.lexemes.push(Lexeme::Literal(text));
            assert(lexemes_view(self.lexemes@) =~= lexemes_view(before).push(
                LexemeModel::Literal(text@),
            ));
        }
    }
}

/// Flushing a pending text appends it to what the lexemes stand for.
pub proof fn lemma_render_flush(lex: Seq<LexemeModel>, buf: Seq<char>)
    ensures
        render(flush(lex, buf)) == render(lex) + buf,
{
    if buf.len() == 0 {
        assert(render(lex) + buf =~= render(lex));
    } else {
        assert(lex.push(LexemeModel::Literal(buf)).drop_last() =~= lex);
    }
}

/// What the lexemes of `s` stand for is what was produced, the pending text, then `s`.
pub proof fn lemma_render_scan_from(s: Seq<char>, lex: Seq<LexemeModel>, buf: Seq<char>)
    ensures
        render(scan_from(s, lex, buf)) == render(lex) + buf + s,
    decreases s.len(),
{
    if s.len() == 0 {
        let f = flush(lex, buf);
        lemma_render_flush(lex, buf);
        assert(f.push(LexemeModel::Eof).drop_last() =~= f);
        assert(render(lex) + buf + s =~= render(lex) + buf);
        assert(render(f) + lexeme_text(LexemeModel::Eof) =~= render(f));
    } else {
        match mark_of_char(s[0]) {
            Some(l) => {
                let f = flush(lex, buf).push(l);
                lemma_render_scan_from(s.drop_first(), f, seq![]);
                lemma_render_flush(lex, buf);
                assert(f.drop_last() =~= flush(lex, buf));
                assert(lexeme_text(l) =~= seq![s[0]]);
                assert(render(f) + Seq::<char>::empty() + s.drop_first() =~= render(lex) + buf
                    + s);
            },
            None => {
                lemma_render_scan_from(s.drop_first(), lex, buf.push(s[0]));
                assert(render(lex) + buf.push(s[0]) + s.drop_first() =~= render(lex) + buf + s);
            },
        }
    }
}

/// Whether no lexeme of `ls` is `Eof` and no literal of `ls` is empty.
pub open spec fn well_cut(ls: Seq<LexemeModel>) -> bool {
    forall|i: int|
        0 <= i < ls.len() ==> !(#[trigger] ls[i] is Eof) && (ls[i] matches LexemeModel::Literal(
            t,
        ) ==> t.len() > 0)
}

/// The lexemes of `s` end with the one `Eof`, and no literal among them is empty.
pub proof fn lemma_scan_from_shape(s: Seq<char>, lex: Seq<LexemeModel>, buf: Seq<char>)
    requires
        well_cut(lex),
    ensures
        scan_from(s, lex, buf).len() >= 1,
        scan_from(s, lex, buf).last() is Eof,
        well_cut(scan_from(s, lex, buf).drop_last()),
    decreases s.len(),
{
    let f = flush(lex, buf);
    assert(well_cut(f)) by {
        if buf.len() > 0 {
            assert forall|i: int| 0 <= i < f.len() implies !(#[trigger] f[i] is Eof) && (
            f[i] matches LexemeModel::Literal(t) ==> t.len() > 0) by {
                if i < lex.len() {
                    assert(f[i] == lex[i]);
                }
            }
        }
    }
    if s.len() == 0 {
        assert(f.push(LexemeModel::Eof).drop_last() =~= f);
    } else {
        match mark_of_char(s[0]) {
            Some(l) => {
                let g = f.push(l);
                assert(well_cut(g)) by {
                    assert forall|i: int| 0 <= i < g.len() implies !(#[trigger] g[i] is Eof) && (
                    g[i] matches LexemeModel::Literal(t) ==> t.len() > 0) by {
                        if i < f.len() {
                            assert(g[i] == f[i]);
                        }
                    }
                }
                lemma_scan_from_shape(s.drop_first(), g, seq![]);
            },
            None => {
                lemma_scan_from_shape(s.drop_first(), lex, buf.push(s[0]));
            },
        }
    }
}

/// Whether a lexeme that is a literal holds text, none of it a mark character.
pub open spec fn literal_ok(l: LexemeModel) -> bool {
    match l {
        LexemeModel::Literal(t) => t.len() > 0 && forall|k: int|
            0 <= k < t.len() ==> mark_of_char(#[trigger] t[k]) is None,
        _ => true,
    }
}

/// Whether every literal of `ls` holds text without mark characters, and no two literals
/// follow each other.
pub open spec fn literals_apart(ls: Seq<LexemeModel>) -> bool {
    &&& forall|i: int| 0 <= i < ls.len() ==> literal_ok(#[trigger] ls[i])
    &&& forall|i: int| 0 <= i < ls.len() - 1 ==> !(#[trigger] ls[i] is Literal && ls[i + 1] is Literal)
}

proof fn lemma_push_apart(ls: Seq<LexemeModel>, l: LexemeModel)
    requires
        literals_apart(ls),
        literal_ok(l),
        ls.len() > 0 && ls.last() is Literal ==> !(l is Literal),
    ensures
        literals_apart(ls.push(l)),
{
    let g = ls.push(l);
    assert forall|i: int| 0 <= i < g.len() implies literal_ok(#[trigger] g[i]) by {
        if i < ls.len() {
            assert(g[i] == ls[i]);
        }
    }
    assert forall|i: int| 0 <= i < g.len() - 1 implies !(#[trigger] g[i] is Literal && g[i
        + 1] is Literal) by {
        assert(g[i] == ls[i]);
        if i + 1 < ls.len() {
            assert(g[i + 1] == ls[i + 1]);
        }
    }
}

proof fn lemma_scan_from_literals(s: Seq<char>, lex: Seq<LexemeModel>, buf: Seq<char>)
    requires
        literals_apart(lex),
        lex.len() > 0 ==> !(lex.last() is Literal),
        forall|k: int| 0 <= k < buf.len() ==> mark_of_char(#[trigger] buf[k]) is None,
    ensures
        literals_apart(scan_from(s, lex, buf).drop_last()),
    decreases s.len(),
{
    let f = flush(lex, buf);
    if buf.len() > 0 {
        lemma_push_apart(lex, LexemeModel::Literal(buf));
    }
    if s.len() == 0 {
        assert(f.push(LexemeModel::Eof).drop_last() =~= f);
    } else {
        match mark_of_char(s[0]) {
            Some(l) => {
                assert(!(l is Literal));
                lemma_push_apart(f, l);
                let g = f.push(l);
                assert(g.last() == l);
                lemma_scan_from_literals(s.drop_first(), g, seq![]);
            },
            None => {
                let b2 = buf.push(s[0]);
                assert forall|k: int| 0 <= k < b2.len() implies mark_of_char(#[trigger] b2[k]) is None by {
                    if k < buf.len() {
                        assert(b2[k] == buf[k]);
                    }
                }
                lemma_scan_from_literals(s.drop_first(), lex, b2);
            },
        }
    }
}

/// Scanning loses nothing: the lexemes of a text, written out one after another, give back
/// the text.
pub proof fn lemma_scan_round_trip(s: Seq<char>)
    ensures
        render(scan_spec(s)) == s,
{
    lemma_render_scan_from(s, seq![], seq![]);
    assert(render(Seq::<LexemeModel>::empty()) + Seq::<char>::empty() + s =~= s);
}

/// The lexemes of a text end with the one `Eof`; every literal among them holds text, none of
/// it a mark character (each mark is a lexeme of its own), and no two literals follow each
/// other.
pub proof fn lemma_scan_shape(s: Seq<char>)
    ensures
        scan_spec(s).len() >= 1,
        scan_spec(s).last() is Eof,
        well_cut(scan_spec(s).drop_last()),
        literals_apart(scan_spec(s).drop_last()),
{
    lemma_scan_from_shape(s, seq![], seq![]);
    lemma_scan_from_literals(s, seq![], seq![]);
}

} // verus!

//! The scanning tokenizer for the Chorddown format: a scanner cuts the text into lexemes and a
//! state machine turns the lexemes into tokens.
use vstd::prelude::*;
use crate::tokenizer::token::{tokens_view, Token, TokenModel};
use self::lexeme::Lexeme;
use self::mode::Mode;
use self::scanner::{
    flush, lemma_scan_round_trip, lemma_scan_shape, literal_ok, literals_apart, render, scan_from,
    scan_spec, well_cut, Scanner,
};
use self::state_machine::{build_spec, feed_spec, literal_token, opt_seq, overflows, step_spec, FsmModel};
use self::lexeme::{lexeme_text, mark_of_char, LexemeModel};
use crate::tokenizer::keyword::{lemma_count_before, meta_from_line};
use crate::tokenizer::modifier::Modifier;
use crate::text::trim_start_spec;
use self::state_machine::{initial_model, run_fits, run_from, Fsm};

pub mod lexeme;
pub mod mode;
pub mod scanner;
pub mod state_machine;

verus! {

/// The tokens of a Chorddown text.
pub open spec fn tokenize_spec(s: Seq<char>) -> Seq<TokenModel> {
    run_from(initial_model(), scan_spec(s))
}

/// Whether a Chorddown text can be tokenized: no headline is deeper than 255 levels.
pub open spec fn tokenize_fits(s: Seq<char>) -> bool {
    run_fits(initial_model(), scan_spec(s))
}

/// Whether a character can stand in a plain lyric line: no bracket, hash, line break or colon.
pub open spec fn plain_lyric_char(c: char) -> bool {
    c != '[' && c != ']' && c != '#' && c != '\n' && c != ':'
}

/// The text of lexemes is the text of the first one followed by that of the rest.
proof fn lemma_render_front(ls: Seq<LexemeModel>)
    requires
        ls.len() > 0,
    ensures
        render(ls) == lexeme_text(ls[0]) + render(ls.drop_first()),
    decreases ls.len(),
{
    if ls.len() == 1 {
        assert(ls.drop_last() =~= Seq::<LexemeModel>::empty());
        assert(ls.drop_first() =~= Seq::<LexemeModel>::empty());
        assert(render(Seq::<LexemeModel>::empty()) + lexeme_text(ls[0]) =~= lexeme_text(ls[0])
            + render(Seq::<LexemeModel>::empty()));
    } else {
        let dl = ls.drop_last();
        lemma_render_front(dl);
        assert(dl[0] == ls[0]);
        assert(dl.drop_first() =~= ls.drop_first().drop_last());
        assert(ls.drop_first().last() == ls.last());
        assert(render(ls.drop_first()) == render(ls.drop_first().drop_last()) + lexeme_text(
            ls.drop_first().last(),
        ));
        assert(lexeme_text(ls[0]) + render(dl.drop_first()) + lexeme_text(ls.last())
            =~= lexeme_text(ls[0]) + (render(dl.drop_first()) + lexeme_text(ls.last())));
    }
}

/// In literal mode, lexemes of plain text are all gathered into the literal that the end of
/// the input closes.
proof fn lemma_literal_run(f: FsmModel, ms: Seq<LexemeModel>)
    requires
        f.state == Mode::Literal,
        well_cut(ms),
        forall|i: int| 0 <= i < render(ms).len() ==> plain_lyric_char(#[trigger] render(ms)[i]),
    ensures
        run_from(f, ms.push(LexemeModel::Eof)) == opt_seq(literal_token(f.buffer + render(ms))),
        run_fits(f, ms.push(LexemeModel::Eof)),
    decreases ms.len(),
{
    let all = ms.push(LexemeModel::Eof);
    if ms.len() == 0 {
        assert(all[0] == LexemeModel::Eof);
        assert(all.drop_first() =~= Seq::<LexemeModel>::empty());
        assert(render(ms) =~= Seq::<char>::empty());
        assert(f.buffer + render(ms) =~= f.buffer);
        let (f1, ts) = feed_spec(f, LexemeModel::Eof);
        let fw = step_spec(f, LexemeModel::Eof).0;
        assert(step_spec(f, LexemeModel::Eof).1 == Some(Mode::Eof));
        assert(fw.buffer == f.buffer);
        assert(fw.state == Mode::Literal);
        assert(ts == opt_seq(literal_token(f.buffer)));
        assert(run_from(f, all) == ts + run_from(f1, all.drop_first()));
        assert(run_from(f1, all.drop_first()) == Seq::<TokenModel>::empty());
        assert(ts + Seq::<TokenModel>::empty() =~= ts);
        assert(run_fits(f1, all.drop_first()));
        assert(!overflows(f, all[0]));
    } else {
        let l = ms[0];
        let rest = ms.drop_first();
        assert(all[0] == l);
        assert(all.drop_first() =~= rest.push(LexemeModel::Eof));
        lemma_render_front(ms);
        assert(!(l is Eof));
        let txt = lexeme_text(l);
        assert forall|i: int| 0 <= i < render(rest).len() implies plain_lyric_char(
            #[trigger] render(rest)[i],
        ) by {
            assert(render(ms)[txt.len() + i] == render(rest)[i]);
        }
        if !(l is Literal) {
            assert(render(ms)[0] == txt[0]);
            assert(plain_lyric_char(render(ms)[0]));
        }
        assert(well_cut(rest)) by {
            assert forall|i: int| 0 <= i < rest.len() implies !(#[trigger] rest[i] is Eof) && (
            rest[i] matches LexemeModel::Literal(t) ==> t.len() > 0) by {
                assert(rest[i] == ms[i + 1]);
            }
        }
        let f1 = step_spec(f, l).0;
        assert(step_spec(f, l).1 is None);
        assert(f1.state == Mode::Literal);
        assert(f1.buffer =~= f.buffer + txt);
        assert(feed_spec(f, l) == (f1, Seq::<TokenModel>::empty()));
        lemma_literal_run(f1, rest);
        assert(run_from(f, all) == Seq::<TokenModel>::empty() + run_from(f1, all.drop_first()));
        assert(!overflows(f, all[0]));
        assert(run_fits(f, all) == run_fits(f1, all.drop_first()));
        assert(f.buffer + render(ms) =~= f1.buffer + render(rest));
        assert(Seq::<TokenModel>::empty() + run_from(f1, rest.push(LexemeModel::Eof)) =~= run_from(
            f1,
            rest.push(LexemeModel::Eof),
        ));
    }
}

/// A lyric line without brackets, hashes, line breaks or colons, that does not start with a
/// quote mark, is one literal token holding the whole line: no character of it is lost (marks
/// such as `!` and `-` inside it are text).
pub proof fn lemma_plain_lyric_line(s: Seq<char>)
    requires
        s.len() > 0,
        s[0] != '>',
        forall|i: int| 0 <= i < s.len() ==> plain_lyric_char(#[trigger] s[i]),
    ensures
        tokenize_fits(s),
        tokenize_spec(s) == seq![TokenModel::Literal(s)],
{
    let ls = scan_spec(s);
    lemma_scan_round_trip(s);
    lemma_scan_shape(s);
    let ms = ls.drop_last();
    assert(ls.last() == LexemeModel::Eof);
    assert(ls =~= ms.push(LexemeModel::Eof));
    assert(render(ls) == render(ms) + lexeme_text(ls.last()));
    assert(render(ms) =~= s);
    if ms.len() == 0 {
        assert(render(ms) =~= Seq::<char>::empty());
    }
    let l = ms[0];
    let rest = ms.drop_first();
    lemma_render_front(ms);
    let txt = lexeme_text(l);
    assert(!(l is Eof));
    assert(txt.len() > 0);
    assert(render(ms)[0] == txt[0]);
    assert forall|i: int| 0 <= i < render(rest).len() implies plain_lyric_char(
        #[trigger] render(rest)[i],
    ) by {
        assert(render(ms)[txt.len() + i] == render(rest)[i]);
    }
    assert(well_cut(rest)) by {
        assert forall|i: int| 0 <= i < rest.len() implies !(#[trigger] rest[i] is Eof) && (
        rest[i] matches LexemeModel::Literal(t) ==> t.len() > 0) by {
            assert(rest[i] == ms[i + 1]);
        }
    }
    let f0 = initial_model();
    assert(ls[0] == l);
    assert(ls.drop_first() =~= rest.push(LexemeModel::Eof));
    let (fs, changed) = step_spec(f0, l);
    assert(changed == Some(Mode::Literal));
    let f1 = FsmModel { state: Mode::Literal, ..build_spec(fs).0 };
    assert(feed_spec(f0, l) == (f1, Seq::<TokenModel>::empty()));
    assert(f1.buffer =~= txt);
    lemma_literal_run(f1, rest);
    assert(txt + render(rest) =~= s);
    lemma_count_before(s, ':');
    assert(meta_from_line(s) is None);
    assert(Seq::<TokenModel>::empty() + seq![TokenModel::Literal(s)] =~= seq![TokenModel::Literal(s)]);
}

/// Whether a character can stand inside a chord mark: no bracket and no line break.
pub open spec fn chord_text_char(c: char) -> bool {
    c != '[' && c != ']' && c != '\n'
}

/// Inside a chord mark, lexemes of chord text are gathered; the closing bracket makes the chord
/// token, and the end of the input then adds nothing.
proof fn lemma_chord_run(f: FsmModel, ms: Seq<LexemeModel>)
    requires
        f.state == Mode::Chord,
        well_cut(ms),
        forall|i: int| 0 <= i < render(ms).len() ==> chord_text_char(#[trigger] render(ms)[i]),
    ensures
        run_from(f, ms + seq![LexemeModel::ChordEnd, LexemeModel::Eof]) == seq![
            TokenModel::Chord(f.buffer + render(ms)),
        ],
        run_fits(f, ms + seq![LexemeModel::ChordEnd, LexemeModel::Eof]),
    decreases ms.len(),
{
    let tail = seq![LexemeModel::ChordEnd, LexemeModel::Eof];
    let all = ms + tail;
    if ms.len() == 0 {
        assert(all =~= tail);
        assert(render(ms) =~= Seq::<char>::empty());
        assert(f.buffer + render(ms) =~= f.buffer);
        let (f1, ts) = feed_spec(f, LexemeModel::ChordEnd);
        assert(ts == seq![TokenModel::Chord(f.buffer)]);
        assert(f1.state == Mode::Literal);
        assert(f1.buffer.len() == 0);
        let rest = all.drop_first();
        assert(rest =~= seq![LexemeModel::Eof]);
        let (f2, ts2) = feed_spec(f1, LexemeModel::Eof);
        assert(ts2 == Seq::<TokenModel>::empty());
        assert(rest.drop_first() =~= Seq::<LexemeModel>::empty());
        assert(run_from(f1, rest) == ts2 + run_from(f2, rest.drop_first()));
        assert(run_from(f1, rest) =~= Seq::<TokenModel>::empty());
        assert(run_from(f, all) == ts + run_from(f1, rest));
        assert(ts + Seq::<TokenModel>::empty() =~= ts);
        assert(rest[0] == LexemeModel::Eof);
        assert(!overflows(f1, rest[0]));
        assert(run_fits(f2, rest.drop_first()));
        assert(run_fits(f1, rest));
    } else {
        let l = ms[0];
        let rest = ms.drop_first();
        assert(all[0] == l);
        assert(all.drop_first() =~= rest + tail);
        lemma_render_front(ms);
        assert(!(l is Eof));
        let txt = lexeme_text(l);
        assert forall|i: int| 0 <= i < render(rest).len() implies chord_text_char(
            #[trigger] render(rest)[i],
        ) by {
            assert(render(ms)[txt.len() + i] == render(rest)[i]);
        }
        if !(l is Literal) {
            assert(render(ms)[0] == txt[0]);
            assert(chord_text_char(render(ms)[0]));
        }
        assert(well_cut(rest)) by {
            assert forall|i: int| 0 <= i < rest.len() implies !(#[trigger] rest[i] is Eof) && (
            rest[i] matches LexemeModel::Literal(t) ==> t.len() > 0) by {
                assert(rest[i] == ms[i + 1]);
            }
        }
        let f1 = step_spec(f, l).0;
        assert(step_spec(f, l).1 is None);
        assert(f1.state == Mode::Chord);
        assert(f1.buffer =~= f.buffer + txt);
        assert(feed_spec(f, l) == (f1, Seq::<TokenModel>::empty()));
        lemma_chord_run(f1, rest);
        assert(run_from(f, all) == Seq::<TokenModel>::empty() + run_from(f1, all.drop_first()));
        assert(!overflows(f, all[0]));
        assert(run_fits(f, all) == run_fits(f1, all.drop_first()));
        assert(f.buffer + render(ms) =~= f1.buffer + render(rest));
        assert(Seq::<TokenModel>::empty() + seq![TokenModel::Chord(f1.buffer + render(rest))]
            =~= seq![TokenModel::Chord(f1.buffer + render(rest))]);
    }
}

/// The text of lexemes is that of all but the last, followed by that of the last.
proof fn lemma_render_back(ls: Seq<LexemeModel>)
    requires
        ls.len() > 0,
    ensures
        render(ls) == render(ls.drop_last()) + lexeme_text(ls.last()),
{
}

/// The lexemes of a chord mark: the opening bracket, the lexemes of the chord's text, the
/// closing bracket and the end.
#[verifier::rlimit(40)]
proof fn lemma_chord_lexemes(c: Seq<char>) -> (inner: Seq<LexemeModel>)
    requires
        forall|i: int| 0 <= i < c.len() ==> chord_text_char(#[trigger] c[i]),
    ensures
        scan_spec(seq!['['] + c + seq![']']) == seq![LexemeModel::ChordStart] + inner + seq![
            LexemeModel::ChordEnd,
            LexemeModel::Eof,
        ],
        render(inner) == c,
        well_cut(inner),
{
    let s = seq!['['] + c + seq![']'];
    let ls = scan_spec(s);
    lemma_scan_round_trip(s);
    lemma_scan_shape(s);
    let ms = ls.drop_last();
    assert(ls.last() == LexemeModel::Eof);
    assert(render(ls) == render(ms) + lexeme_text(ls.last()));
    assert(render(ms) =~= s);
    if ms.len() == 0 {
        assert(render(ms) =~= Seq::<char>::empty());
    }
    lemma_render_front(ms);
    let first = ms[0];
    assert(lexeme_text(first).len() > 0);
    assert(render(ms)[0] == lexeme_text(first)[0]);
    assert(literal_ok(ms[0]));
    if first is Literal {
        assert(mark_of_char(lexeme_text(first)[0]) is None);
    }
    assert(first == LexemeModel::ChordStart);
    let inner_and_end = ms.drop_first();
    assert(lexeme_text(first) =~= seq!['[']);
    assert(render(ms) =~= seq!['['] + render(inner_and_end));
    assert(render(inner_and_end) =~= render(ms).drop_first());
    assert(s.drop_first() =~= c + seq![']']);
    assert(render(inner_and_end) =~= c + seq![']']);
    assert(inner_and_end.len() > 0);
    lemma_render_back(inner_and_end);
    let last = inner_and_end.last();
    assert(last == ms[ms.len() - 1]);
    assert(literal_ok(ms[ms.len() - 1]));
    assert(lexeme_text(last).len() > 0);
    let r = render(inner_and_end);
    assert(r[r.len() - 1] == ']');
    assert(r[r.len() - 1] == lexeme_text(last)[lexeme_text(last).len() - 1]);
    if last is Literal {
        assert(mark_of_char(lexeme_text(last)[lexeme_text(last).len() - 1]) is None);
    }
    assert(last == LexemeModel::ChordEnd);
    let inner = inner_and_end.drop_last();
    assert(lexeme_text(last) =~= seq![']']);
    assert(render(inner_and_end) =~= render(inner) + seq![']']);
    assert(render(inner) =~= render(inner_and_end).drop_last());
    assert((c + seq![']']).drop_last() =~= c);
    assert(render(inner) =~= c);
    assert(well_cut(inner)) by {
        assert forall|i: int| 0 <= i < inner.len() implies !(#[trigger] inner[i] is Eof) && (
        inner[i] matches LexemeModel::Literal(t) ==> t.len() > 0) by {
            assert(inner[i] == ms[i + 1]);
        }
    }
    assert(ls =~= seq![LexemeModel::ChordStart] + inner + seq![
        LexemeModel::ChordEnd,
        LexemeModel::Eof,
    ]);
    inner
}

/// A line that is one chord mark, `[` then the chord's text then `]`, is one chord token
/// holding that text, whatever it is (a `#` in it is a sharp).
pub proof fn lemma_chord_mark(c: Seq<char>)
    requires
        forall|i: int| 0 <= i < c.len() ==> chord_text_char(#[trigger] c[i]),
    ensures
        tokenize_fits(seq!['['] + c + seq![']']),
        tokenize_spec(seq!['['] + c + seq![']']) == seq![TokenModel::Chord(c)],
{
    let inner = lemma_chord_lexemes(c);
    let ls = scan_spec(seq!['['] + c + seq![']']);
    let f0 = initial_model();
    let (fs, changed) = step_spec(f0, LexemeModel::ChordStart);
    assert(changed == Some(Mode::Chord));
    let f1 = FsmModel { state: Mode::Chord, ..build_spec(fs).0 };
    assert(feed_spec(f0, LexemeModel::ChordStart) == (f1, Seq::<TokenModel>::empty()));
    assert(f1.buffer.len() == 0);
    lemma_chord_run(f1, inner);
    assert(ls[0] == LexemeModel::ChordStart);
    assert(ls.drop_first() =~= inner + seq![LexemeModel::ChordEnd, LexemeModel::Eof]);
    assert(f1.buffer + render(inner) =~= c);
    assert(!overflows(f0, ls[0]));
    assert(Seq::<TokenModel>::empty() + seq![TokenModel::Chord(c)] =~= seq![TokenModel::Chord(c)]);
}

/// Lexemes already produced stay in front of what the rest of the text makes.
proof fn lemma_scan_from_prefix(s: Seq<char>, lex: Seq<LexemeModel>, buf: Seq<char>)
    ensures
        scan_from(s, lex, buf) == lex + scan_from(s, seq![], buf),
    decreases s.len(),
{
    let e = Seq::<LexemeModel>::empty();
    assert(flush(lex, buf) =~= lex + flush(e, buf));
    if s.len() == 0 {
        assert(flush(lex, buf).push(LexemeModel::Eof) =~= lex + flush(e, buf).push(LexemeModel::Eof));
    } else {
        match mark_of_char(s[0]) {
            Some(l) => {
                lemma_scan_from_prefix(s.drop_first(), flush(lex, buf).push(l), seq![]);
                lemma_scan_from_prefix(s.drop_first(), flush(e, buf).push(l), seq![]);
                assert(flush(lex, buf).push(l) =~= lex + flush(e, buf).push(l));
                assert(flush(lex, buf).push(l) + scan_from(s.drop_first(), e, seq![]) =~= lex + (
                flush(e, buf).push(l) + scan_from(s.drop_first(), e, seq![])));
            },
            None => {
                lemma_scan_from_prefix(s.drop_first(), lex, buf.push(s[0]));
                lemma_scan_from_prefix(s.drop_first(), e, buf.push(s[0]));
                assert(e + scan_from(s.drop_first(), e, buf.push(s[0])) =~= scan_from(
                    s.drop_first(),
                    e,
                    buf.push(s[0]),
                ));
            },
        }
    }
}

/// `k` headline-mark lexemes.
pub open spec fn header_marks(k: nat) -> Seq<LexemeModel> {
    Seq::new(k, |i: int| LexemeModel::HeaderStart)
}

/// The lexemes of a headline `#`^n, a mark, then `t`.
proof fn lemma_headline_lexemes(n: nat, m: char, t: Seq<char>)
    requires
        m == '!' || m == '-',
    ensures
        scan_spec(hashes_text(n) + seq![m] + t) == header_marks(n) + seq![
            if m == '!' { LexemeModel::ChorusMark } else { LexemeModel::BridgeMark },
        ] + scan_spec(t),
    decreases n,
{
    let mark = if m == '!' { LexemeModel::ChorusMark } else { LexemeModel::BridgeMark };
    let e = Seq::<LexemeModel>::empty();
    let s = hashes_text(n) + seq![m] + t;
    if n == 0 {
        assert(s =~= seq![m] + t);
        assert(s[0] == m);
        assert(s.drop_first() =~= t);
        lemma_scan_from_prefix(t, seq![mark], seq![]);
        assert(flush(e, seq![]) =~= e);
        assert(header_marks(0) + seq![mark] =~= seq![mark]);
    } else {
        lemma_headline_lexemes((n - 1) as nat, m, t);
        assert(s[0] == '#');
        assert(s.drop_first() =~= hashes_text((n - 1) as nat) + seq![m] + t);
        lemma_scan_from_prefix(s.drop_first(), seq![LexemeModel::HeaderStart], seq![]);
        assert(flush(e, seq![]) =~= e);
        assert(seq![LexemeModel::HeaderStart] + (header_marks((n - 1) as nat) + seq![mark] + scan_spec(t))
            =~= header_marks(n) + seq![mark] + scan_spec(t));
    }
}

/// `n` headline marks as text.
pub open spec fn hashes_text(n: nat) -> Seq<char> {
    Seq::new(n, |i: int| '#')
}

/// Inside a headline whose modifier is known, lexemes of title text are gathered; the end of
/// the input makes the headline token.
proof fn lemma_header_run(f: FsmModel, ms: Seq<LexemeModel>)
    requires
        f.state == Mode::Header,
        f.modifier is Some,
        well_cut(ms),
        forall|i: int| 0 <= i < render(ms).len() ==> #[trigger] render(ms)[i] != '#' && render(
            ms,
        )[i] != '\n',
    ensures
        run_from(f, ms.push(LexemeModel::Eof)) == seq![
            TokenModel::Headline {
                level: f.level,
                text: trim_start_spec(f.buffer + render(ms)),
                modifier: f.modifier->0,
            },
        ],
        run_fits(f, ms.push(LexemeModel::Eof)),
    decreases ms.len(),
{
    let all = ms.push(LexemeModel::Eof);
    if ms.len() == 0 {
        assert(all[0] == LexemeModel::Eof);
        assert(all.drop_first() =~= Seq::<LexemeModel>::empty());
        assert(render(ms) =~= Seq::<char>::empty());
        assert(f.buffer + render(ms) =~= f.buffer);
        let (f1, ts) = feed_spec(f, LexemeModel::Eof);
        assert(run_from(f, all) == ts + run_from(f1, all.drop_first()));
        assert(ts + Seq::<TokenModel>::empty() =~= ts);
        assert(!overflows(f, all[0]));
        assert(run_fits(f1, all.drop_first()));
    } else {
        let l = ms[0];
        let rest = ms.drop_first();
        assert(all[0] == l);
        assert(all.drop_first() =~= rest.push(LexemeModel::Eof));
        lemma_render_front(ms);
        assert(!(l is Eof));
        let txt = lexeme_text(l);
        assert forall|i: int| 0 <= i < render(rest).len() implies #[trigger] render(rest)[i] != '#'
            && render(rest)[i] != '\n' by {
            assert(render(ms)[txt.len() + i] == render(rest)[i]);
        }
        if !(l is Literal) {
            assert(render(ms)[0] == txt[0]);
        }
        assert(well_cut(rest)) by {
            assert forall|i: int| 0 <= i < rest.len() implies !(#[trigger] rest[i] is Eof) && (
            rest[i] matches LexemeModel::Literal(t) ==> t.len() > 0) by {
                assert(rest[i] == ms[i + 1]);
            }
        }
        let f1 = step_spec(f, l).0;
        assert(step_spec(f, l).1 is None);
        assert(f1.state == Mode::Header);
        assert(f1.modifier == f.modifier);
        assert(f1.level == f.level);
        assert(f1.buffer =~= f.buffer + txt);
        assert(feed_spec(f, l) == (f1, Seq::<TokenModel>::empty()));
        lemma_header_run(f1, rest);
        assert(run_from(f, all) == Seq::<TokenModel>::empty() + run_from(f1, all.drop_first()));
        assert(!overflows(f, all[0]));
        assert(run_fits(f, all) == run_fits(f1, all.drop_first()));
        assert(f.buffer + render(ms) =~= f1.buffer + render(rest));
        assert(Seq::<TokenModel>::empty() + run_from(f1, all.drop_first()) =~= run_from(
            f1,
            all.drop_first(),
        ));
    }
}

/// After the first headline mark: the remaining `k` marks deepen the headline, the `!` or `-`
/// that follows sets its modifier, and the title follows.
proof fn lemma_hash_run(f: FsmModel, k: nat, mark: LexemeModel, ms: Seq<LexemeModel>)
    requires
        f.state == Mode::Header,
        f.modifier is None,
        f.buffer.len() == 0,
        1 <= f.level,
        f.level + k <= 255,
        mark == LexemeModel::ChorusMark || mark == LexemeModel::BridgeMark,
        well_cut(ms),
        forall|i: int| 0 <= i < render(ms).len() ==> #[trigger] render(ms)[i] != '#' && render(
            ms,
        )[i] != '\n',
    ensures
        run_from(f, header_marks(k) + seq![mark] + ms.push(LexemeModel::Eof)) == seq![
            TokenModel::Headline {
                level: (f.level + k) as u8,
                text: trim_start_spec(render(ms)),
                modifier: if mark == LexemeModel::ChorusMark {
                    Modifier::Chorus
                } else {
                    Modifier::Bridge
                },
            },
        ],
        run_fits(f, header_marks(k) + seq![mark] + ms.push(LexemeModel::Eof)),
    decreases k,
{
    let all = header_marks(k) + seq![mark] + ms.push(LexemeModel::Eof);
    if k == 0 {
        assert(all =~= seq![mark] + ms.push(LexemeModel::Eof));
        assert(all[0] == mark);
        assert(all.drop_first() =~= ms.push(LexemeModel::Eof));
        let f1 = step_spec(f, mark).0;
        assert(step_spec(f, mark).1 is None);
        assert(f1.modifier == Some(
            if mark == LexemeModel::ChorusMark {
                Modifier::Chorus
            } else {
                Modifier::Bridge
            },
        ));
        assert(f1.buffer.len() == 0);
        assert(feed_spec(f, mark) == (f1, Seq::<TokenModel>::empty()));
        lemma_header_run(f1, ms);
        assert(f1.buffer + render(ms) =~= render(ms));
        assert(run_from(f, all) == Seq::<TokenModel>::empty() + run_from(f1, all.drop_first()));
        assert(Seq::<TokenModel>::empty() + run_from(f1, all.drop_first()) =~= run_from(
            f1,
            all.drop_first(),
        ));
        assert(!overflows(f, all[0]));
    } else {
        assert(all[0] == LexemeModel::HeaderStart);
        assert(all.drop_first() =~= header_marks((k - 1) as nat) + seq![mark] + ms.push(
            LexemeModel::Eof,
        ));
        let f1 = step_spec(f, LexemeModel::HeaderStart).0;
        assert(step_spec(f, LexemeModel::HeaderStart).1 is None);
        assert(f1.level == f.level + 1);
        assert(feed_spec(f, LexemeModel::HeaderStart) == (f1, Seq::<TokenModel>::empty()));
        lemma_hash_run(f1, (k - 1) as nat, mark, ms);
        assert(run_from(f, all) == Seq::<TokenModel>::empty() + run_from(f1, all.drop_first()));
        assert(Seq::<TokenModel>::empty() + run_from(f1, all.drop_first()) =~= run_from(
            f1,
            all.drop_first(),
        ));
        assert(!overflows(f, all[0]));
    }
}

/// A headline, `#` written `n` times, then `!` or `-`, then a title without `#` or line
/// breaks, is one headline token of level `n` whose modifier is the mark (`!` a chorus, `-` a
/// bridge), and whose text is the title without its leading white space.
pub proof fn lemma_marked_headline(n: nat, m: char, t: Seq<char>)
    requires
        1 <= n <= 255,
        m == '!' || m == '-',
        forall|i: int| 0 <= i < t.len() ==> #[trigger] t[i] != '#' && t[i] != '\n',
    ensures
        tokenize_fits(hashes_text(n) + seq![m] + t),
        tokenize_spec(hashes_text(n) + seq![m] + t) == seq![
            TokenModel::Headline {
                level: n as u8,
                text: trim_start_spec(t),
                modifier: if m == '!' { Modifier::Chorus } else { Modifier::Bridge },
            },
        ],
{
    let mark = if m == '!' { LexemeModel::ChorusMark } else { LexemeModel::BridgeMark };
    lemma_headline_lexemes(n, m, t);
    let lt = scan_spec(t);
    lemma_scan_round_trip(t);
    lemma_scan_shape(t);
    let ms = lt.drop_last();
    assert(lt.last() == LexemeModel::Eof);
    assert(lt =~= ms.push(LexemeModel::Eof));
    assert(render(lt) == render(ms) + lexeme_text(lt.last()));
    assert(render(ms) =~= t);
    let ls = header_marks(n) + seq![mark] + ms.push(LexemeModel::Eof);
    assert(scan_spec(hashes_text(n) + seq![m] + t) == ls);
    let f0 = initial_model();
    assert(ls[0] == LexemeModel::HeaderStart);
    assert(ls.drop_first() =~= header_marks((n - 1) as nat) + seq![mark] + ms.push(LexemeModel::Eof));
    let (fs, changed) = step_spec(f0, LexemeModel::HeaderStart);
    assert(changed == Some(Mode::Header));
    let f1 = FsmModel { state: Mode::Header, ..build_spec(fs).0 };
    assert(feed_spec(f0, LexemeModel::HeaderStart) == (f1, Seq::<TokenModel>::empty()));
    assert(f1.level == 1);
    lemma_hash_run(f1, (n - 1) as nat, mark, ms);
    assert(!overflows(f0, ls[0]));
    assert(run_from(f0, ls) == Seq::<TokenModel>::empty() + run_from(f1, ls.drop_first()));
    assert(Seq::<TokenModel>::empty() + run_from(f1, ls.drop_first()) =~= run_from(
        f1,
        ls.drop_first(),
    ));
}

pub struct ChorddownTokenizer {}

impl ChorddownTokenizer {
    pub fn new() -> (r: ChorddownTokenizer) {
        ChorddownTokenizer {  }
    }

    /// The tokens of `input`, or `None` where a headline is deeper than 255 levels.
    pub fn try_tokenize(&self, input: &str) -> (r: Option<Vec<Token>>)
        ensures
            r is Some <==> tokenize_fits(input@),
            r matches Some(ts) ==> tokens_view(ts@) == tokenize_spec(input@),
    {
        let scanner = Scanner::new();
        assert(scanner.produced() =~= Seq::<lexeme::LexemeModel>::empty());
        let lexemes = scanner.scan(input);
        let ghost ls = scan_spec(input@);
        assert(lexeme::lexemes_view(lexemes@) == ls);
        let mut tokens: Vec<Token> = Vec::new();
        let mut fsm = Fsm::new();
        let mut i: usize = 0;
        assert(ls.skip(0) =~= ls);
        assert(tokens_view(tokens@) =~= Seq::<TokenModel>::empty());
        while i < lexemes.len()
            invariant
                i <= lexemes.len(),
                lexeme::lexemes_view(lexemes@) == ls,
                tokenize_spec(input@) == tokens_view(tokens@) + run_from(fsm@, ls.skip(i as int)),
                tokenize_fits(input@) == run_fits(fsm@, ls.skip(i as int)),
            decreases lexemes.len() - i,
        {
            let lexeme = &lexemes[i];
            assert(ls.skip(i as int)[0] == lexeme@);
            assert(ls.skip(i as int).drop_first() =~= ls.skip(i + 1));
            let is_header_start = match lexeme {
                Lexeme::HeaderStart => true,
                _ => false,
            };
            if fsm.state() == Mode::Eof || (fsm.state() == Mode::Header && is_header_start
                && fsm.header_level() == 255) {
                return None;
            }
            let ghost before = tokens@;
            let token = fsm.feed(lexeme);
            if let Some(t) = token {
                tokens.push(t);
                assert(tokens_view(tokens@) =~= tokens_view(before) + seq![t@]);
            } else {
                assert(tokens_view(tokens@) =~= tokens_view(before) + Seq::<TokenModel>::empty());
            }
            i = i + 1;
        }
        assert(ls.skip(i as int) =~= Seq::<lexeme::LexemeModel>::empty());
        assert(tokens_view(tokens@) + Seq::<TokenModel>::empty() =~= tokens_view(tokens@));
        Some(tokens)
    }

    /// The tokens of `input`.
    pub fn tokenize(&self, input: &str) -> (r: Vec<Token>)
        requires
            tokenize_fits(input@),
        ensures
            tokens_view(r@) == tokenize_spec(input@),
    {
        match self.try_tokenize(input) {
            Some(ts) => ts,
            None => Vec::new(),
        }
    }
}

} // verus!

//! The parser that gathers the meta information of a song from the line tokenizer's tokens.
use vstd::prelude::*;
use crate::models::b_notation::{is_european_chord_spec, BNotation};
use crate::tokenizer::keyword::MetaModel;
use super::metadata_parser::{is_text_keyword, text_field};
use crate::tokenizer::token::{tokens_view, Token, TokenModel};
use super::meta_information::MetaInformation;
use super::metadata_model::{assign_spec, empty_metadata, MetadataModel};

verus! {

/// The meta information after one token: a level-one headline gives the title, metadata goes
/// into its field, and a chord written with `H` switches to the German notation.
pub open spec fn meta_visit_spec(m: MetadataModel, t: TokenModel) -> MetadataModel {
    match t {
        TokenModel::Chord(c) => if is_european_chord_spec(c) {
            MetadataModel { b_notation: BNotation::H, ..m }
        } else {
            m
        },
        TokenModel::Headline { level, text, .. } => if level == 1 {
            MetadataModel { title: Some(text), ..m }
        } else {
            m
        },
        TokenModel::Meta(x) => assign_spec(m, x),
        _ => m,
    }
}

/// The meta information after the tokens `ts`, starting from `m`.
pub open spec fn meta_parse_from(m: MetadataModel, ts: Seq<TokenModel>) -> MetadataModel
    decreases ts.len(),
{
    if ts.len() == 0 {
        m
    } else {
        meta_parse_from(meta_visit_spec(m, ts[0]), ts.drop_first())
    }
}

/// Whether a token is a piece of meta information that names the B notation.
pub open spec fn meta_names_notation(t: TokenModel) -> bool {
    t matches TokenModel::Meta(MetaModel::Notation(_))
}

/// Whether a token is a chord that starts with `H`.
pub open spec fn starts_with_european_chord(t: TokenModel) -> bool {
    match t {
        TokenModel::Chord(c) => is_european_chord_spec(c),
        _ => false,
    }
}

proof fn lemma_meta_notation_from(m: MetadataModel, ts: Seq<TokenModel>)
    requires
        forall|i: int| 0 <= i < ts.len() ==> !meta_names_notation(#[trigger] ts[i]),
    ensures
        meta_parse_from(m, ts).b_notation == if exists|i: int|
            0 <= i < ts.len() && starts_with_european_chord(#[trigger] ts[i]) {
            BNotation::H
        } else {
            m.b_notation
        },
    decreases ts.len(),
{
    if ts.len() > 0 {
        let rest = ts.drop_first();
        assert forall|i: int| 0 <= i < rest.len() implies !meta_names_notation(#[trigger] rest[i]) by {
            assert(rest[i] == ts[i + 1]);
        }
        lemma_meta_notation_from(meta_visit_spec(m, ts[0]), rest);
        assert(!meta_names_notation(ts[0]));
        if exists|i: int| 0 <= i < rest.len() && starts_with_european_chord(#[trigger] rest[i]) {
            let i = choose|i: int| 0 <= i < rest.len() && starts_with_european_chord(#[trigger] rest[i]);
            assert(ts[i + 1] == rest[i]);
        }
        if exists|i: int| 0 <= i < ts.len() && starts_with_european_chord(#[trigger] ts[i]) {
            let i = choose|i: int| 0 <= i < ts.len() && starts_with_european_chord(#[trigger] ts[i]);
            if i > 0 {
                assert(rest[i - 1] == ts[i]);
            }
        }
    }
}

/// Without meta information that names the B notation, the meta information is in the German
/// notation exactly when one of the chords starts with `H`, and in the standard one otherwise.
pub proof fn lemma_meta_detect_b_notation(ts: Seq<TokenModel>)
    requires
        forall|i: int| 0 <= i < ts.len() ==> !meta_names_notation(#[trigger] ts[i]),
    ensures
        meta_parse_from(empty_metadata(), ts).b_notation == if exists|i: int|
            0 <= i < ts.len() && starts_with_european_chord(#[trigger] ts[i]) {
            BNotation::H
        } else {
            BNotation::B
        },
{
    lemma_meta_notation_from(empty_metadata(), ts);
}

/// The text of the last piece of meta information of kind `k` in `ts`, if there is one.
pub open spec fn last_meta_entry(ts: Seq<TokenModel>, k: crate::tokenizer::keyword::MetadataKeyword) -> Option<Seq<char>>
    decreases ts.len(),
{
    if ts.len() == 0 {
        None
    } else {
        match ts.last() {
            TokenModel::Meta(MetaModel::Text(k2, c)) => if k2 == k {
                Some(c)
            } else {
                last_meta_entry(ts.drop_last(), k)
            },
            _ => last_meta_entry(ts.drop_last(), k),
        }
    }
}

proof fn lemma_meta_parse_push(m: MetadataModel, ts: Seq<TokenModel>, t: TokenModel)
    ensures
        meta_parse_from(m, ts.push(t)) == meta_visit_spec(meta_parse_from(m, ts), t),
    decreases ts.len(),
{
    assert(ts.push(t).len() > 0);
    if ts.len() == 0 {
        assert(ts.push(t)[0] == t);
        assert(ts.push(t).drop_first() =~= Seq::<TokenModel>::empty());
        let m1 = meta_visit_spec(m, t);
        assert(meta_parse_from(m1, Seq::<TokenModel>::empty()) == m1);
    } else {
        assert(ts.push(t)[0] == ts[0]);
        assert(ts.push(t).drop_first() =~= ts.drop_first().push(t));
        lemma_meta_parse_push(meta_visit_spec(m, ts[0]), ts.drop_first(), t);
    }
}

/// Each text field of the meta information holds the text of the last piece of meta
/// information of its own keyword, and nothing where there is none.
pub proof fn lemma_meta_text_field_is_last_entry(
    ts: Seq<TokenModel>,
    k: crate::tokenizer::keyword::MetadataKeyword,
)
    requires
        is_text_keyword(k),
    ensures
        text_field(meta_parse_from(empty_metadata(), ts), k) == last_meta_entry(ts, k),
    decreases ts.len(),
{
    if ts.len() > 0 {
        let init = ts.drop_last();
        lemma_meta_text_field_is_last_entry(init, k);
        assert(init.push(ts.last()) =~= ts);
        lemma_meta_parse_push(empty_metadata(), init, ts.last());
        let m0 = meta_parse_from(empty_metadata(), init);
        match ts.last() {
            TokenModel::Meta(x) => {
                assert(text_field(assign_spec(m0, x), k) == match x {
                    MetaModel::Text(k2, c) => if k2 == k {
                        Some(c)
                    } else {
                        text_field(m0, k)
                    },
                    _ => text_field(m0, k),
                });
            },
            _ => {},
        }
    }
}

pub struct MetaParser {}

impl MetaParser {
    pub fn new() -> (r: MetaParser) {
        MetaParser {  }
    }

    /// The meta information of a token stream.
    pub fn parse(&mut self, tokens: Vec<Token>) -> (r: MetaInformation)
        ensures
            r@ == meta_parse_from(empty_metadata(), tokens_view(tokens@)),
    {
        let ghost ts = tokens_view(tokens@);
        let mut meta = MetaInformation::default();
        let mut i: usize = 0;
        assert(ts.skip(0) =~= ts);
        while i < tokens.len()
            invariant
                i <= tokens.len(),
                ts == tokens_view(tokens@),
                meta_parse_from(empty_metadata(), ts) == meta_parse_from(meta@, ts.skip(i as int)),
            decreases tokens.len() - i,
        {
            assert(ts.skip(i as int)[0] == tokens@[i as int]@);
            assert(ts.skip(i as int).drop_first() =~= ts.skip(i + 1));
            meta = self.visit(&tokens[i], meta);
            i = i + 1;
        }
        assert(ts.skip(i as int) =~= Seq::<TokenModel>::empty());
        meta
    }

    fn visit(&self, token: &Token, meta: MetaInformation) -> (r: MetaInformation)
        ensures
            r@ == meta_visit_spec(meta@, token@),
    {
        match token {
            Token::Chord(_) => self.visit_chord(token, meta),
            Token::Headline { level, text, modifier: _ } => {
                if *level == 1 {
                    MetaInformation { title: Some(text.clone()), ..meta }
                } else {
                    meta
                }
            },
            Token::Meta(token_meta) => {
                let mut new_meta = meta.duplicate();
                new_meta.assign_from_token(token_meta);
                new_meta
            },
            _ => meta,
        }
    }

    fn visit_chord(&self, token: &Token, meta: MetaInformation) -> (r: MetaInformation)
        requires
            token@ is Chord,
        ensures
            r@ == meta_visit_spec(meta@, token@),
    {
        let chords = match token {
            Token::Chord(c) => c,
            _ => return meta,
        };
        if BNotation::is_european_chord(chords.as_str()) {
            MetaInformation { b_notation: BNotation::H, ..meta }
        } else {
            meta
        }
    }
}

} // verus!

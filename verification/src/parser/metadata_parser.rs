//! The parser that gathers the metadata of a song from the scanning tokenizer's tokens.
use vstd::prelude::*;
use crate::error::Error;
use crate::models::b_notation::{contains_european_chord_spec, BNotation};
use crate::tokenizer::keyword::{MetaModel, MetadataKeyword};
use crate::tokenizer::metadata::RawMetadata;
use crate::tokenizer::token::{tokens_view, Token, TokenModel};
use super::metadata::Metadata;
use super::metadata_builder::{
    builder_assign_spec, builder_reinterpret_spec, empty_builder, BuilderModel, MetadataBuilder,
};
use super::metadata_model::{MetadataModel, empty_metadata};

verus! {

/// The builder after one token: a level-one headline gives the title, metadata goes into its
/// field (a B-notation also rereads the keys), and a chord written with `H` switches to the
/// German notation.
pub open spec fn metadata_visit_spec(b: BuilderModel, t: TokenModel) -> BuilderModel {
    match t {
        TokenModel::Chord(c) => if contains_european_chord_spec(c) {
            BuilderModel { metadata: MetadataModel { b_notation: BNotation::H, ..b.metadata }, ..b }
        } else {
            b
        },
        TokenModel::Headline { level, text, .. } => if level == 1 {
            BuilderModel { metadata: MetadataModel { title: Some(text), ..b.metadata }, ..b }
        } else {
            b
        },
        TokenModel::Metadata(m) => {
            let b1 = builder_assign_spec(b, m);
            match m {
                MetaModel::Notation(n) => builder_reinterpret_spec(b1, n),
                _ => b1,
            }
        },
        _ => b,
    }
}

/// The builder after the tokens `ts`, starting from `b`.
pub open spec fn metadata_parse_from(b: BuilderModel, ts: Seq<TokenModel>) -> BuilderModel
    decreases ts.len(),
{
    if ts.len() == 0 {
        b
    } else {
        metadata_parse_from(metadata_visit_spec(b, ts[0]), ts.drop_first())
    }
}

/// The metadata of a token stream.
pub open spec fn metadata_parse_spec(ts: Seq<TokenModel>) -> MetadataModel {
    metadata_parse_from(empty_builder(), ts).metadata
}

/// Whether a token is metadata that names the B notation.
pub open spec fn names_notation(t: TokenModel) -> bool {
    t matches TokenModel::Metadata(MetaModel::Notation(_))
}

/// Whether a token is a chord written with `H`.
pub open spec fn is_european_chord_token(t: TokenModel) -> bool {
    match t {
        TokenModel::Chord(c) => contains_european_chord_spec(c),
        _ => false,
    }
}

/// Whether one of the chord tokens of `ts` holds a chord written with `H`.
pub open spec fn has_european_chord(ts: Seq<TokenModel>) -> bool {
    exists|i: int| 0 <= i < ts.len() && is_european_chord_token(#[trigger] ts[i])
}

proof fn lemma_detect_notation_from(b: BuilderModel, ts: Seq<TokenModel>)
    requires
        forall|i: int| 0 <= i < ts.len() ==> !names_notation(#[trigger] ts[i]),
    ensures
        metadata_parse_from(b, ts).metadata.b_notation == if has_european_chord(ts) {
            BNotation::H
        } else {
            b.metadata.b_notation
        },
    decreases ts.len(),
{
    if ts.len() > 0 {
        let rest = ts.drop_first();
        assert forall|i: int| 0 <= i < rest.len() implies !names_notation(#[trigger] rest[i]) by {
            assert(rest[i] == ts[i + 1]);
        }
        let b1 = metadata_visit_spec(b, ts[0]);
        lemma_detect_notation_from(b1, rest);
        assert(!names_notation(ts[0]));
        if has_european_chord(rest) {
            let i = choose|i: int| 0 <= i < rest.len() && is_european_chord_token(#[trigger] rest[i]);
            assert(ts[i + 1] == rest[i]);
        }
        if has_european_chord(ts) {
            let i = choose|i: int| 0 <= i < ts.len() && is_european_chord_token(#[trigger] ts[i]);
            if i > 0 {
                assert(rest[i - 1] == ts[i]);
            }
        }
    }
}

/// Without a B-notation entry, a song is read in the German notation exactly when one of its
/// chords is written with `H`, and in the standard one otherwise.
pub proof fn lemma_detect_b_notation(ts: Seq<TokenModel>)
    requires
        forall|i: int| 0 <= i < ts.len() ==> !names_notation(#[trigger] ts[i]),
    ensures
        metadata_parse_spec(ts).b_notation == if has_european_chord(ts) {
            BNotation::H
        } else {
            BNotation::B
        },
{
    lemma_detect_notation_from(empty_builder(), ts);
}

/// The text of the last level-one headline of `ts`, if there is one.
pub open spec fn last_title(ts: Seq<TokenModel>) -> Option<Seq<char>>
    decreases ts.len(),
{
    if ts.len() == 0 {
        None
    } else {
        match ts.last() {
            TokenModel::Headline { level, text, .. } => if level == 1 {
                Some(text)
            } else {
                last_title(ts.drop_last())
            },
            _ => last_title(ts.drop_last()),
        }
    }
}

proof fn lemma_parse_from_push(b: BuilderModel, ts: Seq<TokenModel>, t: TokenModel)
    ensures
        metadata_parse_from(b, ts.push(t)) == metadata_visit_spec(metadata_parse_from(b, ts), t),
    decreases ts.len(),
{
    assert(ts.push(t).len() > 0);
    if ts.len() == 0 {
        assert(ts.push(t)[0] == t);
        assert(ts.push(t).drop_first() =~= Seq::<TokenModel>::empty());
        let b1 = metadata_visit_spec(b, t);
        assert(metadata_parse_from(b1, Seq::<TokenModel>::empty()) == b1);
    } else {
        assert(ts.push(t)[0] == ts[0]);
        assert(ts.push(t).drop_first() =~= ts.drop_first().push(t));
        lemma_parse_from_push(metadata_visit_spec(b, ts[0]), ts.drop_first(), t);
    }
}

/// The title of a song is the text of its last level-one headline (none without one).
pub proof fn lemma_title_is_last_headline(ts: Seq<TokenModel>)
    ensures
        metadata_parse_spec(ts).title == last_title(ts),
    decreases ts.len(),
{
    if ts.len() > 0 {
        let init = ts.drop_last();
        lemma_title_is_last_headline(init);
        assert(init.push(ts.last()) =~= ts);
        lemma_parse_from_push(empty_builder(), init, ts.last());
    }
}

/// The text field of the metadata that a keyword names (none for the keys and the notation,
/// which are not plain text).
pub open spec fn text_field(m: MetadataModel, k: MetadataKeyword) -> Option<Seq<char>> {
    match k {
        MetadataKeyword::Subtitle => m.subtitle,
        MetadataKeyword::Artist => m.artist,
        MetadataKeyword::Composer => m.composer,
        MetadataKeyword::Lyricist => m.lyricist,
        MetadataKeyword::Copyright => m.copyright,
        MetadataKeyword::Album => m.album,
        MetadataKeyword::Year => m.year,
        MetadataKeyword::Time => m.time,
        MetadataKeyword::Tempo => m.tempo,
        MetadataKeyword::Duration => m.duration,
        MetadataKeyword::Capo => m.capo,
        MetadataKeyword::OriginalTitle => m.original_title,
        MetadataKeyword::AlternativeTitle => m.alternative_title,
        MetadataKeyword::CCLISongId => m.ccli_song_id,
        MetadataKeyword::Key | MetadataKeyword::OriginalKey | MetadataKeyword::BNotation => None,
    }
}

/// Whether a keyword names a plain text field.
pub open spec fn is_text_keyword(k: MetadataKeyword) -> bool {
    k != MetadataKeyword::Key && k != MetadataKeyword::OriginalKey && k != MetadataKeyword::BNotation
}

/// The text of the last metadata token of kind `k` in `ts`, if there is one.
pub open spec fn last_entry(ts: Seq<TokenModel>, k: MetadataKeyword) -> Option<Seq<char>>
    decreases ts.len(),
{
    if ts.len() == 0 {
        None
    } else {
        match ts.last() {
            TokenModel::Metadata(MetaModel::Text(k2, c)) => if k2 == k {
                Some(c)
            } else {
                last_entry(ts.drop_last(), k)
            },
            _ => last_entry(ts.drop_last(), k),
        }
    }
}

proof fn lemma_visit_text_field(b: BuilderModel, t: TokenModel, k: MetadataKeyword)
    requires
        is_text_keyword(k),
    ensures
        text_field(metadata_visit_spec(b, t).metadata, k) == match t {
            TokenModel::Metadata(MetaModel::Text(k2, c)) => if k2 == k {
                Some(c)
            } else {
                text_field(b.metadata, k)
            },
            _ => text_field(b.metadata, k),
        },
{
    match t {
        TokenModel::Metadata(MetaModel::Text(k2, c)) => {
            assert(text_field(builder_assign_spec(b, MetaModel::Text(k2, c)).metadata, k) == if k2
                == k {
                Some(c)
            } else {
                text_field(b.metadata, k)
            });
        },
        _ => {},
    }
}

/// Each text field of a song's metadata holds the text of the last metadata entry of its own
/// keyword, and nothing where there is none: an entry fills its own field and no other.
pub proof fn lemma_text_field_is_last_entry(ts: Seq<TokenModel>, k: MetadataKeyword)
    requires
        is_text_keyword(k),
    ensures
        text_field(metadata_parse_spec(ts), k) == last_entry(ts, k),
    decreases ts.len(),
{
    if ts.len() > 0 {
        let init = ts.drop_last();
        lemma_text_field_is_last_entry(init, k);
        assert(init.push(ts.last()) =~= ts);
        lemma_parse_from_push(empty_builder(), init, ts.last());
        lemma_visit_text_field(metadata_parse_from(empty_builder(), init), ts.last(), k);
    }
}

pub struct MetadataParser {}

impl MetadataParser {
    pub fn new() -> (r: MetadataParser) {
        MetadataParser {  }
    }

    /// The metadata of a token stream.
    pub fn parse(&mut self, tokens: Vec<Token>) -> (r: Result<Metadata, Error>)
        ensures
            r matches Ok(m) && m@ == metadata_parse_spec(tokens_view(tokens@)),
    {
        self.parse_borrowed(tokens.as_slice())
    }

    /// The metadata of a token stream.
    pub fn parse_borrowed(&mut self, tokens: &[Token]) -> (r: Result<Metadata, Error>)
        ensures
            r matches Ok(m) && m@ == metadata_parse_spec(tokens_view(tokens@)),
    {
        let ghost ts = tokens_view(tokens@);
        let mut metadata_builder = MetadataBuilder::new();
        let mut i: usize = 0;
        assert(ts.skip(0) =~= ts);
        while i < tokens.len()
            invariant
                i <= tokens.len(),
                ts == tokens_view(tokens@),
                metadata_parse_from(empty_builder(), ts) == metadata_parse_from(
                    metadata_builder@,
                    ts.skip(i as int),
                ),
            decreases tokens.len() - i,
        {
            assert(ts.skip(i as int)[0] == tokens@[i as int]@);
            assert(ts.skip(i as int).drop_first() =~= ts.skip(i + 1));
            metadata_builder = self.visit(&tokens[i], metadata_builder);
            i = i + 1;
        }
        assert(ts.skip(i as int) =~= Seq::<TokenModel>::empty());
        Ok(metadata_builder.build())
    }

    fn visit(&self, token: &Token, metadata_builder: MetadataBuilder) -> (r: MetadataBuilder)
        ensures
            r@ == metadata_visit_spec(metadata_builder@, token@),
    {
        match token {
            Token::Chord(_) => self.visit_chord(token, metadata_builder),
            Token::Headline { level, text, modifier: _ } => {
                if *level == 1 {
                    metadata_builder.with_title(text.as_str())
                } else {
                    metadata_builder
                }
            },
            Token::Metadata(token_meta) => {
                let mut new_metadata_builder = metadata_builder;
                new_metadata_builder.assign_from_token(token_meta.duplicate());
                if let RawMetadata::BNotation(b_notation) = token_meta {
                    new_metadata_builder.reinterpret_keys_with_b_notation(*b_notation);
                }
                new_metadata_builder
            },
            _ => metadata_builder,
        }
    }

    fn visit_chord(&self, token: &Token, metadata_builder: MetadataBuilder) -> (r: MetadataBuilder)
        requires
            token@ is Chord,
        ensures
            r@ == metadata_visit_spec(metadata_builder@, token@),
    {
        let chords = match token {
            Token::Chord(c) => c,
            _ => return metadata_builder,
        };
        if BNotation::contains_european_chord(chords.as_str()) {
            metadata_builder.with_b_notation(BNotation::H)
        } else {
            metadata_builder
        }
    }
}

} // verus!

//! The builder that the metadata parser fills field by field.
use vstd::prelude::*;
use crate::models::b_notation::BNotation;
use crate::models::chord::{parsed_chord_or_none, Chord};
use crate::tokenizer::keyword::{MetaModel, MetadataKeyword};
use crate::tokenizer::metadata::RawMetadata;
use super::metadata::Metadata;
use super::metadata_model::{assign_spec, empty_metadata, opt_text, MetadataModel};

verus! {

/// The abstract value of a builder: the metadata so far and the keys as they were written.
pub struct BuilderModel {
    pub metadata: MetadataModel,
    pub key_raw: Option<Seq<char>>,
    pub original_key_raw: Option<Seq<char>>,
}

/// A builder that holds nothing.
pub open spec fn empty_builder() -> BuilderModel {
    BuilderModel { metadata: empty_metadata(), key_raw: None, original_key_raw: None }
}

/// The builder after a piece of metadata: keys are read in the current notation and kept as
/// written by the builder.
pub open spec fn builder_assign_spec(b: BuilderModel, t: MetaModel) -> BuilderModel {
    match t {
        MetaModel::Text(MetadataKeyword::Key, c) => BuilderModel {
            metadata: MetadataModel {
                key: parsed_chord_or_none(c, b.metadata.b_notation),
                ..b.metadata
            },
            key_raw: Some(c),
            ..b
        },
        MetaModel::Text(MetadataKeyword::OriginalKey, c) => BuilderModel {
            metadata: MetadataModel {
                original_key: parsed_chord_or_none(c, b.metadata.b_notation),
                ..b.metadata
            },
            original_key_raw: Some(c),
            ..b
        },
        _ => BuilderModel { metadata: assign_spec(b.metadata, t), ..b },
    }
}

/// The builder with its keys read anew, as written, in the given notation.
pub open spec fn builder_reinterpret_spec(b: BuilderModel, n: BNotation) -> BuilderModel {
    BuilderModel {
        metadata: MetadataModel {
            key: match b.key_raw {
                Some(k) => parsed_chord_or_none(k, n),
                None => b.metadata.key,
            },
            original_key: match b.original_key_raw {
                Some(k) => parsed_chord_or_none(k, n),
                None => b.metadata.original_key,
            },
            ..b.metadata
        },
        ..b
    }
}

#[derive(Clone)]
pub struct MetadataBuilder {
    metadata: Metadata,
    key_raw: Option<String>,
    original_key_raw: Option<String>,
}

impl View for MetadataBuilder {
    type V = BuilderModel;

    closed spec fn view(&self) -> BuilderModel {
        BuilderModel {
            metadata: self.metadata@,
            key_raw: opt_text(self.key_raw),
            original_key_raw: opt_text(self.original_key_raw),
        }
    }
}

impl Default for MetadataBuilder {
    fn default() -> (r: Self)
        ensures
            r@ == empty_builder(),
    {
        Self::new()
    }
}

impl MetadataBuilder {
    pub fn new() -> (r: MetadataBuilder)
        ensures
            r@ == empty_builder(),
    {
        MetadataBuilder { metadata: Metadata::default(), key_raw: None, original_key_raw: None }
    }

    /// The metadata built.
    pub fn build(self) -> (r: Metadata)
        ensures
            r@ == self@.metadata,
    {
        self.metadata
    }

    /// Copy a piece of metadata into its field.
    pub fn assign_from_token(&mut self, token: RawMetadata)
        ensures
            final(self)@ == builder_assign_spec(old(self)@, token@),
    {
        match token {
            RawMetadata::Subtitle(c) => self.metadata.subtitle = Some(c),
            RawMetadata::Artist(c) => self.metadata.artist = Some(c),
            RawMetadata::Composer(c) => self.metadata.composer = Some(c),
            RawMetadata::Lyricist(c) => self.metadata.lyricist = Some(c),
            RawMetadata::Copyright(c) => self.metadata.copyright = Some(c),
            RawMetadata::Album(c) => self.metadata.album = Some(c),
            RawMetadata::Year(c) => self.metadata.year = Some(c),
            RawMetadata::Time(c) => self.metadata.time = Some(c),
            RawMetadata::Tempo(c) => self.metadata.tempo = Some(c),
            RawMetadata::Duration(c) => self.metadata.duration = Some(c),
            RawMetadata::Capo(c) => self.metadata.capo = Some(c),
            RawMetadata::OriginalTitle(c) => self.metadata.original_title = Some(c),
            RawMetadata::AlternativeTitle(c) => self.metadata.alternative_title = Some(c),
            RawMetadata::CCLISongId(c) => self.metadata.ccli_song_id = Some(c),
            RawMetadata::Key(c) => self.set_key(c),
            RawMetadata::OriginalKey(c) => self.set_original_key(c),
            RawMetadata::BNotation(notation) => self.metadata.b_notation = notation,
        }
    }

    /// The builder with the given notation.
    pub fn with_b_notation(self, b_notation: BNotation) -> (r: MetadataBuilder)
        ensures
            r@ == (BuilderModel {
                metadata: MetadataModel { b_notation, ..self@.metadata },
                ..self@
            }),
    {
        let mut b = self;
        b.metadata.b_notation = b_notation;
        b
    }

    /// The builder with the given title.
    pub fn with_title(self, title: &str) -> (r: MetadataBuilder)
        ensures
            r@ == (BuilderModel {
                metadata: MetadataModel { title: Some(title@), ..self@.metadata },
                ..self@
            }),
    {
        let mut b = self;
        b.metadata.title = Some(title.to_owned());
        b
    }

    /// Read the keys anew, as they were written, in the given notation.
    pub fn reinterpret_keys_with_b_notation(&mut self, to_notation: BNotation)
        ensures
            final(self)@ == builder_reinterpret_spec(old(self)@, to_notation),
    {
        if let Some(key) = &self.key_raw {
            self.metadata.key = Chord::try_from(key.as_str(), to_notation).ok();
        }
        if let Some(key) = &self.original_key_raw {
            self.metadata.original_key = Chord::try_from(key.as_str(), to_notation).ok();
        }
    }

    fn set_key(&mut self, content: String)
        ensures
            final(self)@ == builder_assign_spec(
                old(self)@,
                MetaModel::Text(MetadataKeyword::Key, content@),
            ),
    {
        self.metadata.key = Chord::try_from(content.as_str(), self.metadata.b_notation).ok();
        self.key_raw = Some(content);
    }

    fn set_original_key(&mut self, content: String)
        ensures
            final(self)@ == builder_assign_spec(
                old(self)@,
                MetaModel::Text(MetadataKeyword::OriginalKey, content@),
            ),
    {
        self.metadata.original_key = Chord::try_from(content.as_str(), self.metadata.b_notation).ok();
        self.original_key_raw = Some(content);
    }
}

} // verus!

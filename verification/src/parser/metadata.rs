//! The metadata of a song.
use vstd::prelude::*;
use crate::models::b_notation::BNotation;
use crate::models::chord::{chord_option_view, Chord};
use crate::tokenizer::keyword::MetaModel;
use crate::tokenizer::metadata::RawMetadata;
use super::metadata_model::{
    assign_spec, duplicate_chord_option, duplicate_text_option, empty_metadata, opt_text,
    reinterpret_spec, MetadataModel,
};

verus! {

#[derive(Clone, Debug)]
pub struct Metadata {
    pub title: Option<String>,
    pub subtitle: Option<String>,
    pub artist: Option<String>,
    pub composer: Option<String>,
    pub lyricist: Option<String>,
    pub copyright: Option<String>,
    pub album: Option<String>,
    pub year: Option<String>,
    pub key: Option<Chord>,
    pub key_raw: Option<String>,
    pub original_key: Option<Chord>,
    pub original_key_raw: Option<String>,
    pub time: Option<String>,
    pub tempo: Option<String>,
    pub duration: Option<String>,
    pub capo: Option<String>,
    pub original_title: Option<String>,
    pub alternative_title: Option<String>,
    pub ccli_song_id: Option<String>,
    pub b_notation: BNotation,
}

impl View for Metadata {
    type V = MetadataModel;

    open spec fn view(&self) -> MetadataModel {
        MetadataModel {
            title: opt_text(self.title),
            subtitle: opt_text(self.subtitle),
            artist: opt_text(self.artist),
            composer: opt_text(self.composer),
            lyricist: opt_text(self.lyricist),
            copyright: opt_text(self.copyright),
            album: opt_text(self.album),
            year: opt_text(self.year),
            key: chord_option_view(self.key),
            key_raw: opt_text(self.key_raw),
            original_key: chord_option_view(self.original_key),
            original_key_raw: opt_text(self.original_key_raw),
            time: opt_text(self.time),
            tempo: opt_text(self.tempo),
            duration: opt_text(self.duration),
            capo: opt_text(self.capo),
            original_title: opt_text(self.original_title),
            alternative_title: opt_text(self.alternative_title),
            ccli_song_id: opt_text(self.ccli_song_id),
            b_notation: self.b_notation,
        }
    }
}

impl Default for Metadata {
    fn default() -> (r: Self)
        ensures
            r@ == empty_metadata(),
    {
        Metadata {
            title: None,
            subtitle: None,
            artist: None,
            composer: None,
            lyricist: None,
            copyright: None,
            album: None,
            year: None,
            key: None,
            key_raw: None,
            original_key: None,
            original_key_raw: None,
            time: None,
            tempo: None,
            duration: None,
            capo: None,
            original_title: None,
            alternative_title: None,
            ccli_song_id: None,
            b_notation: BNotation::B,
        }
    }
}

impl Metadata {
    /// Copy the content of a piece of metadata into its field.
    pub fn assign_from_token(&mut self, t: &RawMetadata)
        ensures
            final(self)@ == assign_spec(old(self)@, t@),
    {
        match t {
            RawMetadata::Subtitle(content) => self.subtitle = Some(content.clone()),
            RawMetadata::Artist(content) => self.artist = Some(content.clone()),
            RawMetadata::Composer(content) => self.composer = Some(content.clone()),
            RawMetadata::Lyricist(content) => self.lyricist = Some(content.clone()),
            RawMetadata::Copyright(content) => self.copyright = Some(content.clone()),
            RawMetadata::Album(content) => self.album = Some(content.clone()),
            RawMetadata::Year(content) => self.year = Some(content.clone()),
            RawMetadata::Time(content) => self.time = Some(content.clone()),
            RawMetadata::Tempo(content) => self.tempo = Some(content.clone()),
            RawMetadata::Duration(content) => self.duration = Some(content.clone()),
            RawMetadata::Capo(content) => self.capo = Some(content.clone()),
            RawMetadata::OriginalTitle(content) => self.original_title = Some(content.clone()),
            RawMetadata::AlternativeTitle(content) => self.alternative_title = Some(content.clone()),
            RawMetadata::CCLISongId(content) => self.ccli_song_id = Some(content.clone()),
            RawMetadata::Key(content) => self.set_key(content.clone()),
            RawMetadata::OriginalKey(content) => self.set_original_key(content.clone()),
            RawMetadata::BNotation(notation) => self.b_notation = *notation,
        }
    }

    /// Read the keys anew, as they were written, in the given notation.
    pub fn reinterpret_keys_with_b_notation(&mut self, to_notation: BNotation)
        ensures
            final(self)@ == reinterpret_spec(old(self)@, to_notation),
    {
        if let Some(key) = &self.key_raw {
            self.key = Chord::try_from(key.as_str(), to_notation).ok();
        }
        if let Some(key) = &self.original_key_raw {
            self.original_key = Chord::try_from(key.as_str(), to_notation).ok();
        }
    }

    fn set_key(&mut self, content: String)
        ensures
            final(self)@ == assign_spec(
                old(self)@,
                MetaModel::Text(crate::tokenizer::keyword::MetadataKeyword::Key, content@),
            ),
    {
        self.key = Chord::try_from(content.as_str(), self.b_notation).ok();
        self.key_raw = Some(content);
    }

    fn set_original_key(&mut self, content: String)
        ensures
            final(self)@ == assign_spec(
                old(self)@,
                MetaModel::Text(crate::tokenizer::keyword::MetadataKeyword::OriginalKey, content@),
            ),
    {
        self.original_key = Chord::try_from(content.as_str(), self.b_notation).ok();
        self.original_key_raw = Some(content);
    }

    /// A copy of the metadata.
    pub fn duplicate(&self) -> (r: Metadata)
        ensures
            r@ == self@,
    {
        Metadata {
            title: duplicate_text_option(&self.title),
            subtitle: duplicate_text_option(&self.subtitle),
            artist: duplicate_text_option(&self.artist),
            composer: duplicate_text_option(&self.composer),
            lyricist: duplicate_text_option(&self.lyricist),
            copyright: duplicate_text_option(&self.copyright),
            album: duplicate_text_option(&self.album),
            year: duplicate_text_option(&self.year),
            key: duplicate_chord_option(&self.key),
            key_raw: duplicate_text_option(&self.key_raw),
            original_key: duplicate_chord_option(&self.original_key),
            original_key_raw: duplicate_text_option(&self.original_key_raw),
            time: duplicate_text_option(&self.time),
            tempo: duplicate_text_option(&self.tempo),
            duration: duplicate_text_option(&self.duration),
            capo: duplicate_text_option(&self.capo),
            original_title: duplicate_text_option(&self.original_title),
            alternative_title: duplicate_text_option(&self.alternative_title),
            ccli_song_id: duplicate_text_option(&self.ccli_song_id),
            b_notation: self.b_notation,
        }
    }
}

} // verus!

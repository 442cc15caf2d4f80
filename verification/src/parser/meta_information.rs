//! Meta information for a parsed song, gathered from the line tokenizer's metadata.
use vstd::prelude::*;
use crate::models::b_notation::BNotation;
use crate::models::chord::{chord_option_view, Chord};
use crate::tokenizer::keyword::MetaModel;
use crate::tokenizer::meta::Meta;
use super::metadata_model::{
    assign_spec, duplicate_chord_option, duplicate_text_option, empty_metadata, opt_text,
    reinterpret_spec, transpose_spec, transposes_key, MetadataModel,
};

verus! {

#[derive(Clone, Debug)]
pub struct MetaInformation {
    pub title: Option<String>,
    pub subtitle: Option<String>,
    pub artist: Option<String>,
    pub composer: Option<String>,
    pub lyricist: Option<String>,
    pub copyright: Option<String>,
    pub album: Option<String>,
    pub year: Option<String>,
    pub key: Option<Chord>,
    pub key_raw: Option<String>,
    pub original_key: Option<Chord>,
    pub original_key_raw: Option<String>,
    pub time: Option<String>,
    pub tempo: Option<String>,
    pub duration: Option<String>,
    pub capo: Option<String>,
    pub original_title: Option<String>,
    pub alternative_title: Option<String>,
    pub ccli_song_id: Option<String>,
    pub b_notation: BNotation,
}

impl View for MetaInformation {
    type V = MetadataModel;

    open spec fn view(&self) -> MetadataModel {
        MetadataModel {
            title: opt_text(self.title),
            subtitle: opt_text(self.subtitle),
            artist: opt_text(self.artist),
            composer: opt_text(self.composer),
            lyricist: opt_text(self.lyricist),
            copyright: opt_text(self.copyright),
            album: opt_text(self.album),
            year: opt_text(self.year),
            key: chord_option_view(self.key),
            key_raw: opt_text(self.key_raw),
            original_key: chord_option_view(self.original_key),
            original_key_raw: opt_text(self.original_key_raw),
            time: opt_text(self.time),
            tempo: opt_text(self.tempo),
            duration: opt_text(self.duration),
            capo: opt_text(self.capo),
            original_title: opt_text(self.original_title),
            alternative_title: opt_text(self.alternative_title),
            ccli_song_id: opt_text(self.ccli_song_id),
            b_notation: self.b_notation,
        }
    }
}

impl Default for MetaInformation {
    fn default() -> (r: Self)
        ensures
            r@ == empty_metadata(),
    {
        MetaInformation {
            title: None,
            subtitle: None,
            artist: None,
            composer: None,
            lyricist: None,
            copyright: None,
            album: None,
            year: None,
            key: None,
            key_raw: None,
            original_key: None,
            original_key_raw: None,
            time: None,
            tempo: None,
            duration: None,
            capo: None,
            original_title: None,
            alternative_title: None,
            ccli_song_id: None,
            b_notation: BNotation::B,
        }
    }
}

impl MetaInformation {
    /// Copy the content of a piece of metadata into its field.
    pub fn assign_from_token(&mut self, t: &Meta)
        ensures
            final(self)@ == assign_spec(old(self)@, t@),
    {
        match t {
            Meta::Subtitle(content) => self.subtitle = Some(content.clone()),
            Meta::Artist(content) => self.artist = Some(content.clone()),
            Meta::Composer(content) => self.composer = Some(content.clone()),
            Meta::Lyricist(content) => self.lyricist = Some(content.clone()),
            Meta::Copyright(content) => self.copyright = Some(content.clone()),
            Meta::Album(content) => self.album = Some(content.clone()),
            Meta::Year(content) => self.year = Some(content.clone()),
            Meta::Time(content) => self.time = Some(content.clone()),
            Meta::Tempo(content) => self.tempo = Some(content.clone()),
            Meta::Duration(content) => self.duration = Some(content.clone()),
            Meta::Capo(content) => self.capo = Some(content.clone()),
            Meta::OriginalTitle(content) => self.original_title = Some(content.clone()),
            Meta::AlternativeTitle(content) => self.alternative_title = Some(content.clone()),
            Meta::CCLISongId(content) => self.ccli_song_id = Some(content.clone()),
            Meta::Key(content) => self.set_key(content.clone()),
            Meta::OriginalKey(content) => self.set_original_key(content.clone()),
            Meta::BNotation(notation) => self.b_notation = *notation,
        }
    }

    /// Read the keys anew, as they were written, in the given notation.
    pub fn reinterpret_keys_with_b_notation(&mut self, to_notation: BNotation)
        ensures
            final(self)@ == reinterpret_spec(old(self)@, to_notation),
    {
        if let Some(key) = &self.key_raw {
            self.key = Chord::try_from(key.as_str(), to_notation).ok();
        }
        if let Some(key) = &self.original_key_raw {
            self.original_key = Chord::try_from(key.as_str(), to_notation).ok();
        }
    }

    fn set_key(&mut self, content: String)
        ensures
            final(self)@ == assign_spec(
                old(self)@,
                MetaModel::Text(crate::tokenizer::keyword::MetadataKeyword::Key, content@),
            ),
    {
        self.key = Chord::try_from(content.as_str(), self.b_notation).ok();
        self.key_raw = Some(content);
    }

    fn set_original_key(&mut self, content: String)
        ensures
            final(self)@ == assign_spec(
                old(self)@,
                MetaModel::Text(crate::tokenizer::keyword::MetadataKeyword::OriginalKey, content@),
            ),
    {
        self.original_key = Chord::try_from(content.as_str(), self.b_notation).ok();
        self.original_key_raw = Some(content);
    }

    /// A copy of the metadata.
    pub fn duplicate(&self) -> (r: MetaInformation)
        ensures
            r@ == self@,
    {
        MetaInformation {
            title: duplicate_text_option(&self.title),
            subtitle: duplicate_text_option(&self.subtitle),
            artist: duplicate_text_option(&self.artist),
            composer: duplicate_text_option(&self.composer),
            lyricist: duplicate_text_option(&self.lyricist),
            copyright: duplicate_text_option(&self.copyright),
            album: duplicate_text_option(&self.album),
            year: duplicate_text_option(&self.year),
            key: duplicate_chord_option(&self.key),
            key_raw: duplicate_text_option(&self.key_raw),
            original_key: duplicate_chord_option(&self.original_key),
            original_key_raw: duplicate_text_option(&self.original_key_raw),
            time: duplicate_text_option(&self.time),
            tempo: duplicate_text_option(&self.tempo),
            duration: duplicate_text_option(&self.duration),
            capo: duplicate_text_option(&self.capo),
            original_title: duplicate_text_option(&self.original_title),
            alternative_title: duplicate_text_option(&self.alternative_title),
            ccli_song_id: duplicate_text_option(&self.ccli_song_id),
            b_notation: self.b_notation,
        }
    }

    /// The meta information transposed by `semitones`: where a key was given and no original key
    /// was, the key moves by `semitones` and the original key, where unset, becomes the key as it
    /// was; otherwise the meta information is returned unchanged.
    pub fn transpose(self, semitones: isize) -> (r: MetaInformation)
        requires
            transposes_key(self@) ==> self.key is Some,
        ensures
            r@ == transpose_spec(self@, semitones as int),
    {
        if self.key_raw.is_some() && self.original_key_raw.is_none() {
            let mut transposed = self;
            let mut key: Option<Chord> = None;
            std::mem::swap(&mut key, &mut transposed.key);
            match key {
                Some(k) => {
                    if transposed.original_key.is_none() {
                        transposed.original_key = Some(k.duplicate());
                    }
                    transposed.key = Some(k.transpose(semitones));
                },
                None => {},
            }
            transposed
        } else {
            self
        }
    }

    pub fn title(&self) -> (r: Option<String>)
        ensures
            opt_text(r) == self@.title,
    {
        duplicate_text_option(&self.title)
    }

    pub fn subtitle(&self) -> (r: Option<String>)
        ensures
            opt_text(r) == self@.subtitle,
    {
        duplicate_text_option(&self.subtitle)
    }

    pub fn artist(&self) -> (r: Option<String>)
        ensures
            opt_text(r) == self@.artist,
    {
        duplicate_text_option(&self.artist)
    }

    pub fn composer(&self) -> (r: Option<String>)
        ensures
            opt_text(r) == self@.composer,
    {
        duplicate_text_option(&self.composer)
    }

    pub fn lyricist(&self) -> (r: Option<String>)
        ensures
            opt_text(r) == self@.lyricist,
    {
        duplicate_text_option(&self.lyricist)
    }

    pub fn copyright(&self) -> (r: Option<String>)
        ensures
            opt_text(r) == self@.copyright,
    {
        duplicate_text_option(&self.copyright)
    }

    pub fn album(&self) -> (r: Option<String>)
        ensures
            opt_text(r) == self@.album,
    {
        duplicate_text_option(&self.album)
    }

    pub fn year(&self) -> (r: Option<String>)
        ensures
            opt_text(r) == self@.year,
    {
        duplicate_text_option(&self.year)
    }

    pub fn key(&self) -> (r: Option<Chord>)
        ensures
            chord_option_view(r) == self@.key,
    {
        duplicate_chord_option(&self.key)
    }

    pub fn original_key(&self) -> (r: Option<Chord>)
        ensures
            chord_option_view(r) == self@.original_key,
    {
        duplicate_chord_option(&self.original_key)
    }

    pub fn time(&self) -> (r: Option<String>)
        ensures
            opt_text(r) == self@.time,
    {
        duplicate_text_option(&self.time)
    }

    pub fn tempo(&self) -> (r: Option<String>)
        ensures
            opt_text(r) == self@.tempo,
    {
        duplicate_text_option(&self.tempo)
    }

    pub fn duration(&self) -> (r: Option<String>)
        ensures
            opt_text(r) == self@.duration,
    {
        duplicate_text_option(&self.duration)
    }

    pub fn capo(&self) -> (r: Option<String>)
        ensures
            opt_text(r) == self@.capo,
    {
        duplicate_text_option(&self.capo)
    }

    pub fn original_title(&self) -> (r: Option<String>)
        ensures
            opt_text(r) == self@.original_title,
    {
        duplicate_text_option(&self.original_title)
    }

    pub fn alternative_title(&self) -> (r: Option<String>)
        ensures
            opt_text(r) == self@.alternative_title,
    {
        duplicate_text_option(&self.alternative_title)
    }

    pub fn ccli_song_id(&self) -> (r: Option<String>)
        ensures
            opt_text(r) == self@.ccli_song_id,
    {
        duplicate_text_option(&self.ccli_song_id)
    }

    pub fn b_notation(&self) -> (r: BNotation)
        ensures
            r == self@.b_notation,
    {
        self.b_notation
    }
}

} // verus!

//! Metadata that the scanning tokenizer gathers; the song title is determined by the parser.
use vstd::prelude::*;
use crate::models::b_notation::BNotation;
use crate::text::trim;
use super::keyword::{
    meta_content, meta_from_line, meta_from_parts, meta_label, notation_or_default,
    split_meta_line, MetaModel, MetadataKeyword,
};

verus! {

#[derive(Clone, Debug, PartialOrd, PartialEq)]
pub enum RawMetadata {
    Subtitle(String),
    Artist(String),
    Composer(String),
    Lyricist(String),
    Copyright(String),
    Album(String),
    Year(String),
    Key(String),
    OriginalKey(String),
    Time(String),
    Tempo(String),
    Duration(String),
    Capo(String),
    OriginalTitle(String),
    AlternativeTitle(String),
    CCLISongId(String),
    BNotation(BNotation),
}

impl View for RawMetadata {
    type V = MetaModel;

    open spec fn view(&self) -> MetaModel {
        match self {
            RawMetadata::Artist(s) => MetaModel::Text(MetadataKeyword::Artist, s@),
            RawMetadata::Composer(s) => MetaModel::Text(MetadataKeyword::Composer, s@),
            RawMetadata::Lyricist(s) => MetaModel::Text(MetadataKeyword::Lyricist, s@),
            RawMetadata::Copyright(s) => MetaModel::Text(MetadataKeyword::Copyright, s@),
            RawMetadata::Album(s) => MetaModel::Text(MetadataKeyword::Album, s@),
            RawMetadata::Year(s) => MetaModel::Text(MetadataKeyword::Year, s@),
            RawMetadata::Key(s) => MetaModel::Text(MetadataKeyword::Key, s@),
            RawMetadata::OriginalKey(s) => MetaModel::Text(MetadataKeyword::OriginalKey, s@),
            RawMetadata::Time(s) => MetaModel::Text(MetadataKeyword::Time, s@),
            RawMetadata::Tempo(s) => MetaModel::Text(MetadataKeyword::Tempo, s@),
            RawMetadata::Duration(s) => MetaModel::Text(MetadataKeyword::Duration, s@),
            RawMetadata::Subtitle(s) => MetaModel::Text(MetadataKeyword::Subtitle, s@),
            RawMetadata::Capo(s) => MetaModel::Text(MetadataKeyword::Capo, s@),
            RawMetadata::OriginalTitle(s) => MetaModel::Text(MetadataKeyword::OriginalTitle, s@),
            RawMetadata::AlternativeTitle(s) => MetaModel::Text(MetadataKeyword::AlternativeTitle, s@),
            RawMetadata::CCLISongId(s) => MetaModel::Text(MetadataKeyword::CCLISongId, s@),
            RawMetadata::BNotation(n) => MetaModel::Notation(*n),
        }
    }
}

/// The view of an optional piece of metadata.
pub open spec fn rawmetadata_option_view(m: Option<RawMetadata>) -> Option<MetaModel> {
    match m {
        Some(x) => Some(x@),
        None => None,
    }
}

impl RawMetadata {
    /// The metadata of kind `k` holding `content`.
    pub fn from_keyword_kind(k: MetadataKeyword, content: String) -> (r: RawMetadata)
        ensures
            r@ == (if k == MetadataKeyword::BNotation {
                MetaModel::Notation(notation_or_default(content@))
            } else {
                MetaModel::Text(k, content@)
            }),
    {
        match k {
            MetadataKeyword::Artist => RawMetadata::Artist(content),
            MetadataKeyword::Composer => RawMetadata::Composer(content),
            MetadataKeyword::Lyricist => RawMetadata::Lyricist(content),
            MetadataKeyword::Copyright => RawMetadata::Copyright(content),
            MetadataKeyword::Album => RawMetadata::Album(content),
            MetadataKeyword::Year => RawMetadata::Year(content),
            MetadataKeyword::Key => RawMetadata::Key(content),
            MetadataKeyword::OriginalKey => RawMetadata::OriginalKey(content),
            MetadataKeyword::Time => RawMetadata::Time(content),
            MetadataKeyword::Tempo => RawMetadata::Tempo(content),
            MetadataKeyword::Duration => RawMetadata::Duration(content),
            MetadataKeyword::Subtitle => RawMetadata::Subtitle(content),
            MetadataKeyword::Capo => RawMetadata::Capo(content),
            MetadataKeyword::OriginalTitle => RawMetadata::OriginalTitle(content),
            MetadataKeyword::AlternativeTitle => RawMetadata::AlternativeTitle(content),
            MetadataKeyword::CCLISongId => RawMetadata::CCLISongId(content),
            MetadataKeyword::BNotation => RawMetadata::b_notation(content.as_str()),
        }
    }

    /// The metadata that `word: content` makes, if `word` is a known keyword.
    pub fn from_keyword_and_content(word: &str, content: &str) -> (r: Option<RawMetadata>)
        ensures
            rawmetadata_option_view(r) == meta_from_parts(word@, content@),
    {
        let content = trim(content);
        match MetadataKeyword::from_word(word) {
            Some(k) => Some(RawMetadata::from_keyword_kind(k, content)),
            None => None,
        }
    }

    /// Read a metadata line such as `Artist: The Fantastic Corns`.
    pub fn try_from_str(value: &str) -> (r: Result<RawMetadata, ()>)
        ensures
            match meta_from_line(value@) {
                Some(m) => r matches Ok(x) && x@ == m,
                None => r is Err,
            },
    {
        match split_meta_line(value) {
            None => Err(()),
            Some((w, c)) => match RawMetadata::from_keyword_and_content(w.as_str(), c.as_str()) {
                Some(p) => Ok(p),
                None => Err(()),
            },
        }
    }

    /// A copy of the metadata.
    pub fn duplicate(&self) -> (r: RawMetadata)
        ensures
            r@ == self@,
    {
        match self {
            RawMetadata::Artist(c) => RawMetadata::Artist(c.clone()),
            RawMetadata::Composer(c) => RawMetadata::Composer(c.clone()),
            RawMetadata::Lyricist(c) => RawMetadata::Lyricist(c.clone()),
            RawMetadata::Copyright(c) => RawMetadata::Copyright(c.clone()),
            RawMetadata::Album(c) => RawMetadata::Album(c.clone()),
            RawMetadata::Year(c) => RawMetadata::Year(c.clone()),
            RawMetadata::Key(c) => RawMetadata::Key(c.clone()),
            RawMetadata::OriginalKey(c) => RawMetadata::OriginalKey(c.clone()),
            RawMetadata::Time(c) => RawMetadata::Time(c.clone()),
            RawMetadata::Tempo(c) => RawMetadata::Tempo(c.clone()),
            RawMetadata::Duration(c) => RawMetadata::Duration(c.clone()),
            RawMetadata::Subtitle(c) => RawMetadata::Subtitle(c.clone()),
            RawMetadata::Capo(c) => RawMetadata::Capo(c.clone()),
            RawMetadata::OriginalTitle(c) => RawMetadata::OriginalTitle(c.clone()),
            RawMetadata::AlternativeTitle(c) => RawMetadata::AlternativeTitle(c.clone()),
            RawMetadata::CCLISongId(c) => RawMetadata::CCLISongId(c.clone()),
            RawMetadata::BNotation(x) => RawMetadata::BNotation(*x),
        }
    }

    /// The label under which the metadata is shown.
    pub fn label(&self) -> (r: &'static str)
        ensures
            r@ == meta_label(self@),
    {
        match self {
            RawMetadata::Artist(_) => "Artist",
            RawMetadata::Composer(_) => "Composer",
            RawMetadata::Lyricist(_) => "Lyricist",
            RawMetadata::Copyright(_) => "Copyright",
            RawMetadata::Album(_) => "Album",
            RawMetadata::Year(_) => "Year",
            RawMetadata::Key(_) => "Key",
            RawMetadata::OriginalKey(_) => "Original Key",
            RawMetadata::Time(_) => "Time",
            RawMetadata::Tempo(_) => "Tempo",
            RawMetadata::Duration(_) => "Duration",
            RawMetadata::Subtitle(_) => "Subtitle",
            RawMetadata::Capo(_) => "Capo",
            RawMetadata::OriginalTitle(_) => "Original Title",
            RawMetadata::AlternativeTitle(_) => "Alternative Title",
            RawMetadata::CCLISongId(_) => "CCLI Song #",
            RawMetadata::BNotation(_) => "B-Notation",
        }
    }

    /// The text that the metadata holds.
    pub fn content(&self) -> (r: &str)
        ensures
            r@ == meta_content(self@),
    {
        match self {
            RawMetadata::Artist(c) => c.as_str(),
            RawMetadata::Composer(c) => c.as_str(),
            RawMetadata::Lyricist(c) => c.as_str(),
            RawMetadata::Copyright(c) => c.as_str(),
            RawMetadata::Album(c) => c.as_str(),
            RawMetadata::Year(c) => c.as_str(),
            RawMetadata::Key(c) => c.as_str(),
            RawMetadata::OriginalKey(c) => c.as_str(),
            RawMetadata::Time(c) => c.as_str(),
            RawMetadata::Tempo(c) => c.as_str(),
            RawMetadata::Duration(c) => c.as_str(),
            RawMetadata::Subtitle(c) => c.as_str(),
            RawMetadata::Capo(c) => c.as_str(),
            RawMetadata::OriginalTitle(c) => c.as_str(),
            RawMetadata::AlternativeTitle(c) => c.as_str(),
            RawMetadata::CCLISongId(c) => c.as_str(),
            RawMetadata::BNotation(n) => n.as_str(),
        }
    }

    /// Artist metadata holding `content`.
    pub fn artist(content: &str) -> (r: RawMetadata)
        ensures
            r@ == MetaModel::Text(MetadataKeyword::Artist, content@),
    {
        RawMetadata::Artist(content.to_owned())
    }

    /// Composer metadata holding `content`.
    pub fn composer(content: &str) -> (r: RawMetadata)
        ensures
            r@ == MetaModel::Text(MetadataKeyword::Composer, content@),
    {
        RawMetadata::Composer(content.to_owned())
    }

    /// Lyricist metadata holding `content`.
    pub fn lyricist(content: &str) -> (r: RawMetadata)
        ensures
            r@ == MetaModel::Text(MetadataKeyword::Lyricist, content@),
    {
        RawMetadata::Lyricist(content.to_owned())
    }

    /// Copyright metadata holding `content`.
    pub fn copyright(content: &str) -> (r: RawMetadata)
        ensures
            r@ == MetaModel::Text(MetadataKeyword::Copyright, content@),
    {
        RawMetadata::Copyright(content.to_owned())
    }

    /// Album metadata holding `content`.
    pub fn album(content: &str) -> (r: RawMetadata)
        ensures
            r@ == MetaModel::Text(MetadataKeyword::Album, content@),
    {
        RawMetadata::Album(content.to_owned())
    }

    /// Year metadata holding `content`.
    pub fn year(content: &str) -> (r: RawMetadata)
        ensures
            r@ == MetaModel::Text(MetadataKeyword::Year, content@),
    {
        RawMetadata::Year(content.to_owned())
    }

    /// Key metadata holding `content`.
    pub fn key(content: &str) -> (r: RawMetadata)
        ensures
            r@ == MetaModel::Text(MetadataKeyword::Key, content@),
    {
        RawMetadata::Key(content.to_owned())
    }

    /// Original Key metadata holding `content`.
    pub fn original_key(content: &str) -> (r: RawMetadata)
        ensures
            r@ == MetaModel::Text(MetadataKeyword::OriginalKey, content@),
    {
        RawMetadata::OriginalKey(content.to_owned())
    }

    /// Time metadata holding `content`.
    pub fn time(content: &str) -> (r: RawMetadata)
        ensures
            r@ == MetaModel::Text(MetadataKeyword::Time, content@),
    {
        RawMetadata::Time(content.to_owned())
    }

    /// Tempo metadata holding `content`.
    pub fn tempo(content: &str) -> (r: RawMetadata)
        ensures
            r@ == MetaModel::Text(MetadataKeyword::Tempo, content@),
    {
        RawMetadata::Tempo(content.to_owned())
    }

    /// Duration metadata holding `content`.
    pub fn duration(content: &str) -> (r: RawMetadata)
        ensures
            r@ == MetaModel::Text(MetadataKeyword::Duration, content@),
    {
        RawMetadata::Duration(content.to_owned())
    }

    /// Subtitle metadata holding `content`.
    pub fn subtitle(content: &str) -> (r: RawMetadata)
        ensures
            r@ == MetaModel::Text(MetadataKeyword::Subtitle, content@),
    {
        RawMetadata::Subtitle(content.to_owned())
    }

    /// Capo metadata holding `content`.
    pub fn capo(content: &str) -> (r: RawMetadata)
        ensures
            r@ == MetaModel::Text(MetadataKeyword::Capo, content@),
    {
        RawMetadata::Capo(content.to_owned())
    }

    /// Original Title metadata holding `content`.
    pub fn original_title(content: &str) -> (r: RawMetadata)
        ensures
            r@ == MetaModel::Text(MetadataKeyword::OriginalTitle, content@),
    {
        RawMetadata::OriginalTitle(content.to_owned())
    }

    /// Alternative Title metadata holding `content`.
    pub fn alternative_title(content: &str) -> (r: RawMetadata)
        ensures
            r@ == MetaModel::Text(MetadataKeyword::AlternativeTitle, content@),
    {
        RawMetadata::AlternativeTitle(content.to_owned())
    }

    /// CCLI Song # metadata holding `content`.
    pub fn ccli_song_id(content: &str) -> (r: RawMetadata)
        ensures
            r@ == MetaModel::Text(MetadataKeyword::CCLISongId, content@),
    {
        RawMetadata::CCLISongId(content.to_owned())
    }

    /// A B-notation read from `content`, or the default `B` where it names none.
    pub fn b_notation(content: &str) -> (r: RawMetadata)
        ensures
            r@ == MetaModel::Notation(notation_or_default(content@)),
    {
        RawMetadata::BNotation(BNotation::from_str_or_default(content))
    }
}

} // verus!

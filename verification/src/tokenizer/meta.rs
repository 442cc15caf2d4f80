//! Metadata that the line tokenizer recognizes while it reads a song.
use vstd::prelude::*;
use crate::models::b_notation::BNotation;
use crate::text::trim;
use super::keyword::{
    meta_content, meta_from_line, meta_from_parts, meta_label, notation_or_default,
    split_meta_line, MetaModel, MetadataKeyword,
};

verus! {

#[derive(Clone, Debug, PartialOrd, PartialEq)]
pub enum Meta {
    Subtitle(String),
    Artist(String),
    Composer(String),
    Lyricist(String),
    Copyright(String),
    Album(String),
    Year(String),
    Key(String),
    OriginalKey(String),
    Time(String),
    Tempo(String),
    Duration(String),
    Capo(String),
    OriginalTitle(String),
    AlternativeTitle(String),
    CCLISongId(String),
    BNotation(BNotation),
}

impl View for Meta {
    type V = MetaModel;

    open spec fn view(&self) -> MetaModel {
        match self {
            Meta::Artist(s) => MetaModel::Text(MetadataKeyword::Artist, s@),
            Meta::Composer(s) => MetaModel::Text(MetadataKeyword::Composer, s@),
            Meta::Lyricist(s) => MetaModel::Text(MetadataKeyword::Lyricist, s@),
            Meta::Copyright(s) => MetaModel::Text(MetadataKeyword::Copyright, s@),
            Meta::Album(s) => MetaModel::Text(MetadataKeyword::Album, s@),
            Meta::Year(s) => MetaModel::Text(MetadataKeyword::Year, s@),
            Meta::Key(s) => MetaModel::Text(MetadataKeyword::Key, s@),
            Meta::OriginalKey(s) => MetaModel::Text(MetadataKeyword::OriginalKey, s@),
            Meta::Time(s) => MetaModel::Text(MetadataKeyword::Time, s@),
            Meta::Tempo(s) => MetaModel::Text(MetadataKeyword::Tempo, s@),
            Meta::Duration(s) => MetaModel::Text(MetadataKeyword::Duration, s@),
            Meta::Subtitle(s) => MetaModel::Text(MetadataKeyword::Subtitle, s@),
            Meta::Capo(s) => MetaModel::Text(MetadataKeyword::Capo, s@),
            Meta::OriginalTitle(s) => MetaModel::Text(MetadataKeyword::OriginalTitle, s@),
            Meta::AlternativeTitle(s) => MetaModel::Text(MetadataKeyword::AlternativeTitle, s@),
            Meta::CCLISongId(s) => MetaModel::Text(MetadataKeyword::CCLISongId, s@),
            Meta::BNotation(n) => MetaModel::Notation(*n),
        }
    }
}

/// The view of an optional piece of metadata.
pub open spec fn meta_option_view(m: Option<Meta>) -> Option<MetaModel> {
    match m {
        Some(x) => Some(x@),
        None => None,
    }
}

impl Meta {
    /// The metadata of kind `k` holding `content`.
    pub fn from_keyword_kind(k: MetadataKeyword, content: String) -> (r: Meta)
        ensures
            r@ == (if k == MetadataKeyword::BNotation {
                MetaModel::Notation(notation_or_default(content@))
            } else {
                MetaModel::Text(k, content@)
            }),
    {
        match k {
            MetadataKeyword::Artist => Meta::Artist(content),
            MetadataKeyword::Composer => Meta::Composer(content),
            MetadataKeyword::Lyricist => Meta::Lyricist(content),
            MetadataKeyword::Copyright => Meta::Copyright(content),
            MetadataKeyword::Album => Meta::Album(content),
            MetadataKeyword::Year => Meta::Year(content),
            MetadataKeyword::Key => Meta::Key(content),
            MetadataKeyword::OriginalKey => Meta::OriginalKey(content),
            MetadataKeyword::Time => Meta::Time(content),
            MetadataKeyword::Tempo => Meta::Tempo(content),
            MetadataKeyword::Duration => Meta::Duration(content),
            MetadataKeyword::Subtitle => Meta::Subtitle(content),
            MetadataKeyword::Capo => Meta::Capo(content),
            MetadataKeyword::OriginalTitle => Meta::OriginalTitle(content),
            MetadataKeyword::AlternativeTitle => Meta::AlternativeTitle(content),
            MetadataKeyword::CCLISongId => Meta::CCLISongId(content),
            MetadataKeyword::BNotation => Meta::b_notation(content.as_str()),
        }
    }

    /// The metadata that `word: content` makes, if `word` is a known keyword.
    pub fn from_keyword_and_content(word: &str, content: &str) -> (r: Option<Meta>)
        ensures
            meta_option_view(r) == meta_from_parts(word@, content@),
    {
        let content = trim(content);
        match MetadataKeyword::from_word(word) {
            Some(k) => Some(Meta::from_keyword_kind(k, content)),
            None => None,
        }
    }

    /// Read a metadata line such as `Artist: The Fantastic Corns`.
    pub fn try_from_str(value: &str) -> (r: Result<Meta, ()>)
        ensures
            match meta_from_line(value@) {
                Some(m) => r matches Ok(x) && x@ == m,
                None => r is Err,
            },
    {
        match split_meta_line(value) {
            None => Err(()),
            Some((w, c)) => match Meta::from_keyword_and_content(w.as_str(), c.as_str()) {
                Some(p) => Ok(p),
                None => Err(()),
            },
        }
    }

    /// A copy of the metadata.
    pub fn duplicate(&self) -> (r: Meta)
        ensures
            r@ == self@,
    {
        match self {
            Meta::Artist(c) => Meta::Artist(c.clone()),
            Meta::Composer(c) => Meta::Composer(c.clone()),
            Meta::Lyricist(c) => Meta::Lyricist(c.clone()),
            Meta::Copyright(c) => Meta::Copyright(c.clone()),
            Meta::Album(c) => Meta::Album(c.clone()),
            Meta::Year(c) => Meta::Year(c.clone()),
            Meta::Key(c) => Meta::Key(c.clone()),
            Meta::OriginalKey(c) => Meta::OriginalKey(c.clone()),
            Meta::Time(c) => Meta::Time(c.clone()),
            Meta::Tempo(c) => Meta::Tempo(c.clone()),
            Meta::Duration(c) => Meta::Duration(c.clone()),
            Meta::Subtitle(c) => Meta::Subtitle(c.clone()),
            Meta::Capo(c) => Meta::Capo(c.clone()),
            Meta::OriginalTitle(c) => Meta::OriginalTitle(c.clone()),
            Meta::AlternativeTitle(c) => Meta::AlternativeTitle(c.clone()),
            Meta::CCLISongId(c) => Meta::CCLISongId(c.clone()),
            Meta::BNotation(x) => Meta::BNotation(*x),
        }
    }

    /// The label under which the metadata is shown.
    pub fn keyword(&self) -> (r: &'static str)
        ensures
            r@ == meta_label(self@),
    {
        match self {
            Meta::Artist(_) => "Artist",
            Meta::Composer(_) => "Composer",
            Meta::Lyricist(_) => "Lyricist",
            Meta::Copyright(_) => "Copyright",
            Meta::Album(_) => "Album",
            Meta::Year(_) => "Year",
            Meta::Key(_) => "Key",
            Meta::OriginalKey(_) => "Original Key",
            Meta::Time(_) => "Time",
            Meta::Tempo(_) => "Tempo",
            Meta::Duration(_) => "Duration",
            Meta::Subtitle(_) => "Subtitle",
            Meta::Capo(_) => "Capo",
            Meta::OriginalTitle(_) => "Original Title",
            Meta::AlternativeTitle(_) => "Alternative Title",
            Meta::CCLISongId(_) => "CCLI Song #",
            Meta::BNotation(_) => "B-Notation",
        }
    }

    /// The text that the metadata holds.
    pub fn content(&self) -> (r: String)
        ensures
            r@ == meta_content(self@),
    {
        match self {
            Meta::Artist(c) => c.clone(),
            Meta::Composer(c) => c.clone(),
            Meta::Lyricist(c) => c.clone(),
            Meta::Copyright(c) => c.clone(),
            Meta::Album(c) => c.clone(),
            Meta::Year(c) => c.clone(),
            Meta::Key(c) => c.clone(),
            Meta::OriginalKey(c) => c.clone(),
            Meta::Time(c) => c.clone(),
            Meta::Tempo(c) => c.clone(),
            Meta::Duration(c) => c.clone(),
            Meta::Subtitle(c) => c.clone(),
            Meta::Capo(c) => c.clone(),
            Meta::OriginalTitle(c) => c.clone(),
            Meta::AlternativeTitle(c) => c.clone(),
            Meta::CCLISongId(c) => c.clone(),
            Meta::BNotation(n) => n.as_str().to_owned(),
        }
    }

    /// Artist metadata holding `content`.
    pub fn artist(content: &str) -> (r: Meta)
        ensures
            r@ == MetaModel::Text(MetadataKeyword::Artist, content@),
    {
        Meta::Artist(content.to_owned())
    }

    /// Composer metadata holding `content`.
    pub fn composer(content: &str) -> (r: Meta)
        ensures
            r@ == MetaModel::Text(MetadataKeyword::Composer, content@),
    {
        Meta::Composer(content.to_owned())
    }

    /// Lyricist metadata holding `content`.
    pub fn lyricist(content: &str) -> (r: Meta)
        ensures
            r@ == MetaModel::Text(MetadataKeyword::Lyricist, content@),
    {
        Meta::Lyricist(content.to_owned())
    }

    /// Copyright metadata holding `content`.
    pub fn copyright(content: &str) -> (r: Meta)
        ensures
            r@ == MetaModel::Text(MetadataKeyword::Copyright, content@),
    {
        Meta::Copyright(content.to_owned())
    }

    /// Album metadata holding `content`.
    pub fn album(content: &str) -> (r: Meta)
        ensures
            r@ == MetaModel::Text(MetadataKeyword::Album, content@),
    {
        Meta::Album(content.to_owned())
    }

    /// Year metadata holding `content`.
    pub fn year(content: &str) -> (r: Meta)
        ensures
            r@ == MetaModel::Text(MetadataKeyword::Year, content@),
    {
        Meta::Year(content.to_owned())
    }

    /// Key metadata holding `content`.
    pub fn key(content: &str) -> (r: Meta)
        ensures
            r@ == MetaModel::Text(MetadataKeyword::Key, content@),
    {
        Meta::Key(content.to_owned())
    }

    /// Original Key metadata holding `content`.
    pub fn original_key(content: &str) -> (r: Meta)
        ensures
            r@ == MetaModel::Text(MetadataKeyword::OriginalKey, content@),
    {
        Meta::OriginalKey(content.to_owned())
    }

    /// Time metadata holding `content`.
    pub fn time(content: &str) -> (r: Meta)
        ensures
            r@ == MetaModel::Text(MetadataKeyword::Time, content@),
    {
        Meta::Time(content.to_owned())
    }

    /// Tempo metadata holding `content`.
    pub fn tempo(content: &str) -> (r: Meta)
        ensures
            r@ == MetaModel::Text(MetadataKeyword::Tempo, content@),
    {
        Meta::Tempo(content.to_owned())
    }

    /// Duration metadata holding `content`.
    pub fn duration(content: &str) -> (r: Meta)
        ensures
            r@ == MetaModel::Text(MetadataKeyword::Duration, content@),
    {
        Meta::Duration(content.to_owned())
    }

    /// Subtitle metadata holding `content`.
    pub fn subtitle(content: &str) -> (r: Meta)
        ensures
            r@ == MetaModel::Text(MetadataKeyword::Subtitle, content@),
    {
        Meta::Subtitle(content.to_owned())
    }

    /// Capo metadata holding `content`.
    pub fn capo(content: &str) -> (r: Meta)
        ensures
            r@ == MetaModel::Text(MetadataKeyword::Capo, content@),
    {
        Meta::Capo(content.to_owned())
    }

    /// Original Title metadata holding `content`.
    pub fn original_title(content: &str) -> (r: Meta)
        ensures
            r@ == MetaModel::Text(MetadataKeyword::OriginalTitle, content@),
    {
        Meta::OriginalTitle(content.to_owned())
    }

    /// Alternative Title metadata holding `content`.
    pub fn alternative_title(content: &str) -> (r: Meta)
        ensures
            r@ == MetaModel::Text(MetadataKeyword::AlternativeTitle, content@),
    {
        Meta::AlternativeTitle(content.to_owned())
    }

    /// CCLI Song # metadata holding `content`.
    pub fn ccli_song_id(content: &str) -> (r: Meta)
        ensures
            r@ == MetaModel::Text(MetadataKeyword::CCLISongId, content@),
    {
        Meta::CCLISongId(content.to_owned())
    }

    /// A B-notation read from `content`, or the default `B` where it names none.
    pub fn b_notation(content: &str) -> (r: Meta)
        ensures
            r@ == MetaModel::Notation(notation_or_default(content@)),
    {
        Meta::BNotation(BNotation::from_str_or_default(content))
    }
}

} // verus!

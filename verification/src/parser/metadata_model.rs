//! The abstract value of a song's metadata, shared by the metadata types of the parsers.
use vstd::prelude::*;
use crate::models::b_notation::BNotation;
use crate::models::chord::{
    chord_option_view, lemma_transpose_inverse, parsed_chord_or_none, transposed_chord, Chord,
    ChordModel,
};
use crate::tokenizer::keyword::{MetaModel, MetadataKeyword};

verus! {

/// The abstract value of the metadata of a song.
pub struct MetadataModel {
    pub title: Option<Seq<char>>,
    pub subtitle: Option<Seq<char>>,
    pub artist: Option<Seq<char>>,
    pub composer: Option<Seq<char>>,
    pub lyricist: Option<Seq<char>>,
    pub copyright: Option<Seq<char>>,
    pub album: Option<Seq<char>>,
    pub year: Option<Seq<char>>,
    pub key: Option<ChordModel>,
    pub key_raw: Option<Seq<char>>,
    pub original_key: Option<ChordModel>,
    pub original_key_raw: Option<Seq<char>>,
    pub time: Option<Seq<char>>,
    pub tempo: Option<Seq<char>>,
    pub duration: Option<Seq<char>>,
    pub capo: Option<Seq<char>>,
    pub original_title: Option<Seq<char>>,
    pub alternative_title: Option<Seq<char>>,
    pub ccli_song_id: Option<Seq<char>>,
    pub b_notation: BNotation,
}

/// Whether transposing the metadata moves its key: a key was given and no original key was.
pub open spec fn transposes_key(m: MetadataModel) -> bool {
    m.key_raw is Some && m.original_key_raw is None
}

/// The metadata of the song transposed by `semitones`: where a key was given and no original key
/// was, the key moves and the original key, where unset, keeps the key as it was; otherwise
/// nothing changes.
pub open spec fn transpose_spec(m: MetadataModel, semitones: int) -> MetadataModel {
    if transposes_key(m) && m.key is Some {
        MetadataModel {
            key: Some(transposed_chord(m.key->0, semitones)),
            original_key: if m.original_key is None {
                m.key
            } else {
                m.original_key
            },
            ..m
        }
    } else {
        m
    }
}

/// Transposing the meta information up and then down by the same amount gives the key back;
/// the original key then holds the key as first given, where none was set.
pub proof fn lemma_transpose_there_and_back(m: MetadataModel, semitones: int)
    requires
        transposes_key(m),
        m.key is Some,
    ensures
        transpose_spec(transpose_spec(m, semitones), -semitones) == (MetadataModel {
            original_key: if m.original_key is None {
                m.key
            } else {
                m.original_key
            },
            ..m
        }),
{
    let c = m.key->0;
    lemma_transpose_inverse(c.root, semitones);
}

/// Reading the keys anew depends on the last notation only.
pub proof fn lemma_reinterpret_last_wins(m: MetadataModel, first: BNotation, last: BNotation)
    ensures
        reinterpret_spec(reinterpret_spec(m, first), last) == reinterpret_spec(m, last),
{
}

/// The view of an optional text.
pub open spec fn opt_text(o: Option<String>) -> Option<Seq<char>> {
    match o {
        Some(s) => Some(s@),
        None => None,
    }
}

/// Metadata that holds nothing, in the `B` notation.
pub open spec fn empty_metadata() -> MetadataModel {
    MetadataModel {
        title: None,
        subtitle: None,
        artist: None,
        composer: None,
        lyricist: None,
        copyright: None,
        album: None,
        year: None,
        key: None,
        key_raw: None,
        original_key: None,
        original_key_raw: None,
        time: None,
        tempo: None,
        duration: None,
        capo: None,
        original_title: None,
        alternative_title: None,
        ccli_song_id: None,
        b_notation: BNotation::B,
    }
}

/// The metadata after a piece of metadata is copied into its field: a key is kept as written
/// and read as a chord in the current notation.
pub open spec fn assign_spec(m: MetadataModel, t: MetaModel) -> MetadataModel {
    match t {
        MetaModel::Notation(n) => MetadataModel { b_notation: n, ..m },
        MetaModel::Text(k, c) => match k {
            MetadataKeyword::Subtitle => MetadataModel { subtitle: Some(c), ..m },
            MetadataKeyword::Artist => MetadataModel { artist: Some(c), ..m },
            MetadataKeyword::Composer => MetadataModel { composer: Some(c), ..m },
            MetadataKeyword::Lyricist => MetadataModel { lyricist: Some(c), ..m },
            MetadataKeyword::Copyright => MetadataModel { copyright: Some(c), ..m },
            MetadataKeyword::Album => MetadataModel { album: Some(c), ..m },
            MetadataKeyword::Year => MetadataModel { year: Some(c), ..m },
            MetadataKeyword::Time => MetadataModel { time: Some(c), ..m },
            MetadataKeyword::Tempo => MetadataModel { tempo: Some(c), ..m },
            MetadataKeyword::Duration => MetadataModel { duration: Some(c), ..m },
            MetadataKeyword::Capo => MetadataModel { capo: Some(c), ..m },
            MetadataKeyword::OriginalTitle => MetadataModel { original_title: Some(c), ..m },
            MetadataKeyword::AlternativeTitle => MetadataModel { alternative_title: Some(c), ..m },
            MetadataKeyword::CCLISongId => MetadataModel { ccli_song_id: Some(c), ..m },
            MetadataKeyword::Key => MetadataModel {
                key: parsed_chord_or_none(c, m.b_notation),
                key_raw: Some(c),
                ..m
            },
            MetadataKeyword::OriginalKey => MetadataModel {
                original_key: parsed_chord_or_none(c, m.b_notation),
                original_key_raw: Some(c),
                ..m
            },
            MetadataKeyword::BNotation => m,
        },
    }
}

/// The keys read anew, as written, in the given notation.
pub open spec fn reinterpret_spec(m: MetadataModel, n: BNotation) -> MetadataModel {
    MetadataModel {
        key: match m.key_raw {
            Some(k) => parsed_chord_or_none(k, n),
            None => m.key,
        },
        original_key: match m.original_key_raw {
            Some(k) => parsed_chord_or_none(k, n),
            None => m.original_key,
        },
        ..m
    }
}

/// A copy of an optional chord.
pub fn duplicate_chord_option(c: &Option<Chord>) -> (r: Option<Chord>)
    ensures
        chord_option_view(r) == chord_option_view(*c),
{
    match c {
        Some(x) => Some(x.duplicate()),
        None => None,
    }
}

/// A copy of an optional text.
pub fn duplicate_text_option(s: &Option<String>) -> (r: Option<String>)
    ensures
        opt_text(r) == opt_text(*s),
{
    match s {
        Some(x) => Some(x.clone()),
        None => None,
    }
}

} // verus!

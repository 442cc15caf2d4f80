//! The plain meta information record of a song.
use vstd::prelude::*;

verus! {

#[derive(Clone, Debug)]
pub struct Meta {
    pub title: Option<String>,
    pub subtitle: Option<String>,
    pub artist: Option<String>,
    pub composer: Option<String>,
    pub lyricist: Option<String>,
    pub copyright: Option<String>,
    pub album: Option<String>,
    pub year: Option<String>,
    pub key: Option<String>,
    pub time: Option<String>,
    pub tempo: Option<String>,
    pub duration: Option<String>,
    pub capo: Option<String>,
}

impl Default for Meta {
    fn default() -> (r: Self)
        ensures
            r.title is None && r.subtitle is None && r.artist is None && r.composer is None
                && r.lyricist is None && r.copyright is None && r.album is None && r.year is None
                && r.key is None && r.time is None && r.tempo is None && r.duration is None
                && r.capo is None,
    {
        Self {
            title: None,
            subtitle: None,
            artist: None,
            composer: None,
            lyricist: None,
            copyright: None,
            album: None,
            year: None,
            key: None,
            time: None,
            tempo: None,
            duration: None,
            capo: None,
        }
    }
}

} // verus!

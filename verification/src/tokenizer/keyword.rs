//! The keywords that introduce a line of metadata, such as `Artist: ...`.
use vstd::prelude::*;
use crate::models::b_notation::{b_notation_of, BNotation};
use crate::text::{
    ascii_lowercase, chars_of, is_ws, lowercase, str_eq, string_from_range, to_lowercase, trim,
    trim_end_spec, trim_spec, trim_start_spec,
};

verus! {

/// A kind of metadata that a song can carry.
#[derive(Debug, Copy, Clone, PartialEq, Eq, Structural)]
pub enum MetadataKeyword {
    Artist,
    Composer,
    Lyricist,
    Copyright,
    Album,
    Year,
    Key,
    OriginalKey,
    Time,
    Tempo,
    Duration,
    Subtitle,
    Capo,
    OriginalTitle,
    AlternativeTitle,
    CCLISongId,
    BNotation,
}

/// The kind of metadata that a lower-case keyword names.
pub open spec fn keyword_of_lowercase(k: Seq<char>) -> Option<MetadataKeyword> {
    if k == "artist"@ {
        Some(MetadataKeyword::Artist)
    } else if k == "composer"@ {
        Some(MetadataKeyword::Composer)
    } else if k == "lyricist"@ {
        Some(MetadataKeyword::Lyricist)
    } else if k == "copyright"@ {
        Some(MetadataKeyword::Copyright)
    } else if k == "album"@ {
        Some(MetadataKeyword::Album)
    } else if k == "year"@ {
        Some(MetadataKeyword::Year)
    } else if k == "key"@ {
        Some(MetadataKeyword::Key)
    } else if k == "original-key"@ || k == "original key"@ || k == "originalkey"@ {
        Some(MetadataKeyword::OriginalKey)
    } else if k == "time"@ {
        Some(MetadataKeyword::Time)
    } else if k == "tempo"@ {
        Some(MetadataKeyword::Tempo)
    } else if k == "duration"@ {
        Some(MetadataKeyword::Duration)
    } else if k == "subtitle"@ {
        Some(MetadataKeyword::Subtitle)
    } else if k == "capo"@ {
        Some(MetadataKeyword::Capo)
    } else if k == "original-title"@ || k == "original title"@ || k == "originaltitle"@ {
        Some(MetadataKeyword::OriginalTitle)
    } else if k == "alternative-title"@ || k == "alternative title"@ {
        Some(MetadataKeyword::AlternativeTitle)
    } else if k == "ccli song #"@ || k == "ccli song"@ || k == "ccli song id"@ {
        Some(MetadataKeyword::CCLISongId)
    } else if k == "bnotation"@ || k == "b_notation"@ || k == "b notation"@ || k == "b-notation"@ {
        Some(MetadataKeyword::BNotation)
    } else {
        None
    }
}

/// The kind of metadata that a keyword names: the keyword is trimmed and compared
/// without regard to case.
pub open spec fn keyword_of(word: Seq<char>) -> Option<MetadataKeyword> {
    keyword_of_lowercase(lowercase(trim_spec(word)))
}

impl MetadataKeyword {
    /// The kind of metadata that a lower-case keyword names.
    pub fn from_lowercase(k: &str) -> (r: Option<MetadataKeyword>)
        ensures
            r == keyword_of_lowercase(k@),
    {
        if str_eq(k, "artist") {
            Some(MetadataKeyword::Artist)
        } else if str_eq(k, "composer") {
            Some(MetadataKeyword::Composer)
        } else if str_eq(k, "lyricist") {
            Some(MetadataKeyword::Lyricist)
        } else if str_eq(k, "copyright") {
            Some(MetadataKeyword::Copyright)
        } else if str_eq(k, "album") {
            Some(MetadataKeyword::Album)
        } else if str_eq(k, "year") {
            Some(MetadataKeyword::Year)
        } else if str_eq(k, "key") {
            Some(MetadataKeyword::Key)
        } else if str_eq(k, "original-key") || str_eq(k, "original key") || str_eq(k, "originalkey") {
            Some(MetadataKeyword::OriginalKey)
        } else if str_eq(k, "time") {
            Some(MetadataKeyword::Time)
        } else if str_eq(k, "tempo") {
            Some(MetadataKeyword::Tempo)
        } else if str_eq(k, "duration") {
            Some(MetadataKeyword::Duration)
        } else if str_eq(k, "subtitle") {
            Some(MetadataKeyword::Subtitle)
        } else if str_eq(k, "capo") {
            Some(MetadataKeyword::Capo)
        } else if str_eq(k, "original-title") || str_eq(k, "original title") || str_eq(k, "originaltitle") {
            Some(MetadataKeyword::OriginalTitle)
        } else if str_eq(k, "alternative-title") || str_eq(k, "alternative title") {
            Some(MetadataKeyword::AlternativeTitle)
        } else if str_eq(k, "ccli song #") || str_eq(k, "ccli song") || str_eq(k, "ccli song id") {
            Some(MetadataKeyword::CCLISongId)
        } else if str_eq(k, "bnotation") || str_eq(k, "b_notation") || str_eq(k, "b notation") || str_eq(k, "b-notation") {
            Some(MetadataKeyword::BNotation)
        } else {
            None
        }
    }

    /// The kind of metadata that `word` names, ignoring surrounding white space and case.
    pub fn from_word(word: &str) -> (r: Option<MetadataKeyword>)
        ensures
            r == keyword_of(word@),
    {
        let t = trim(word);
        let k = to_lowercase(t.as_str());
        MetadataKeyword::from_lowercase(k.as_str())
    }

    /// The label under which the metadata is shown.
    pub fn label(&self) -> (r: &'static str)
        ensures
            r@ == label_of(*self),
    {
        match self {
            MetadataKeyword::Artist => "Artist",
            MetadataKeyword::Composer => "Composer",
            MetadataKeyword::Lyricist => "Lyricist",
            MetadataKeyword::Copyright => "Copyright",
            MetadataKeyword::Album => "Album",
            MetadataKeyword::Year => "Year",
            MetadataKeyword::Key => "Key",
            MetadataKeyword::OriginalKey => "Original Key",
            MetadataKeyword::Time => "Time",
            MetadataKeyword::Tempo => "Tempo",
            MetadataKeyword::Duration => "Duration",
            MetadataKeyword::Subtitle => "Subtitle",
            MetadataKeyword::Capo => "Capo",
            MetadataKeyword::OriginalTitle => "Original Title",
            MetadataKeyword::AlternativeTitle => "Alternative Title",
            MetadataKeyword::CCLISongId => "CCLI Song #",
            MetadataKeyword::BNotation => "B-Notation",
        }
    }
}

/// The label under which a kind of metadata is shown.
pub open spec fn label_of(k: MetadataKeyword) -> Seq<char> {
    match k {
        MetadataKeyword::Artist => "Artist"@,
        MetadataKeyword::Composer => "Composer"@,
        MetadataKeyword::Lyricist => "Lyricist"@,
        MetadataKeyword::Copyright => "Copyright"@,
        MetadataKeyword::Album => "Album"@,
        MetadataKeyword::Year => "Year"@,
        MetadataKeyword::Key => "Key"@,
        MetadataKeyword::OriginalKey => "Original Key"@,
        MetadataKeyword::Time => "Time"@,
        MetadataKeyword::Tempo => "Tempo"@,
        MetadataKeyword::Duration => "Duration"@,
        MetadataKeyword::Subtitle => "Subtitle"@,
        MetadataKeyword::Capo => "Capo"@,
        MetadataKeyword::OriginalTitle => "Original Title"@,
        MetadataKeyword::AlternativeTitle => "Alternative Title"@,
        MetadataKeyword::CCLISongId => "CCLI Song #"@,
        MetadataKeyword::BNotation => "B-Notation"@,
    }
}

/// The abstract value of one piece of metadata: its kind and its text, or a B-notation.
pub enum MetaModel {
    Text(MetadataKeyword, Seq<char>),
    Notation(BNotation),
}

/// The notation a text names, or the default `B`.
pub open spec fn notation_or_default(s: Seq<char>) -> BNotation {
    match b_notation_of(s) {
        Some(n) => n,
        None => BNotation::B,
    }
}

/// The metadata that a keyword and a content make: the content is trimmed; a B-notation
/// that names no notation falls back to `B`.
pub open spec fn meta_from_parts(word: Seq<char>, content: Seq<char>) -> Option<MetaModel> {
    match keyword_of(word) {
        None => None,
        Some(MetadataKeyword::BNotation) => Some(
            MetaModel::Notation(notation_or_default(trim_spec(content))),
        ),
        Some(k) => Some(MetaModel::Text(k, trim_spec(content))),
    }
}

/// The number of characters before the first `c` in `s` (all of them where there is none).
pub open spec fn count_before(s: Seq<char>, c: char) -> nat
    decreases s.len(),
{
    if s.len() == 0 || s[0] == c {
        0
    } else {
        1 + count_before(s.drop_first(), c)
    }
}

/// The keyword and the content of a metadata line `keyword: content`: the text before the
/// first colon, and the text between it and the next colon (or the end).
pub open spec fn meta_line_parts(s: Seq<char>) -> Option<(Seq<char>, Seq<char>)> {
    let i = count_before(s, ':');
    if i >= s.len() {
        None
    } else {
        let rest = s.skip(i as int + 1);
        Some((s.take(i as int), rest.take(count_before(rest, ':') as int)))
    }
}

/// The metadata that a line `keyword: content` carries, if its keyword is known.
pub open spec fn meta_from_line(s: Seq<char>) -> Option<MetaModel> {
    match meta_line_parts(s) {
        None => None,
        Some((w, c)) => meta_from_parts(w, c),
    }
}

/// The text that a piece of metadata holds.
pub open spec fn meta_content(m: MetaModel) -> Seq<char> {
    match m {
        MetaModel::Text(_, s) => s,
        MetaModel::Notation(BNotation::B) => "B"@,
        MetaModel::Notation(BNotation::H) => "H"@,
    }
}

/// The label of a piece of metadata.
pub open spec fn meta_label(m: MetaModel) -> Seq<char> {
    match m {
        MetaModel::Text(k, _) => label_of(k),
        MetaModel::Notation(_) => label_of(MetadataKeyword::BNotation),
    }
}

/// Facts about `count_before` that loops over characters rely on.
pub proof fn lemma_count_before(s: Seq<char>, c: char)
    ensures
        count_before(s, c) <= s.len(),
        forall|k: int| 0 <= k < count_before(s, c) ==> #[trigger] s[k] != c,
        count_before(s, c) < s.len() ==> s[count_before(s, c) as int] == c,
    decreases s.len(),
{
    if s.len() > 0 && s[0] != c {
        lemma_count_before(s.drop_first(), c);
        assert forall|k: int| 0 <= k < count_before(s, c) implies #[trigger] s[k] != c by {
            if k > 0 {
                assert(s[k] == s.drop_first()[k - 1]);
            }
        }
    }
}

/// `count_before` is the index of the first `c`.
pub proof fn lemma_count_before_exact(s: Seq<char>, c: char, n: int)
    requires
        0 <= n <= s.len(),
        forall|k: int| 0 <= k < n ==> #[trigger] s[k] != c,
        n < s.len() ==> s[n] == c,
    ensures
        count_before(s, c) == n,
    decreases s.len(),
{
    if n > 0 {
        assert forall|k: int| 0 <= k < n - 1 implies #[trigger] s.drop_first()[k] != c by {
            assert(s.drop_first()[k] == s[k + 1]);
        }
        if n - 1 < s.len() - 1 {
            assert(s.drop_first()[n - 1] == s[n]);
        }
        lemma_count_before_exact(s.drop_first(), c, n - 1);
    }
}

/// The index of the first `c` at or after `lo` in `v` (or `v.len()`).
pub fn find_char(v: &Vec<char>, lo: usize, c: char) -> (r: usize)
    requires
        lo <= v.len(),
    ensures
        lo <= r <= v.len(),
        r - lo == count_before(v@.skip(lo as int), c),
{
    let mut i = lo;
    while i < v.len() && v[i] != c
        invariant
            lo <= i <= v.len(),
            forall|k: int| lo <= k < i ==> #[trigger] v@[k] != c,
        decreases v.len() - i,
    {
        i = i + 1;
    }
    proof {
        let s = v@.skip(lo as int);
        assert forall|k: int| 0 <= k < i - lo implies #[trigger] s[k] != c by {
            assert(s[k] == v@[lo + k]);
        }
        if i < v.len() {
            assert(s[i - lo] == v@[i as int]);
        }
        lemma_count_before_exact(s, c, i - lo);
    }
    i
}

/// The keyword and the content of a metadata line, if it holds a colon.
pub fn split_meta_line(value: &str) -> (r: Option<(String, String)>)
    ensures
        match meta_line_parts(value@) {
            None => r is None,
            Some((w, c)) => r matches Some((rw, rc)) && rw@ == w && rc@ == c,
        },
{
    let v = chars_of(value);
    let i = find_char(&v, 0, ':');
    assert(v@.skip(0) =~= v@);
    if i >= v.len() {
        return None;
    }
    let j = find_char(&v, i + 1, ':');
    let w = string_from_range(&v, 0, i);
    let c = string_from_range(&v, i + 1, j);
    proof {
        let rest = v@.skip(i + 1);
        assert(v@.subrange(0, i as int) =~= v@.take(i as int));
        assert(v@.subrange(i + 1, j as int) =~= rest.take(count_before(rest, ':') as int));
    }
    Some((w, c))
}

/// Each label, spelled in lower case, is a keyword for the same kind of metadata; a label has
/// no white space at its ends and no colon.
#[verifier::spinoff_prover]
proof fn lemma_label_is_keyword(k: MetadataKeyword)
    ensures
        keyword_of_lowercase(ascii_lowercase(label_of(k))) == Some(k),
        label_of(k).len() > 0,
        !is_ws(label_of(k)[0]),
        !is_ws(label_of(k).last()),
        forall|i: int| 0 <= i < label_of(k).len() ==> #[trigger] label_of(k)[i] != ':',
{
    let l = label_of(k);
    let lower = ascii_lowercase(l);
    match k {
        MetadataKeyword::Artist => {
            reveal_strlit("Artist");
            reveal_strlit("artist");
            assert(lower =~= "artist"@);
        },
        MetadataKeyword::Composer => {
            reveal_strlit("Composer");
            reveal_strlit("artist");
            reveal_strlit("composer");
            assert(lower =~= "composer"@);
        },
        MetadataKeyword::Lyricist => {
            reveal_strlit("Lyricist");
            reveal_strlit("artist");
            reveal_strlit("composer");
            reveal_strlit("lyricist");
            assert(lower =~= "lyricist"@);
            assert(lower[0] != "composer"@[0]);
        },
        MetadataKeyword::Copyright => {
            reveal_strlit("Copyright");
            reveal_strlit("artist");
            reveal_strlit("composer");
            reveal_strlit("lyricist");
            reveal_strlit("copyright");
            assert(lower =~= "copyright"@);
        },
        MetadataKeyword::Album => {
            reveal_strlit("Album");
            reveal_strlit("artist");
            reveal_strlit("composer");
            reveal_strlit("lyricist");
            reveal_strlit("copyright");
            reveal_strlit("album");
            assert(lower =~= "album"@);
        },
        MetadataKeyword::Year => {
            reveal_strlit("Year");
            reveal_strlit("artist");
            reveal_strlit("composer");
            reveal_strlit("lyricist");
            reveal_strlit("copyright");
            reveal_strlit("album");
            reveal_strlit("year");
            assert(lower =~= "year"@);
        },
        MetadataKeyword::Key => {
            reveal_strlit("Key");
            reveal_strlit("artist");
            reveal_strlit("composer");
            reveal_strlit("lyricist");
            reveal_strlit("copyright");
            reveal_strlit("album");
            reveal_strlit("year");
            reveal_strlit("key");
            assert(lower =~= "key"@);
        },
        MetadataKeyword::OriginalKey => {
            reveal_strlit("Original Key");
            reveal_strlit("artist");
            reveal_strlit("composer");
            reveal_strlit("lyricist");
            reveal_strlit("copyright");
            reveal_strlit("album");
            reveal_strlit("year");
            reveal_strlit("key");
            reveal_strlit("original-key");
            reveal_strlit("original key");
            assert(lower =~= "original key"@);
            assert(lower[8] != "original-key"@[8]);
        },
        MetadataKeyword::Time => {
            reveal_strlit("Time");
            reveal_strlit("artist");
            reveal_strlit("composer");
            reveal_strlit("lyricist");
            reveal_strlit("copyright");
            reveal_strlit("album");
            reveal_strlit("year");
            reveal_strlit("key");
            reveal_strlit("original-key");
            reveal_strlit("original key");
            reveal_strlit("originalkey");
            reveal_strlit("time");
            assert(lower =~= "time"@);
            assert(lower[0] != "year"@[0]);
        },
        MetadataKeyword::Tempo => {
            reveal_strlit("Tempo");
            reveal_strlit("artist");
            reveal_strlit("composer");
            reveal_strlit("lyricist");
            reveal_strlit("copyright");
            reveal_strlit("album");
            reveal_strlit("year");
            reveal_strlit("key");
            reveal_strlit("original-key");
            reveal_strlit("original key");
            reveal_strlit("originalkey");
            reveal_strlit("time");
            reveal_strlit("tempo");
            assert(lower =~= "tempo"@);
            assert(lower[0] != "album"@[0]);
        },
        MetadataKeyword::Duration => {
            reveal_strlit("Duration");
            reveal_strlit("artist");
            reveal_strlit("composer");
            reveal_strlit("lyricist");
            reveal_strlit("copyright");
            reveal_strlit("album");
            reveal_strlit("year");
            reveal_strlit("key");
            reveal_strlit("original-key");
            reveal_strlit("original key");
            reveal_strlit("originalkey");
            reveal_strlit("time");
            reveal_strlit("tempo");
            reveal_strlit("duration");
            assert(lower =~= "duration"@);
            assert(lower[0] != "composer"@[0]);
            assert(lower[0] != "lyricist"@[0]);
        },
        MetadataKeyword::Subtitle => {
            reveal_strlit("Subtitle");
            reveal_strlit("artist");
            reveal_strlit("composer");
            reveal_strlit("lyricist");
            reveal_strlit("copyright");
            reveal_strlit("album");
            reveal_strlit("year");
            reveal_strlit("key");
            reveal_strlit("original-key");
            reveal_strlit("original key");
            reveal_strlit("originalkey");
            reveal_strlit("time");
            reveal_strlit("tempo");
            reveal_strlit("duration");
            reveal_strlit("subtitle");
            assert(lower =~= "subtitle"@);
            assert(lower[0] != "composer"@[0]);
            assert(lower[0] != "lyricist"@[0]);
            assert(lower[0] != "duration"@[0]);
        },
        MetadataKeyword::Capo => {
            reveal_strlit("Capo");
            reveal_strlit("artist");
            reveal_strlit("composer");
            reveal_strlit("lyricist");
            reveal_strlit("copyright");
            reveal_strlit("album");
            reveal_strlit("year");
            reveal_strlit("key");
            reveal_strlit("original-key");
            reveal_strlit("original key");
            reveal_strlit("originalkey");
            reveal_strlit("time");
            reveal_strlit("tempo");
            reveal_strlit("duration");
            reveal_strlit("subtitle");
            reveal_strlit("capo");
            assert(lower =~= "capo"@);
            assert(lower[0] != "year"@[0]);
            assert(lower[0] != "time"@[0]);
        },
        MetadataKeyword::OriginalTitle => {
            reveal_strlit("Original Title");
            reveal_strlit("artist");
            reveal_strlit("composer");
            reveal_strlit("lyricist");
            reveal_strlit("copyright");
            reveal_strlit("album");
            reveal_strlit("year");
            reveal_strlit("key");
            reveal_strlit("original-key");
            reveal_strlit("original key");
            reveal_strlit("originalkey");
            reveal_strlit("time");
            reveal_strlit("tempo");
            reveal_strlit("duration");
            reveal_strlit("subtitle");
            reveal_strlit("capo");
            reveal_strlit("original-title");
            reveal_strlit("original title");
            assert(lower =~= "original title"@);
            assert(lower[8] != "original-title"@[8]);
        },
        MetadataKeyword::AlternativeTitle => {
            reveal_strlit("Alternative Title");
            reveal_strlit("artist");
            reveal_strlit("composer");
            reveal_strlit("lyricist");
            reveal_strlit("copyright");
            reveal_strlit("album");
            reveal_strlit("year");
            reveal_strlit("key");
            reveal_strlit("original-key");
            reveal_strlit("original key");
            reveal_strlit("originalkey");
            reveal_strlit("time");
            reveal_strlit("tempo");
            reveal_strlit("duration");
            reveal_strlit("subtitle");
            reveal_strlit("capo");
            reveal_strlit("original-title");
            reveal_strlit("original title");
            reveal_strlit("originaltitle");
            reveal_strlit("alternative-title");
            reveal_strlit("alternative title");
            assert(lower =~= "alternative title"@);
            assert(lower[11] != "alternative-title"@[11]);
        },
        MetadataKeyword::CCLISongId => {
            reveal_strlit("CCLI Song #");
            reveal_strlit("artist");
            reveal_strlit("composer");
            reveal_strlit("lyricist");
            reveal_strlit("copyright");
            reveal_strlit("album");
            reveal_strlit("year");
            reveal_strlit("key");
            reveal_strlit("original-key");
            reveal_strlit("original key");
            reveal_strlit("originalkey");
            reveal_strlit("time");
            reveal_strlit("tempo");
            reveal_strlit("duration");
            reveal_strlit("subtitle");
            reveal_strlit("capo");
            reveal_strlit("original-title");
            reveal_strlit("original title");
            reveal_strlit("originaltitle");
            reveal_strlit("alternative-title");
            reveal_strlit("alternative title");
            reveal_strlit("ccli song #");
            assert(lower =~= "ccli song #"@);
            assert(lower[0] != "originalkey"@[0]);
        },
        MetadataKeyword::BNotation => {
            reveal_strlit("B-Notation");
            reveal_strlit("artist");
            reveal_strlit("composer");
            reveal_strlit("lyricist");
            reveal_strlit("copyright");
            reveal_strlit("album");
            reveal_strlit("year");
            reveal_strlit("key");
            reveal_strlit("original-key");
            reveal_strlit("original key");
            reveal_strlit("originalkey");
            reveal_strlit("time");
            reveal_strlit("tempo");
            reveal_strlit("duration");
            reveal_strlit("subtitle");
            reveal_strlit("capo");
            reveal_strlit("original-title");
            reveal_strlit("original title");
            reveal_strlit("originaltitle");
            reveal_strlit("alternative-title");
            reveal_strlit("alternative title");
            reveal_strlit("ccli song #");
            reveal_strlit("ccli song");
            reveal_strlit("ccli song id");
            reveal_strlit("bnotation");
            reveal_strlit("b_notation");
            reveal_strlit("b notation");
            reveal_strlit("b-notation");
            assert(lower =~= "b-notation"@);
            assert(lower[1] != "b_notation"@[1]);
            assert(lower[1] != "b notation"@[1]);
        },
    }
}

/// A piece of metadata written out as its label, a colon, a space and its text is read back as
/// the same metadata, where the text has no white space at its ends and no colon. This rests on
/// the label's lower case being its ASCII lower case, which is what `to_lowercase` gives for
/// every ASCII text, and every label is one.
pub proof fn lemma_label_round_trip(k: MetadataKeyword, c: Seq<char>)
    requires
        k != MetadataKeyword::BNotation,
        trim_spec(c) == c,
        forall|i: int| 0 <= i < c.len() ==> #[trigger] c[i] != ':',
        lowercase(label_of(k)) == ascii_lowercase(label_of(k)),
    ensures
        meta_from_line(label_of(k) + seq![':', ' '] + c) == Some(MetaModel::Text(k, c)),
{
    let l = label_of(k);
    let s = l + seq![':', ' '] + c;
    let n = l.len() as int;
    lemma_label_is_keyword(k);
    lemma_count_before(s, ':');
    assert(s[n] == ':');
    let i = count_before(s, ':') as int;
    if i < n {
        assert(s[i] == l[i]);
    }
    assert(i == n);
    let rest = s.skip(n + 1);
    assert(rest =~= seq![' '] + c);
    lemma_count_before(rest, ':');
    let j = count_before(rest, ':') as int;
    if j < rest.len() {
        if j > 0 {
            assert(rest[j] == c[j - 1]);
        }
    }
    assert(j == rest.len());
    assert(rest.take(j) =~= rest);
    assert(s.take(n) =~= l);
    assert(trim_start_spec(l) == l);
    assert(trim_end_spec(l) == l);
    assert(rest.drop_first() =~= c);
    assert(trim_start_spec(rest) == trim_start_spec(c));
}

} // verus!

//! The directives of the ChordPro format, such as `{title: ...}` or `{soc}`.
use vstd::prelude::*;
use crate::text::{chars_of, str_eq, string_from_range, trim, trim_spec};
use crate::tokenizer::keyword::{count_before, find_char};

verus! {

/// A ChordPro directive (see https://www.chordpro.org/chordpro/ChordPro-Directives.html).
#[derive(Debug, PartialEq)]
pub enum Directive {
    /// Preamble directives
    NewSong,
    /// Meta data
    Title(String),
    Subtitle(String),
    Artist(String),
    Composer(String),
    Lyricist(String),
    Copyright(String),
    Album(String),
    Year(String),
    Key(String),
    Time(String),
    Tempo(String),
    Duration(String),
    Capo(String),
    Meta(String),
    /// Formatting
    Comment(String),
    CommentItalic(String),
    CommentBox(String),
    Image(String),
    /// Environment directives
    StartOfChorus(String),
    EndOfChorus,
    Chorus(String),
    StartOfVerse(String),
    EndOfVerse,
    StartOfTab(String),
    EndOfTab,
    StartOfGrid(String),
    EndOfGrid,
    /// Chord diagrams
    Define(String),
    Chord(String),
    /// Fonts, sizes and colours
    Textfont(String),
    Textsize(String),
    Textcolour(String),
    Chordfont(String),
    Chordsize(String),
    Chordcolour(String),
    Tabfont(String),
    Tabsize(String),
    Tabcolour(String),
    /// Output related directives
    NewPage,
    NewPhysicalPage,
    ColumnBreak,
    /// Custom extensions
    Custom(String),
}

/// The abstract value of a directive.
pub enum DirectiveModel {
    NewSong,
    Title(Seq<char>),
    Subtitle(Seq<char>),
    Artist(Seq<char>),
    Composer(Seq<char>),
    Lyricist(Seq<char>),
    Copyright(Seq<char>),
    Album(Seq<char>),
    Year(Seq<char>),
    Key(Seq<char>),
    Time(Seq<char>),
    Tempo(Seq<char>),
    Duration(Seq<char>),
    Capo(Seq<char>),
    Meta(Seq<char>),
    Comment(Seq<char>),
    CommentItalic(Seq<char>),
    CommentBox(Seq<char>),
    Image(Seq<char>),
    StartOfChorus(Seq<char>),
    EndOfChorus,
    Chorus(Seq<char>),
    StartOfVerse(Seq<char>),
    EndOfVerse,
    StartOfTab(Seq<char>),
    EndOfTab,
    StartOfGrid(Seq<char>),
    EndOfGrid,
    Define(Seq<char>),
    Chord(Seq<char>),
    Textfont(Seq<char>),
    Textsize(Seq<char>),
    Textcolour(Seq<char>),
    Chordfont(Seq<char>),
    Chordsize(Seq<char>),
    Chordcolour(Seq<char>),
    Tabfont(Seq<char>),
    Tabsize(Seq<char>),
    Tabcolour(Seq<char>),
    NewPage,
    NewPhysicalPage,
    ColumnBreak,
    Custom(Seq<char>),
}

impl View for Directive {
    type V = DirectiveModel;

    open spec fn view(&self) -> DirectiveModel {
        match self {
            Directive::NewSong => DirectiveModel::NewSong,
            Directive::Title(s) => DirectiveModel::Title(s@),
            Directive::Subtitle(s) => DirectiveModel::Subtitle(s@),
            Directive::Artist(s) => DirectiveModel::Artist(s@),
            Directive::Composer(s) => DirectiveModel::Composer(s@),
            Directive::Lyricist(s) => DirectiveModel::Lyricist(s@),
            Directive::Copyright(s) => DirectiveModel::Copyright(s@),
            Directive::Album(s) => DirectiveModel::Album(s@),
            Directive::Year(s) => DirectiveModel::Year(s@),
            Directive::Key(s) => DirectiveModel::Key(s@),
            Directive::Time(s) => DirectiveModel::Time(s@),
            Directive::Tempo(s) => DirectiveModel::Tempo(s@),
            Directive::Duration(s) => DirectiveModel::Duration(s@),
            Directive::Capo(s) => DirectiveModel::Capo(s@),
            Directive::Meta(s) => DirectiveModel::Meta(s@),
            Directive::Comment(s) => DirectiveModel::Comment(s@),
            Directive::CommentItalic(s) => DirectiveModel::CommentItalic(s@),
            Directive::CommentBox(s) => DirectiveModel::CommentBox(s@),
            Directive::Image(s) => DirectiveModel::Image(s@),
            Directive::StartOfChorus(s) => DirectiveModel::StartOfChorus(s@),
            Directive::EndOfChorus => DirectiveModel::EndOfChorus,
            Directive::Chorus(s) => DirectiveModel::Chorus(s@),
            Directive::StartOfVerse(s) => DirectiveModel::StartOfVerse(s@),
            Directive::EndOfVerse => DirectiveModel::EndOfVerse,
            Directive::StartOfTab(s) => DirectiveModel::StartOfTab(s@),
            Directive::EndOfTab => DirectiveModel::EndOfTab,
            Directive::StartOfGrid(s) => DirectiveModel::StartOfGrid(s@),
            Directive::EndOfGrid => DirectiveModel::EndOfGrid,
            Directive::Define(s) => DirectiveModel::Define(s@),
            Directive::Chord(s) => DirectiveModel::Chord(s@),
            Directive::Textfont(s) => DirectiveModel::Textfont(s@),
            Directive::Textsize(s) => DirectiveModel::Textsize(s@),
            Directive::Textcolour(s) => DirectiveModel::Textcolour(s@),
            Directive::Chordfont(s) => DirectiveModel::Chordfont(s@),
            Directive::Chordsize(s) => DirectiveModel::Chordsize(s@),
            Directive::Chordcolour(s) => DirectiveModel::Chordcolour(s@),
            Directive::Tabfont(s) => DirectiveModel::Tabfont(s@),
            Directive::Tabsize(s) => DirectiveModel::Tabsize(s@),
            Directive::Tabcolour(s) => DirectiveModel::Tabcolour(s@),
            Directive::NewPage => DirectiveModel::NewPage,
            Directive::NewPhysicalPage => DirectiveModel::NewPhysicalPage,
            Directive::ColumnBreak => DirectiveModel::ColumnBreak,
            Directive::Custom(s) => DirectiveModel::Custom(s@),
        }
    }
}

/// The directive that a keyword names, with its data; unknown keywords make custom directives.
pub open spec fn directive_of(keyword: Seq<char>, data: Seq<char>) -> DirectiveModel {
    if keyword == "new_song"@ || keyword == "ns"@ {
        DirectiveModel::NewSong
    } else if keyword == "title"@ || keyword == "t"@ {
        DirectiveModel::Title(data)
    } else if keyword == "subtitle"@ || keyword == "st"@ {
        DirectiveModel::Subtitle(data)
    } else if keyword == "artist"@ {
        DirectiveModel::Artist(data)
    } else if keyword == "composer"@ {
        DirectiveModel::Composer(data)
    } else if keyword == "lyricist"@ {
        DirectiveModel::Lyricist(data)
    } else if keyword == "copyright"@ {
        DirectiveModel::Copyright(data)
    } else if keyword == "album"@ {
        DirectiveModel::Album(data)
    } else if keyword == "year"@ {
        DirectiveModel::Year(data)
    } else if keyword == "key"@ {
        DirectiveModel::Key(data)
    } else if keyword == "time"@ {
        DirectiveModel::Time(data)
    } else if keyword == "tempo"@ {
        DirectiveModel::Tempo(data)
    } else if keyword == "duration"@ {
        DirectiveModel::Duration(data)
    } else if keyword == "capo"@ {
        DirectiveModel::Capo(data)
    } else if keyword == "meta"@ {
        DirectiveModel::Meta(data)
    } else if keyword == "comment"@ || keyword == "c"@ {
        DirectiveModel::Comment(data)
    } else if keyword == "comment_italic"@ || keyword == "ci"@ {
        DirectiveModel::CommentItalic(data)
    } else if keyword == "comment_box"@ || keyword == "cb"@ {
        DirectiveModel::CommentBox(data)
    } else if keyword == "image"@ {
        DirectiveModel::Image(data)
    } else if keyword == "start_of_chorus"@ || keyword == "soc"@ {
        DirectiveModel::StartOfChorus(data)
    } else if keyword == "end_of_chorus"@ || keyword == "eoc"@ {
        DirectiveModel::EndOfChorus
    } else if keyword == "chorus"@ {
        DirectiveModel::Chorus(data)
    } else if keyword == "start_of_verse"@ {
        DirectiveModel::StartOfVerse(data)
    } else if keyword == "end_of_verse"@ {
        DirectiveModel::EndOfVerse
    } else if keyword == "start_of_tab"@ || keyword == "sot"@ {
        DirectiveModel::StartOfTab(data)
    } else if keyword == "end_of_tab"@ || keyword == "eot"@ {
        DirectiveModel::EndOfTab
    } else if keyword == "start_of_grid"@ {
        DirectiveModel::StartOfGrid(data)
    } else if keyword == "end_of_grid"@ {
        DirectiveModel::EndOfGrid
    } else if keyword == "define"@ {
        DirectiveModel::Define(data)
    } else if keyword == "chord"@ {
        DirectiveModel::Chord(data)
    } else if keyword == "textfont"@ {
        DirectiveModel::Textfont(data)
    } else if keyword == "textsize"@ {
        DirectiveModel::Textsize(data)
    } else if keyword == "textcolour"@ {
        DirectiveModel::Textcolour(data)
    } else if keyword == "chordfont"@ {
        DirectiveModel::Chordfont(data)
    } else if keyword == "chordsize"@ {
        DirectiveModel::Chordsize(data)
    } else if keyword == "chordcolour"@ {
        DirectiveModel::Chordcolour(data)
    } else if keyword == "tabfont"@ {
        DirectiveModel::Tabfont(data)
    } else if keyword == "tabsize"@ {
        DirectiveModel::Tabsize(data)
    } else if keyword == "tabcolour"@ {
        DirectiveModel::Tabcolour(data)
    } else if keyword == "new_page"@ || keyword == "np"@ {
        DirectiveModel::NewPage
    } else if keyword == "new_physical_page"@ || keyword == "npp"@ {
        DirectiveModel::NewPhysicalPage
    } else if keyword == "column_break"@ {
        DirectiveModel::ColumnBreak
    } else {
        DirectiveModel::Custom(data)
    }
}

/// The directive that the text between the braces makes: `keyword: data`, each part trimmed;
/// a text without a colon is a keyword without data.
pub open spec fn directive_of_text(s: Seq<char>) -> DirectiveModel {
    let i = count_before(s, ':');
    if i < s.len() {
        directive_of(trim_spec(s.take(i as int)), trim_spec(s.skip(i as int + 1)))
    } else {
        directive_of(trim_spec(s), seq![])
    }
}

/// The name of a directive, as ChordPro spells it (nothing for a custom one).
pub open spec fn directive_name(d: DirectiveModel) -> Seq<char> {
    match d {
        DirectiveModel::NewSong => "new_song"@,
        DirectiveModel::Title(_) => "title"@,
        DirectiveModel::Subtitle(_) => "subtitle"@,
        DirectiveModel::Artist(_) => "artist"@,
        DirectiveModel::Composer(_) => "composer"@,
        DirectiveModel::Lyricist(_) => "lyricist"@,
        DirectiveModel::Copyright(_) => "copyright"@,
        DirectiveModel::Album(_) => "album"@,
        DirectiveModel::Year(_) => "year"@,
        DirectiveModel::Key(_) => "key"@,
        DirectiveModel::Time(_) => "time"@,
        DirectiveModel::Tempo(_) => "tempo"@,
        DirectiveModel::Duration(_) => "duration"@,
        DirectiveModel::Capo(_) => "capo"@,
        DirectiveModel::Meta(_) => "meta"@,
        DirectiveModel::Comment(_) => "comment"@,
        DirectiveModel::CommentItalic(_) => "comment_italic"@,
        DirectiveModel::CommentBox(_) => "comment_box"@,
        DirectiveModel::Image(_) => "image"@,
        DirectiveModel::StartOfChorus(_) => "start_of_chorus"@,
        DirectiveModel::EndOfChorus => "end_of_chorus"@,
        DirectiveModel::Chorus(_) => "chorus"@,
        DirectiveModel::StartOfVerse(_) => "start_of_verse"@,
        DirectiveModel::EndOfVerse => "end_of_verse"@,
        DirectiveModel::StartOfTab(_) => "start_of_tab"@,
        DirectiveModel::EndOfTab => "end_of_tab"@,
        DirectiveModel::StartOfGrid(_) => "start_of_grid"@,
        DirectiveModel::EndOfGrid => "end_of_grid"@,
        DirectiveModel::Define(_) => "define"@,
        DirectiveModel::Chord(_) => "chord"@,
        DirectiveModel::Textfont(_) => "textfont"@,
        DirectiveModel::Textsize(_) => "textsize"@,
        DirectiveModel::Textcolour(_) => "textcolour"@,
        DirectiveModel::Chordfont(_) => "chordfont"@,
        DirectiveModel::Chordsize(_) => "chordsize"@,
        DirectiveModel::Chordcolour(_) => "chordcolour"@,
        DirectiveModel::Tabfont(_) => "tabfont"@,
        DirectiveModel::Tabsize(_) => "tabsize"@,
        DirectiveModel::Tabcolour(_) => "tabcolour"@,
        DirectiveModel::NewPage => "new_page"@,
        DirectiveModel::NewPhysicalPage => "new_physical_page"@,
        DirectiveModel::ColumnBreak => "column_break"@,
        DirectiveModel::Custom(_) => seq![],
    }
}

/// The short form of a directive's name, where ChordPro has one (the name otherwise).
pub open spec fn directive_abbreviation(d: DirectiveModel) -> Seq<char> {
    match d {
        DirectiveModel::NewSong => "ns"@,
        DirectiveModel::Title(_) => "t"@,
        DirectiveModel::Subtitle(_) => "st"@,
        DirectiveModel::Comment(_) => "c"@,
        DirectiveModel::CommentItalic(_) => "ci"@,
        DirectiveModel::CommentBox(_) => "cb"@,
        DirectiveModel::StartOfChorus(_) => "soc"@,
        DirectiveModel::EndOfChorus => "eoc"@,
        DirectiveModel::StartOfTab(_) => "sot"@,
        DirectiveModel::EndOfTab => "eot"@,
        DirectiveModel::NewPage => "np"@,
        DirectiveModel::NewPhysicalPage => "npp"@,
        _ => directive_name(d),
    }
}

/// The data a directive holds, if it holds any.
pub open spec fn directive_data(d: DirectiveModel) -> Option<Seq<char>> {
    match d {
        DirectiveModel::Title(x) => Some(x),
        DirectiveModel::Subtitle(x) => Some(x),
        DirectiveModel::Artist(x) => Some(x),
        DirectiveModel::Composer(x) => Some(x),
        DirectiveModel::Lyricist(x) => Some(x),
        DirectiveModel::Copyright(x) => Some(x),
        DirectiveModel::Album(x) => Some(x),
        DirectiveModel::Year(x) => Some(x),
        DirectiveModel::Key(x) => Some(x),
        DirectiveModel::Time(x) => Some(x),
        DirectiveModel::Tempo(x) => Some(x),
        DirectiveModel::Duration(x) => Some(x),
        DirectiveModel::Capo(x) => Some(x),
        DirectiveModel::Meta(x) => Some(x),
        DirectiveModel::Comment(x) => Some(x),
        DirectiveModel::CommentItalic(x) => Some(x),
        DirectiveModel::CommentBox(x) => Some(x),
        DirectiveModel::Image(x) => Some(x),
        DirectiveModel::StartOfChorus(x) => Some(x),
        DirectiveModel::Chorus(x) => Some(x),
        DirectiveModel::StartOfVerse(x) => Some(x),
        DirectiveModel::StartOfTab(x) => Some(x),
        DirectiveModel::StartOfGrid(x) => Some(x),
        DirectiveModel::Define(x) => Some(x),
        DirectiveModel::Chord(x) => Some(x),
        DirectiveModel::Textfont(x) => Some(x),
        DirectiveModel::Textsize(x) => Some(x),
        DirectiveModel::Textcolour(x) => Some(x),
        DirectiveModel::Chordfont(x) => Some(x),
        DirectiveModel::Chordsize(x) => Some(x),
        DirectiveModel::Chordcolour(x) => Some(x),
        DirectiveModel::Tabfont(x) => Some(x),
        DirectiveModel::Tabsize(x) => Some(x),
        DirectiveModel::Tabcolour(x) => Some(x),
        DirectiveModel::Custom(x) => Some(x),
        _ => None,
    }
}

/// A keyword names the directive it makes: the keyword is that directive's name or its short
/// form, unless the directive is a custom one; and whatever data the directive holds is the data
/// given.
pub proof fn lemma_keyword_names_directive(keyword: Seq<char>, data: Seq<char>)
    ensures
        directive_of(keyword, data) is Custom || keyword == directive_name(directive_of(keyword, data))
            || keyword == directive_abbreviation(directive_of(keyword, data)),
        directive_data(directive_of(keyword, data)) is None || directive_data(
            directive_of(keyword, data),
        ) == Some(data),
{
}

impl Directive {
    /// The directive that `keyword` names, holding `data`.
    pub fn from_keyword(keyword: &str, data: &str) -> (r: Directive)
        ensures
            r@ == directive_of(keyword@, data@),
    {
        if str_eq(keyword, "new_song") || str_eq(keyword, "ns") {
            Directive::NewSong
        } else if str_eq(keyword, "title") || str_eq(keyword, "t") {
            Directive::Title(data.to_owned())
        } else if str_eq(keyword, "subtitle") || str_eq(keyword, "st") {
            Directive::Subtitle(data.to_owned())
        } else if str_eq(keyword, "artist") {
            Directive::Artist(data.to_owned())
        } else if str_eq(keyword, "composer") {
            Directive::Composer(data.to_owned())
        } else if str_eq(keyword, "lyricist") {
            Directive::Lyricist(data.to_owned())
        } else if str_eq(keyword, "copyright") {
            Directive::Copyright(data.to_owned())
        } else if str_eq(keyword, "album") {
            Directive::Album(data.to_owned())
        } else if str_eq(keyword, "year") {
            Directive::Year(data.to_owned())
        } else if str_eq(keyword, "key") {
            Directive::Key(data.to_owned())
        } else if str_eq(keyword, "time") {
            Directive::Time(data.to_owned())
        } else if str_eq(keyword, "tempo") {
            Directive::Tempo(data.to_owned())
        } else if str_eq(keyword, "duration") {
            Directive::Duration(data.to_owned())
        } else if str_eq(keyword, "capo") {
            Directive::Capo(data.to_owned())
        } else if str_eq(keyword, "meta") {
            Directive::Meta(data.to_owned())
        } else if str_eq(keyword, "comment") || str_eq(keyword, "c") {
            Directive::Comment(data.to_owned())
        } else if str_eq(keyword, "comment_italic") || str_eq(keyword, "ci") {
            Directive::CommentItalic(data.to_owned())
        } else if str_eq(keyword, "comment_box") || str_eq(keyword, "cb") {
            Directive::CommentBox(data.to_owned())
        } else if str_eq(keyword, "image") {
            Directive::Image(data.to_owned())
        } else if str_eq(keyword, "start_of_chorus") || str_eq(keyword, "soc") {
            Directive::StartOfChorus(data.to_owned())
        } else if str_eq(keyword, "end_of_chorus") || str_eq(keyword, "eoc") {
            Directive::EndOfChorus
        } else if str_eq(keyword, "chorus") {
            Directive::Chorus(data.to_owned())
        } else if str_eq(keyword, "start_of_verse") {
            Directive::StartOfVerse(data.to_owned())
        } else if str_eq(keyword, "end_of_verse") {
            Directive::EndOfVerse
        } else if str_eq(keyword, "start_of_tab") || str_eq(keyword, "sot") {
            Directive::StartOfTab(data.to_owned())
        } else if str_eq(keyword, "end_of_tab") || str_eq(keyword, "eot") {
            Directive::EndOfTab
        } else if str_eq(keyword, "start_of_grid") {
            Directive::StartOfGrid(data.to_owned())
        } else if str_eq(keyword, "end_of_grid") {
            Directive::EndOfGrid
        } else if str_eq(keyword, "define") {
            Directive::Define(data.to_owned())
        } else if str_eq(keyword, "chord") {
            Directive::Chord(data.to_owned())
        } else if str_eq(keyword, "textfont") {
            Directive::Textfont(data.to_owned())
        } else if str_eq(keyword, "textsize") {
            Directive::Textsize(data.to_owned())
        } else if str_eq(keyword, "textcolour") {
            Directive::Textcolour(data.to_owned())
        } else if str_eq(keyword, "chordfont") {
            Directive::Chordfont(data.to_owned())
        } else if str_eq(keyword, "chordsize") {
            Directive::Chordsize(data.to_owned())
        } else if str_eq(keyword, "chordcolour") {
            Directive::Chordcolour(data.to_owned())
        } else if str_eq(keyword, "tabfont") {
            Directive::Tabfont(data.to_owned())
        } else if str_eq(keyword, "tabsize") {
            Directive::Tabsize(data.to_owned())
        } else if str_eq(keyword, "tabcolour") {
            Directive::Tabcolour(data.to_owned())
        } else if str_eq(keyword, "new_page") || str_eq(keyword, "np") {
            Directive::NewPage
        } else if str_eq(keyword, "new_physical_page") || str_eq(keyword, "npp") {
            Directive::NewPhysicalPage
        } else if str_eq(keyword, "column_break") {
            Directive::ColumnBreak
        } else {
            Directive::Custom(data.to_owned())
        }
    }

    /// The directive that the text between the braces makes.
    pub fn from_str(input: &str) -> (r: Directive)
        ensures
            r@ == directive_of_text(input@),
    {
        let v = chars_of(input);
        let i = find_char(&v, 0, ':');
        assert(v@.skip(0) =~= v@);
        if i < v.len() {
            let keyword = string_from_range(&v, 0, i);
            let data = string_from_range(&v, i + 1, v.len());
            assert(v@.subrange(0, i as int) =~= v@.take(i as int));
            assert(v@.subrange(i + 1, v@.len() as int) =~= v@.skip(i + 1));
            let k = trim(keyword.as_str());
            let d = trim(data.as_str());
            Directive::from_keyword(k.as_str(), d.as_str())
        } else {
            let k = trim(input);
            let d = String::new();
            assert(d@ =~= seq![]);
            Directive::from_keyword(k.as_str(), d.as_str())
        }
    }

    /// A comment directive.
    pub fn comment(value: &str) -> (r: Directive)
        ensures
            r@ == DirectiveModel::Comment(value@),
    {
        Directive::Comment(value.to_owned())
    }

    /// A title directive.
    pub fn title(value: &str) -> (r: Directive)
        ensures
            r@ == DirectiveModel::Title(value@),
    {
        Directive::Title(value.to_owned())
    }

    /// A start-of-chorus directive.
    pub fn start_of_chorus(value: &str) -> (r: Directive)
        ensures
            r@ == DirectiveModel::StartOfChorus(value@),
    {
        Directive::StartOfChorus(value.to_owned())
    }
}

} // verus!

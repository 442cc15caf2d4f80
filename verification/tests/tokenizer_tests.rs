use libchordr::models::b_notation::BNotation;
use libchordr::tokenizer::chord_down_tokenizer::{token_lines_to_tokens, ChordDownTokenizer};
use libchordr::tokenizer::chorddown_tokenizer::lexeme::Lexeme;
use libchordr::tokenizer::chorddown_tokenizer::mode::Mode;
use libchordr::tokenizer::chorddown_tokenizer::scanner::Scanner;
use libchordr::tokenizer::chorddown_tokenizer::ChorddownTokenizer;
use libchordr::tokenizer::meta::Meta;
use libchordr::tokenizer::metadata::RawMetadata;
use libchordr::tokenizer::modifier::Modifier;
use libchordr::tokenizer::token::Token;

fn lit(literal: &str) -> Lexeme {
    Lexeme::literal(literal)
}

const NL: Lexeme = Lexeme::Newline;
const H: Lexeme = Lexeme::HeaderStart;
const CS: Lexeme = Lexeme::ChordStart;
const CE: Lexeme = Lexeme::ChordEnd;
const CM: Lexeme = Lexeme::ChorusMark;
const B: Lexeme = Lexeme::BridgeMark;
const EOF: Lexeme = Lexeme::Eof;

fn tokenize(content: &str) -> Vec<Token> {
    ChorddownTokenizer::new().try_tokenize(content).unwrap()
}

#[test]
fn test_tokenize_main() {
    let content = r"
# Swing Low Sweet Chariot

##! Chorus
Swing [D]low, sweet [G]chari[D]ot

> A quote [D#m7]
";
    let token_lines = tokenize(content);
    assert_eq!(
        token_lines,
        vec![
            Token::Newline,
            Token::headline(1, "Swing Low Sweet Chariot", Modifier::Plain),
            Token::Newline,
            Token::Newline,
            Token::headline(2, "Chorus", Modifier::Chorus),
            Token::Newline,
            Token::literal("Swing "),
            Token::chord("D"),
            Token::literal("low, sweet "),
            Token::chord("G"),
            Token::literal("chari"),
            Token::chord("D"),
            Token::literal("ot"),
            Token::Newline,
            Token::Newline,
            Token::quote("A quote [D#m7]"),
            Token::Newline
        ]
    );
}

#[test]
fn mod_test_tokenize_meta() {
    let content = r"Composer: Daniel Corn
Artist: The Fantastic Corns
Key: Cm
";
    let tokens = tokenize(content);
    assert_eq!(tokens.get(0), Some(&Token::Metadata(RawMetadata::composer("Daniel Corn"))));
    assert_eq!(tokens.get(1), Some(&Token::Newline));
    assert_eq!(
        tokens.get(2),
        Some(&Token::Metadata(RawMetadata::artist("The Fantastic Corns")))
    );
    assert_eq!(tokens.get(3), Some(&Token::Newline));
    assert_eq!(tokens.get(4), Some(&Token::Metadata(RawMetadata::key("Cm"))));
    assert_eq!(tokens.get(5), Some(&Token::Newline));
}

#[test]
fn test_tokenize_line_meta() {
    let content = r"
Composer: Daniel Corn
Artist: The Fantastic Corns
Key: Cm
";
    let token_lines = ChordDownTokenizer::new().try_tokenize(content).unwrap();
    assert_eq!(token_lines.len(), 3);
    let tokens = token_lines_to_tokens(token_lines);

    assert_eq!(tokens.get(0), Some(&Token::Meta(Meta::composer("Daniel Corn"))));
    assert_eq!(tokens.get(1), Some(&Token::Newline));
    assert_eq!(tokens.get(2), Some(&Token::Meta(Meta::artist("The Fantastic Corns"))));
    assert_eq!(tokens.get(3), Some(&Token::Newline));
    assert_eq!(tokens.get(4), Some(&Token::Meta(Meta::key("Cm"))));
    assert_eq!(tokens.get(5), Some(&Token::Newline));
}

#[test]
fn test_tokenize_newline() {
    let tokens = tokenize("\n\n\n");
    assert_eq!(tokens.len(), 3);
    assert_eq!(tokens, vec![Token::Newline, Token::Newline, Token::Newline]);
}

#[test]
fn test_tokenize_meta_key() {
    let content = r"
Key: C#m
";
    let tokens = tokenize(content);
    assert_eq!(
        tokens,
        vec![Token::Newline, Token::Metadata(RawMetadata::key("C#m")), Token::Newline]
    );
}

#[test]
fn test_tokenize_meta_with_inline_sharp() {
    let tokens = tokenize("Album: Song in C#m");
    assert_eq!(tokens, vec![Token::Metadata(RawMetadata::album("Song in C#m"))]);
}

#[test]
fn test_tokenize_meta_b_notation() {
    let cases = vec![
        ("B Notation: H", BNotation::H),
        ("B_Notation: H", BNotation::H),
        ("BNotation: H", BNotation::H),
        ("B-Notation: H", BNotation::H),
        ("B Notation: B", BNotation::B),
        ("B_Notation: B", BNotation::B),
        ("BNotation: B", BNotation::B),
        ("B-Notation: B", BNotation::B),
    ];
    for (input, notation) in cases {
        let tokens = tokenize(input);
        assert_eq!(tokens.get(0), Some(&Token::Metadata(RawMetadata::BNotation(notation))));
    }
}

#[test]
fn test_tokenize_pre_chorus() {
    assert_eq!(
        tokenize(r"##- Pre-chorus"),
        vec![Token::headline(2, "Pre-chorus", Modifier::Bridge)]
    );
}

#[test]
fn test_tokenize_chorus_with_exclamation_marks() {
    assert_eq!(
        tokenize(r"##! Chorus Loud!!"),
        vec![Token::headline(2, "Chorus Loud!!", Modifier::Chorus)]
    );
}

#[test]
fn test_tokenize_bride_with_exclamation_marks() {
    assert_eq!(
        tokenize(r"##- Bride Loud!!"),
        vec![Token::headline(2, "Bride Loud!!", Modifier::Bridge)]
    );
}

#[test]
fn test_tokenize_chorus_with_exclamation_marks_at_end() {
    assert_eq!(
        tokenize(r"## Play Loud!!"),
        vec![Token::headline(2, "Play Loud!!", Modifier::Plain)]
    );
}

#[test]
fn test_newline_is_terminated_by_everything() {
    assert!(Mode::Newline.is_terminated_by(Mode::Newline));
    assert!(Mode::Newline.is_terminated_by(Mode::Chord));
    assert!(Mode::Newline.is_terminated_by(Mode::Header));
    assert!(Mode::Newline.is_terminated_by(Mode::Quote));
    assert!(Mode::Newline.is_terminated_by(Mode::Literal));
}

#[test]
fn test_everything_is_terminated_by_newline() {
    assert!(Mode::Newline.is_terminated_by(Mode::Newline));
    assert!(Mode::Chord.is_terminated_by(Mode::Newline));
    assert!(Mode::Header.is_terminated_by(Mode::Newline));
    assert!(Mode::Quote.is_terminated_by(Mode::Newline));
    assert!(Mode::Literal.is_terminated_by(Mode::Newline));
}

#[test]
fn test_chord_is_terminated_by_newline_only() {
    assert!(Mode::Chord.is_terminated_by(Mode::Newline));
    assert!(!Mode::Chord.is_terminated_by(Mode::Chord));
    assert!(!Mode::Chord.is_terminated_by(Mode::Header));
    assert!(!Mode::Chord.is_terminated_by(Mode::Quote));
    assert!(!Mode::Chord.is_terminated_by(Mode::Literal));
}

#[test]
fn test_header_is_terminated_by() {
    assert!(Mode::Header.is_terminated_by(Mode::Newline));
    assert!(Mode::Header.is_terminated_by(Mode::Chord));
    assert!(!Mode::Header.is_terminated_by(Mode::Header));
    assert!(Mode::Header.is_terminated_by(Mode::Quote));
    assert!(!Mode::Header.is_terminated_by(Mode::Literal));
}

#[test]
fn test_quote_is_terminated_by() {
    assert!(Mode::Quote.is_terminated_by(Mode::Newline));
    assert!(Mode::Quote.is_terminated_by(Mode::Chord));
    assert!(!Mode::Quote.is_terminated_by(Mode::Header));
    assert!(!Mode::Quote.is_terminated_by(Mode::Quote));
    assert!(!Mode::Quote.is_terminated_by(Mode::Literal));
}

#[test]
fn test_literal_is_terminated_by_everything_but_self() {
    assert!(Mode::Literal.is_terminated_by(Mode::Newline));
    assert!(Mode::Literal.is_terminated_by(Mode::Chord));
    assert!(Mode::Literal.is_terminated_by(Mode::Header));
    assert!(Mode::Literal.is_terminated_by(Mode::Quote));
    assert!(!Mode::Literal.is_terminated_by(Mode::Literal));
}

#[test]
fn scan_test() {
    let content = r"
# Swing Low Sweet Chariot

Composer: Daniel Corn

##! Chorus
Swing [D]low, sweet [G]chari[D]ot,
";
    let lexemes = Scanner::new().scan(content);
    assert_eq!(lexemes.len(), 30);
    assert_eq!(
        lexemes,
        vec![
            NL,
            H,
            lit(" Swing Low Sweet Chariot"),
            NL,
            NL,
            lit("Composer"),
            Lexeme::Colon,
            lit(" Daniel Corn"),
            NL,
            NL,
            H,
            H,
            Lexeme::ChorusMark,
            lit(" Chorus"),
            NL,
            lit("Swing "),
            CS,
            lit("D"),
            CE,
            lit("low, sweet "),
            CS,
            lit("G"),
            CE,
            lit("chari"),
            CS,
            lit("D"),
            CE,
            lit("ot,"),
            NL,
            EOF,
        ]
    );
}

#[test]
fn scan_test_complex_chords() {
    assert_eq!(Scanner::new().scan("[Dm7]"), vec![CS, lit("Dm7"), CE, EOF]);
    assert_eq!(Scanner::new().scan("[Dm7/B]"), vec![CS, lit("Dm7/B"), CE, EOF]);
    assert_eq!(Scanner::new().scan("[D#m7]"), vec![CS, lit("D"), H, lit("m7"), CE, EOF]);
    assert_eq!(
        Scanner::new().scan("[B/F#maj7]"),
        vec![CS, lit("B/F"), H, lit("maj7"), CE, EOF]
    );
}

#[test]
fn scan_pre_chorus_test() {
    let content = r"
##- Pre-chorus
";
    let lexemes = Scanner::new().scan(content);
    assert_eq!(lexemes.len(), 9);
    assert_eq!(lexemes, vec![NL, H, H, B, lit(" Pre"), B, lit("chorus"), NL, EOF]);
}

#[test]
fn scan_bride_with_exclamation_marks_test() {
    let lexemes = Scanner::new().scan(r"##- Bride Loud!!");
    assert_eq!(lexemes, vec![H, H, B, lit(" Bride Loud"), CM, CM, EOF,]);
}

#[test]
fn scan_chorus_with_exclamation_marks_test() {
    let lexemes = Scanner::new().scan(r"##! Chorus Loud!!");
    assert_eq!(lexemes.len(), 7);
    assert_eq!(lexemes, vec![H, H, CM, lit(" Chorus Loud"), CM, CM, EOF,]);
}

#[test]
fn scan_renders_back_to_input() {
    let content = "# Title\nKey: C\n[Am]text > quote";
    let lexemes = Scanner::new().scan(content);
    let rendered: String = lexemes.iter().map(|l| l.to_text()).collect();
    assert_eq!(rendered, content);
}

#[test]
fn test_split() {
    assert_eq!(Modifier::split(" Header"), (Modifier::Plain, " Header".to_string()));
    assert_eq!(Modifier::split("Header"), (Modifier::Plain, "Header".to_string()));
    assert_eq!(Modifier::split(""), (Modifier::Plain, "".to_string()));

    assert_eq!(Modifier::split("! Header"), (Modifier::Chorus, " Header".to_string()));
    assert_eq!(Modifier::split("!"), (Modifier::Chorus, "".to_string()));
    assert_eq!(Modifier::split("! "), (Modifier::Chorus, " ".to_string()));

    assert_eq!(Modifier::split("- Bridge"), (Modifier::Bridge, " Bridge".to_string()));
    assert_eq!(Modifier::split("-"), (Modifier::Bridge, "".to_string()));
    assert_eq!(Modifier::split("- "), (Modifier::Bridge, " ".to_string()));
}

#[test]
fn test_split_umlauts() {
    assert_eq!(Modifier::split(" Überschrift"), (Modifier::Plain, " Überschrift".to_string()));
    assert_eq!(Modifier::split("Überschrift"), (Modifier::Plain, "Überschrift".to_string()));
    assert_eq!(Modifier::split(""), (Modifier::Plain, "".to_string()));

    assert_eq!(Modifier::split("! Überschrift"), (Modifier::Chorus, " Überschrift".to_string()));
    assert_eq!(Modifier::split("!"), (Modifier::Chorus, "".to_string()));
    assert_eq!(Modifier::split("! "), (Modifier::Chorus, " ".to_string()));

    assert_eq!(Modifier::split("- Brücke"), (Modifier::Bridge, " Brücke".to_string()));
    assert_eq!(Modifier::split("-"), (Modifier::Bridge, "".to_string()));
    assert_eq!(Modifier::split("- "), (Modifier::Bridge, " ".to_string()));
}

#[test]
fn metadata_keyword_is_case_insensitive() {
    assert_eq!(tokenize("ARTIST: Me"), vec![Token::Metadata(RawMetadata::artist("Me"))]);
    assert_eq!(tokenize("artist: Me"), vec![Token::Metadata(RawMetadata::artist("Me"))]);
}

#[test]
fn unknown_keyword_stays_literal() {
    assert_eq!(tokenize("Weather: sunny"), vec![Token::literal("Weather: sunny")]);
}

#[test]
fn meta_keyword_round_trip() {
    let metas = vec![
        Meta::subtitle("Sub"),
        Meta::artist("The Fantastic Corns"),
        Meta::composer("Daniel Corn"),
        Meta::lyricist("Me"),
        Meta::copyright("2020"),
        Meta::album("Album"),
        Meta::year("1865"),
        Meta::key("C#m"),
        Meta::original_key("Dm"),
        Meta::time("3/4"),
        Meta::tempo("120"),
        Meta::duration("3:20x"),
        Meta::capo("2"),
        Meta::original_title("Old"),
        Meta::alternative_title("Other"),
        Meta::ccli_song_id("1234"),
    ];
    for meta in metas {
        if meta.content().contains(':') {
            continue;
        }
        let line = format!("{}: {}", meta.keyword(), meta.content());
        assert_eq!(Meta::try_from_str(&line), Ok(meta.clone()));
        assert_eq!(RawMetadata::try_from_str(&line).map(|m| m.content().to_string()), Ok(meta.content()));
    }
}

#[test]
fn meta_orders_subtitle_first() {
    assert!(Meta::subtitle("z") < Meta::artist("a"));
    assert!(RawMetadata::subtitle("z") < RawMetadata::artist("a"));
}

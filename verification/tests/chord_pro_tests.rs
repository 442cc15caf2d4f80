use libchordr::tokenizer::chord_pro_tokenizer::directive::Directive;
use libchordr::tokenizer::chord_pro_tokenizer::token::Token;
use libchordr::tokenizer::chord_pro_tokenizer::ChordProTokenizer;
use libchordr::tokenizer::mode::Mode;

#[test]
fn directive_from_keyword_names_the_directive() {
    assert_eq!(Directive::from_keyword("t", "Song"), Directive::title("Song"));
    assert_eq!(Directive::from_keyword("soc", ""), Directive::start_of_chorus(""));
    assert_eq!(Directive::from_keyword("eoc", "x"), Directive::EndOfChorus);
    assert_eq!(Directive::from_keyword("cb", "boxed"), Directive::CommentBox("boxed".to_string()));
    assert_eq!(Directive::from_keyword("x_custom", "v"), Directive::Custom("v".to_string()));
}

#[test]
fn directive_from_text_splits_at_first_colon() {
    assert_eq!(Directive::from_str(" title : Swing : Low "), Directive::title("Swing : Low"));
    assert_eq!(Directive::from_str(" soc "), Directive::start_of_chorus(""));
    assert_eq!(Directive::from_str("comment:Repeat"), Directive::comment("Repeat"));
}

#[test]
fn chord_pro_line_tokens() {
    let tokens = ChordProTokenizer::new()
        .tokenize_line("{title: Swing Low}\nSwing [D]low # note\n[G]chari");
    assert_eq!(
        tokens,
        vec![
            Token::Directive(Directive::title("Swing Low")),
            Token::Newline,
            Token::literal("Swing "),
            Token::chord("D"),
            Token::literal("low "),
            Token::comment("note"),
            Token::chord("G"),
            Token::literal("chari"),
        ]
    );
}

#[test]
fn chord_pro_plain_line_is_one_literal() {
    let tokens = ChordProTokenizer::new().tokenize_line("Just words");
    assert_eq!(tokens, vec![Token::literal("Just words")]);
    assert_eq!(ChordProTokenizer::new().tokenize_line(""), vec![]);
}

#[test]
fn chord_pro_lines() {
    let lines = ChordProTokenizer::new().tokenize("{soc}\n[A]la\n");
    assert_eq!(
        lines,
        vec![
            vec![Token::Directive(Directive::start_of_chorus("")), Token::Newline],
            vec![Token::chord("A"), Token::literal("la"), Token::Newline],
        ]
    );
}

#[test]
fn chord_pro_token_from_mode() {
    assert_eq!(Token::from_mode_and_literal(Mode::Chord, " Am "), Token::chord("Am"));
    assert_eq!(Token::from_mode_and_literal(Mode::Literal, " a "), Token::literal(" a "));
    assert_eq!(Token::from_mode_and_literal(Mode::Newline, "x"), Token::Newline);
}

#[test]
fn chord_pro_modes() {
    assert_eq!(Mode::from_char('['), Mode::Chord);
    assert_eq!(Mode::from_char('{'), Mode::Directive);
    assert_eq!(Mode::from_char('#'), Mode::Comment);
    assert_eq!(Mode::from_char('\n'), Mode::Newline);
    assert_eq!(Mode::from_char('a'), Mode::Literal);
    assert!(Mode::Chord.is_end_character(']'));
    assert!(!Mode::Chord.is_end_character('}'));
    assert!(Mode::Comment.is_end_character('\n'));
    assert!(Mode::Newline.is_self_closing());
}

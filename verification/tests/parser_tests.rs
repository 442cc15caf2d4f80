use libchordr::models::b_notation::BNotation;
use libchordr::models::chord::{Chord, Note};
use libchordr::parser::meta_information::MetaInformation;
use libchordr::parser::meta_parser::MetaParser;
use libchordr::parser::metadata::Metadata;
use libchordr::parser::metadata_builder::MetadataBuilder;
use libchordr::parser::metadata_parser::MetadataParser;
use libchordr::parser::node::Node;
use libchordr::parser::node_parser::NodeParser;
use libchordr::parser::section_type::SectionType;
use libchordr::parser::Parser;
use libchordr::tokenizer::meta::Meta;
use libchordr::tokenizer::metadata::RawMetadata;
use libchordr::tokenizer::modifier::Modifier;
use libchordr::tokenizer::token::Token;

fn get_test_parser_input() -> Vec<Token> {
    vec![
        Token::headline(1, "Swing Low Sweet Chariot", Modifier::Plain),
        Token::newline(),
        Token::headline(2, "Chorus", Modifier::Chorus),
        Token::literal("Swing "),
        Token::chord("D"),
        Token::literal("low, sweet "),
        Token::chord("G"),
        Token::literal("chari"),
        Token::chord("D"),
        Token::literal("ot,"),
        Token::literal("Comin’ for to carry me "),
        Token::chord("A7"),
        Token::literal("home."),
        Token::literal("Swing "),
        Token::chord("D7"),
        Token::headline(2, "Verse", Modifier::Plain),
        Token::chord("E"),
        Token::literal("low, sweet "),
        Token::chord("G"),
        Token::literal("chari"),
        Token::chord("D"),
        Token::literal("ot,"),
        Token::chord("E"),
        Token::chord("A"),
        Token::newline(),
        Token::chord("B"),
        Token::chord("H"),
    ]
}

fn get_test_tokens_small() -> Vec<Token> {
    get_test_parser_input()
}

fn get_test_ast_small() -> Node {
    Node::Document(vec![
        Node::section(1, "Swing Low Sweet Chariot", Modifier::Plain, vec![Node::newline()]),
        Node::section(
            2,
            "Chorus",
            Modifier::Chorus,
            vec![
                Node::text("Swing "),
                Node::chord_text_pair("D", "low, sweet ").unwrap(),
                Node::chord_text_pair("G", "chari").unwrap(),
                Node::chord_text_pair("D", "ot,").unwrap(),
                Node::text("Comin’ for to carry me "),
                Node::chord_text_pair("A7", "home.").unwrap(),
                Node::text("Swing "),
                Node::chord_standalone("D7").unwrap(),
            ],
        ),
        Node::section(
            2,
            "Verse",
            Modifier::Plain,
            vec![
                Node::chord_text_pair("E", "low, sweet ").unwrap(),
                Node::chord_text_pair("G", "chari").unwrap(),
                Node::chord_text_pair("D", "ot,").unwrap(),
                Node::chord_standalone("E").unwrap(),
                Node::chord_standalone("A").unwrap(),
                Node::newline(),
                Node::chord_standalone("A#").unwrap(),
                Node::chord_standalone("H").unwrap(),
            ],
        ),
    ])
}

fn get_test_tokens() -> Vec<Token> {
    vec![
        Token::headline(1, "Swing Low Sweet Chariot", Modifier::Plain),
        Token::newline(),
        Token::newline(),
        Token::headline(2, "Chorus", Modifier::Chorus),
        Token::newline(),
        Token::literal("Swing "),
        Token::chord("D"),
        Token::literal("low, sweet "),
        Token::chord("G"),
        Token::literal("chari"),
        Token::chord("D"),
        Token::literal("ot,"),
        Token::newline(),
        Token::literal("Comin’ for to carry me "),
        Token::chord("A7"),
        Token::literal("home."),
        Token::newline(),
        Token::literal("Swing "),
        Token::chord("D7"),
        Token::literal("low, sweet "),
        Token::chord("G"),
        Token::literal("chari"),
        Token::chord("D"),
        Token::literal("ot,"),
        Token::newline(),
        Token::literal("Comin’ for to "),
        Token::chord("A7"),
        Token::literal("carry me "),
        Token::chord("D"),
        Token::literal("home."),
        Token::newline(),
        Token::newline(),
        Token::newline(),
        Token::headline(2, "Verse 1", Modifier::Plain),
        Token::newline(),
        Token::newline(),
        Token::literal("I "),
        Token::chord("D"),
        Token::literal("looked over Jordan, and "),
        Token::chord("G"),
        Token::literal("what did I "),
        Token::chord("D"),
        Token::literal("see,"),
        Token::newline(),
        Token::literal("Comin’ for to carry me "),
        Token::chord("A7"),
        Token::literal("home."),
        Token::newline(),
        Token::literal("A "),
        Token::chord("D"),
        Token::literal("band of angels "),
        Token::chord("G"),
        Token::literal("comin’ after "),
        Token::chord("D"),
        Token::literal("me,"),
        Token::newline(),
        Token::literal("Comin’ for to "),
        Token::chord("A7"),
        Token::literal("carry me "),
        Token::chord("D"),
        Token::literal("home."),
        Token::newline(),
        Token::newline(),
        Token::quote("Chorus"),
        Token::newline(),
    ]
}

fn get_test_ast() -> Node {
    Node::Document(vec![
        Node::section(1, "Swing Low Sweet Chariot", Modifier::Plain, vec![Node::newline()]),
        Node::section(
            2,
            "Chorus",
            Modifier::Chorus,
            vec![
                Node::newline(),
                Node::text("Swing "),
                Node::chord_text_pair("D", "low, sweet ").unwrap(),
                Node::chord_text_pair("G", "chari").unwrap(),
                Node::chord_text_pair_last_in_line("D", "ot,").unwrap(),
                Node::newline(),
                Node::text("Comin’ for to carry me "),
                Node::chord_text_pair_last_in_line("A7", "home.").unwrap(),
                Node::newline(),
                Node::text("Swing "),
                Node::chord_text_pair("D7", "low, sweet ").unwrap(),
                Node::chord_text_pair("G", "chari").unwrap(),
                Node::chord_text_pair_last_in_line("D", "ot,").unwrap(),
                Node::newline(),
                Node::text("Comin’ for to "),
                Node::chord_text_pair("A7", "carry me ").unwrap(),
                Node::chord_text_pair_last_in_line("D", "home.").unwrap(),
                Node::newline(),
            ],
        ),
        Node::section(
            2,
            "Verse 1",
            Modifier::Plain,
            vec![
                Node::newline(),
                Node::text("I "),
                Node::chord_text_pair("D", "looked over Jordan, and ").unwrap(),
                Node::chord_text_pair("G", "what did I ").unwrap(),
                Node::chord_text_pair_last_in_line("D", "see,").unwrap(),
                Node::newline(),
                Node::text("Comin’ for to carry me "),
                Node::chord_text_pair_last_in_line("A7", "home.").unwrap(),
                Node::newline(),
                Node::text("A "),
                Node::chord_text_pair("D", "band of angels ").unwrap(),
                Node::chord_text_pair("G", "comin’ after ").unwrap(),
                Node::chord_text_pair_last_in_line("D", "me,").unwrap(),
                Node::newline(),
                Node::text("Comin’ for to "),
                Node::chord_text_pair("A7", "carry me ").unwrap(),
                Node::chord_text_pair_last_in_line("D", "home.").unwrap(),
                Node::newline(),
            ],
        ),
        Node::Section {
            head: Some(Box::new(Node::quote("Chorus"))),
            section_type: SectionType::Reference,
            children: vec![],
        },
        Node::newline(),
    ])
}

fn b_notation_inputs() -> Vec<(Vec<Token>, BNotation)> {
    vec![
        (
            vec![
                Token::headline(1, "Test with standard B notation w/ text", Modifier::Plain),
                Token::newline(),
                Token::chord("E"),
                Token::literal("A text"),
            ],
            BNotation::B,
        ),
        (
            vec![
                Token::headline(1, "Test with standard B notation w/o text", Modifier::Plain),
                Token::newline(),
                Token::chord("E"),
            ],
            BNotation::B,
        ),
        (
            vec![
                Token::headline(1, "Test with european B notation w/ text", Modifier::Plain),
                Token::newline(),
                Token::chord("H"),
                Token::literal("A text"),
            ],
            BNotation::H,
        ),
        (
            vec![
                Token::headline(1, "Test with european B notation w/o text", Modifier::Plain),
                Token::newline(),
                Token::chord("H"),
            ],
            BNotation::H,
        ),
    ]
}

fn key_cases() -> Vec<(&'static str, Chord)> {
    vec![
        ("D", Chord::new_without_variant(Note::D)),
        ("Dm", Chord::new_with_variant(Note::D, "m")),
        ("B", Chord::new_without_variant(Note::B)),
        ("Bb", Chord::new_without_variant(Note::Ais)),
        ("H", Chord::new_without_variant(Note::B)),
    ]
}

fn notation_cases() -> Vec<(&'static str, BNotation, Chord)> {
    let chord_w = Chord::new_with_variant;
    let chord_wo = Chord::new_without_variant;
    vec![
        ("D", BNotation::H, chord_wo(Note::D)),
        ("Dm", BNotation::H, chord_w(Note::D, "m")),
        ("A♯", BNotation::H, chord_wo(Note::Ais)),
        ("A#", BNotation::H, chord_wo(Note::Ais)),
        ("B", BNotation::H, chord_wo(Note::Ais)),
        ("B♭", BNotation::H, chord_wo(Note::Ais)),
        ("Bb", BNotation::H, chord_wo(Note::Ais)),
        ("H", BNotation::H, chord_wo(Note::B)),
        ("D", BNotation::B, chord_wo(Note::D)),
        ("Dm", BNotation::B, chord_w(Note::D, "m")),
        ("A♯", BNotation::B, chord_wo(Note::Ais)),
        ("A#", BNotation::B, chord_wo(Note::Ais)),
        ("B", BNotation::B, chord_wo(Note::B)),
        ("B♭", BNotation::B, chord_wo(Note::Ais)),
        ("Bb", BNotation::B, chord_wo(Note::Ais)),
        ("H", BNotation::B, chord_wo(Note::B)),
    ]
}

#[test]
fn meta_information_test_assign_from_token_key() {
    for case in key_cases() {
        let mut meta = MetaInformation::default();
        meta.assign_from_token(&Meta::key(case.0));
        assert_eq!(meta.key, Some(case.1));
    }
}

#[test]
fn meta_information_test_update_b_notation() {
    for case in notation_cases() {
        let mut meta = MetaInformation::default();
        meta.assign_from_token(&Meta::key(case.0));
        meta.reinterpret_keys_with_b_notation(case.1);
        assert_eq!(meta.key, Some(case.2));
    }
}

#[test]
fn metadata_test_assign_from_token_key() {
    for case in key_cases() {
        let mut metadata = Metadata::default();
        metadata.assign_from_token(&RawMetadata::key(case.0));
        assert_eq!(metadata.key, Some(case.1));
    }
}

#[test]
fn metadata_test_update_b_notation() {
    for case in notation_cases() {
        let mut metadata = Metadata::default();
        metadata.assign_from_token(&RawMetadata::key(case.0));
        metadata.reinterpret_keys_with_b_notation(case.1);
        assert_eq!(metadata.key, Some(case.2));
    }
}

#[test]
fn metadata_builder_test_assign_from_token_key() {
    for case in key_cases() {
        let mut metadata_builder = MetadataBuilder::default();
        metadata_builder.assign_from_token(RawMetadata::key(case.0));
        assert_eq!(metadata_builder.build().key, Some(case.1));
    }
}

#[test]
fn metadata_builder_test_update_b_notation() {
    for case in notation_cases() {
        let mut metadata_builder = MetadataBuilder::default();
        metadata_builder.assign_from_token(RawMetadata::key(case.0));
        metadata_builder.reinterpret_keys_with_b_notation(case.1);
        assert_eq!(metadata_builder.build().key, Some(case.2));
    }
}

#[test]
fn meta_parser_test_parse() {
    let mut parser = MetaParser::new();
    let result = parser.parse(get_test_parser_input());
    assert_eq!(Some("Swing Low Sweet Chariot".to_string()), result.title);
}

#[test]
fn meta_parser_test_detect_b_notation() {
    let mut parser = MetaParser::new();
    for (tokens, expected) in b_notation_inputs() {
        let result = parser.parse(tokens);
        assert_eq!(result.b_notation, expected);
    }
}

#[test]
fn metadata_parser_test_parse() {
    let mut parser = MetadataParser::new();
    let result = parser.parse(get_test_parser_input());
    assert!(result.is_ok());
    assert_eq!(Some("Swing Low Sweet Chariot".to_string()), result.unwrap().title);
}

#[test]
fn metadata_parser_test_detect_b_notation() {
    let mut parser = MetadataParser::new();
    for (tokens, expected) in b_notation_inputs() {
        let result = parser.parse(tokens);
        assert_eq!(result.unwrap().b_notation, expected);
    }
}

#[test]
fn mod_test_parse() {
    let mut parser = Parser::new();
    let result = parser.parse(get_test_tokens_small());

    assert!(result.is_ok());
    let parser_result = result.unwrap();
    assert_eq!(Some("Swing Low Sweet Chariot".to_string()), parser_result.metadata().title);

    let ast = parser_result.node();
    let expected_ast = get_test_ast_small();
    assert_eq!(ast, &expected_ast);
}

#[test]
fn test_parse_2() {
    let mut parser = Parser::new();
    let result = parser.parse(get_test_tokens());

    assert!(result.is_ok());
    let parser_result = result.unwrap();
    assert_eq!(Some("Swing Low Sweet Chariot".to_string()), parser_result.metadata().title);
    assert_eq!(parser_result.node(), &get_test_ast());
}

#[test]
fn mod_test_detect_b_notation() {
    let mut parser = Parser::new();
    for (tokens, expected) in b_notation_inputs() {
        let result = parser.parse(tokens);
        assert!(result.is_ok());
        assert_eq!(result.unwrap().metadata().b_notation, expected);
    }
}

#[test]
fn test_cleanup_tokens() {
    assert_eq!(
        Parser::cleanup_tokens(vec![
            Token::headline(1, "Test", Modifier::Plain),
            Token::newline(),
            Token::chord("H"),
        ]),
        vec![Token::headline(1, "Test", Modifier::Plain), Token::newline(), Token::chord("H"),]
    );
    assert_eq!(
        Parser::cleanup_tokens(vec![
            Token::headline(1, "Test", Modifier::Plain),
            Token::newline(),
            Token::newline(),
            Token::newline(),
            Token::chord("H"),
        ]),
        vec![Token::headline(1, "Test", Modifier::Plain), Token::newline(), Token::chord("H"),]
    );
    assert_eq!(
        Parser::cleanup_tokens(vec![
            Token::headline(1, "Test", Modifier::Plain),
            Token::newline(),
            Token::newline(),
            Token::chord("H"),
            Token::newline(),
        ]),
        vec![
            Token::headline(1, "Test", Modifier::Plain),
            Token::newline(),
            Token::chord("H"),
            Token::newline(),
        ]
    );
    assert_eq!(
        Parser::cleanup_tokens(vec![
            Token::newline(),
            Token::newline(),
            Token::chord("H"),
            Token::newline(),
        ]),
        vec![Token::chord("H"), Token::newline(),]
    );
    assert_eq!(
        Parser::cleanup_tokens(vec![
            Token::newline(),
            Token::newline(),
            Token::chord("H"),
            Token::newline(),
            Token::newline(),
        ]),
        vec![Token::chord("H"), Token::newline(),]
    );
}

#[test]
fn node_parser_test_parse() {
    let mut parser = NodeParser::with_b_notation(BNotation::B);
    let result = parser.parse(get_test_tokens());

    assert!(result.is_ok());
    let ast = result.unwrap();
    assert_eq!(ast, get_test_ast());
}

#[test]
fn cleanup_is_idempotent_on_example() {
    let once = Parser::cleanup_tokens(get_test_tokens());
    let twice = Parser::cleanup_tokens(once.clone());
    assert_eq!(once, twice);
    assert!(!once[0].is_newline());
    for pair in once.windows(2) {
        assert!(!(pair[0].is_newline() && pair[1].is_newline()));
    }
}

#[test]
fn node_parser_reports_invalid_chord() {
    let mut parser = NodeParser::with_b_notation(BNotation::B);
    let result = parser.parse(vec![Token::chord("X"), Token::literal("text")]);
    assert!(result.is_err());
}

#[test]
fn quote_makes_a_reference_section() {
    let mut parser = NodeParser::with_b_notation(BNotation::B);
    let result = parser.parse(vec![Token::quote("Chorus 2x"), Token::newline(), Token::literal("a")]);
    assert_eq!(
        result.unwrap(),
        Node::Document(vec![
            Node::Section {
                head: Some(Box::new(Node::quote("Chorus 2x"))),
                section_type: SectionType::Reference,
                children: vec![],
            },
            Node::newline(),
            Node::text("a"),
        ])
    );
}

#[test]
fn meta_information_transpose_moves_key() {
    let mut meta = MetaInformation::default();
    meta.assign_from_token(&Meta::key("Dm"));
    let up = meta.transpose(2);
    assert_eq!(up.key, Some(Chord::new_with_variant(Note::E, "m")));
    assert_eq!(up.original_key, Some(Chord::new_with_variant(Note::D, "m")));
    let back = up.transpose(-2);
    assert_eq!(back.key, Some(Chord::new_with_variant(Note::D, "m")));
    assert_eq!(back.original_key, Some(Chord::new_with_variant(Note::D, "m")));
}

#[test]
fn meta_information_transpose_keeps_meta_with_original_key() {
    let mut meta = MetaInformation::default();
    meta.assign_from_token(&Meta::key("C"));
    meta.assign_from_token(&Meta::original_key("A"));
    let t = meta.transpose(3);
    assert_eq!(t.key, Some(Chord::new_without_variant(Note::C)));
    assert_eq!(t.original_key, Some(Chord::new_without_variant(Note::A)));
}

#[test]
fn metadata_builder_with_title_and_notation() {
    let m = MetadataBuilder::new().with_title("Song").with_b_notation(BNotation::H).build();
    assert_eq!(m.title, Some("Song".to_string()));
    assert_eq!(m.b_notation, BNotation::H);
}

#[test]
fn metadata_assigns_every_text_field() {
    let mut metadata = Metadata::default();
    metadata.assign_from_token(&RawMetadata::artist("The Fantastic Corns"));
    metadata.assign_from_token(&RawMetadata::composer("Daniel Corn"));
    metadata.assign_from_token(&RawMetadata::capo("2"));
    assert_eq!(metadata.artist, Some("The Fantastic Corns".to_string()));
    assert_eq!(metadata.composer, Some("Daniel Corn".to_string()));
    assert_eq!(metadata.capo, Some("2".to_string()));
    assert_eq!(metadata.title, None);
}

#[test]
fn node_constructors_propagate_chord_errors() {
    assert_eq!(Node::chord_standalone("X"), Err(libchordr::error::Error::UnknownNote));
    assert_eq!(Node::chord_text_pair("X", "text"), Err(libchordr::error::Error::UnknownNote));
    assert_eq!(
        Node::chord_text_pair_last_in_line("X", "text"),
        Err(libchordr::error::Error::UnknownNote)
    );
}

#[test]
fn section_head_carries_its_modifier() {
    let section = Node::section(2, "Chorus", Modifier::Chorus, vec![Node::section(3, "Inner", Modifier::Plain, vec![])]);
    match section {
        Node::Section { head: Some(head), section_type, children } => {
            assert_eq!(*head, Node::headline(2, "Chorus", Modifier::Chorus));
            assert_eq!(section_type, SectionType::Chorus);
            assert_eq!(children.len(), 1);
        }
        _ => panic!("not a section"),
    }
}

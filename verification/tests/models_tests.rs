use libchordr::error::Error;
use libchordr::models::b_notation::BNotation;
use libchordr::models::chord::{Chord, Chords, Note};

#[test]
fn chord_parses_root_and_variant() {
    assert_eq!(Chord::try_from("Dm7", BNotation::B), Ok(Chord::new_with_variant(Note::D, "m7")));
    assert_eq!(Chord::try_from("F#", BNotation::B), Ok(Chord::new_without_variant(Note::Fis)));
    assert_eq!(Chord::try_from("Eb", BNotation::B), Ok(Chord::new_without_variant(Note::Dis)));
    assert_eq!(Chord::try_from("B", BNotation::H), Ok(Chord::new_without_variant(Note::Ais)));
    assert_eq!(Chord::try_from("H7", BNotation::H), Ok(Chord::new_with_variant(Note::B, "7")));
}

#[test]
fn chord_errors() {
    assert_eq!(Chord::try_from("", BNotation::B), Err(Error::EmptyChord));
    assert_eq!(Chord::try_from("X", BNotation::B), Err(Error::UnknownNote));
}

#[test]
fn chords_split_at_white_space() {
    let chords = Chords::try_from("A D7", BNotation::B).unwrap();
    assert_eq!(
        chords.chords,
        vec![Chord::new_without_variant(Note::A), Chord::new_with_variant(Note::D, "7")]
    );
    assert_eq!(Chords::try_from("A X", BNotation::B), Err(Error::UnknownNote));
}

#[test]
fn note_transposition_wraps_around() {
    assert_eq!(Note::B.transpose(1), Note::C);
    assert_eq!(Note::C.transpose(-1), Note::B);
    assert_eq!(Note::E.transpose(12), Note::E);
    assert_eq!(Note::A.transpose(-26), Note::G);
    assert_eq!(Note::G.transpose(5).transpose(-5), Note::G);
}

#[test]
fn chord_transposition_keeps_variant() {
    let c = Chord::new_with_variant(Note::A, "m7");
    assert_eq!(c.transpose(3), Chord::new_with_variant(Note::C, "m7"));
}

#[test]
fn b_notation_from_text() {
    assert_eq!(BNotation::try_from_str("H"), Ok(BNotation::H));
    assert_eq!(BNotation::try_from_str("b"), Ok(BNotation::B));
    assert!(BNotation::try_from_str("X").is_err());
    assert_eq!(BNotation::from_str_or_default("X"), BNotation::B);
    assert_eq!(BNotation::H.as_str(), "H");
    assert_eq!(BNotation::default(), BNotation::B);
}

#[test]
fn european_chords() {
    assert!(BNotation::is_european_chord("H7"));
    assert!(!BNotation::is_european_chord("B7"));
    assert!(BNotation::contains_european_chord("A H"));
    assert!(!BNotation::contains_european_chord("A B"));
}

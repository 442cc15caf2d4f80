use libchordr::models::structure::SectionIdentifier;
use libchordr::repeat_detector::state_machine::{RepeatMatch, StateMachine};
use libchordr::repeat_detector::{RepeatDetector, RepeatInfo};

fn info(count: usize, name: &str) -> RepeatInfo {
    RepeatInfo::new(count, SectionIdentifier::try_from_str(name).unwrap())
}

#[test]
fn detect_prefix_test() {
    let detector = RepeatDetector::new();
    assert_eq!(info(2, "Chorus"), detector.detect("2x Chorus").unwrap());
    assert_eq!(info(5, "Chorus"), detector.detect("5* Chorus").unwrap());
    assert_eq!(info(5, "My Chorus"), detector.detect("5x My Chorus").unwrap());
    assert_eq!(info(5, "My Chorus"), detector.detect("5* My Chorus").unwrap());
    assert_eq!(info(172, "My Chorus"), detector.detect("172* My Chorus").unwrap());
}

#[test]
fn detect_suffix_test() {
    let detector = RepeatDetector::new();
    assert_eq!(info(2, "Chorus"), detector.detect("Chorus 2x").unwrap());
    assert_eq!(info(5, "Chorus"), detector.detect("Chorus 5*").unwrap());
    assert_eq!(info(5, "My Chorus"), detector.detect("My Chorus 5x").unwrap());
    assert_eq!(info(5, "My Chorus"), detector.detect("My Chorus 5*").unwrap());
    assert_eq!(info(156, "My Chorus"), detector.detect("My Chorus 156*").unwrap());
}

#[test]
fn detect_should_fail_test() {
    let detector = RepeatDetector::new();
    assert!(detector.detect("2x").is_err());
    assert!(detector.detect("2").is_err());
    assert!(detector.detect("x").is_err());
    assert!(detector.detect("2*").is_err());
    assert!(detector.detect("*").is_err());
    assert!(detector.detect("Hallo").is_err());
    assert!(detector.detect(" ").is_err());
    assert!(detector.detect("").is_err());
    assert!(detector.detect("3xtra cool").is_err());
    assert!(detector.detect("Nice tr4x").is_err());
}

#[test]
fn match_prefix_test() {
    let state_machine = StateMachine::new();
    assert_eq!(RepeatMatch::new(0, "2x ", "2"), state_machine.matches("2x Chorus").unwrap());
    assert_eq!(RepeatMatch::new(0, "5* ", "5"), state_machine.matches("5* Chorus").unwrap());
    assert_eq!(RepeatMatch::new(0, "5x ", "5"), state_machine.matches("5x My Chorus").unwrap());
    assert_eq!(RepeatMatch::new(0, "5* ", "5"), state_machine.matches("5* My Chorus").unwrap());
    assert_eq!(
        RepeatMatch::new(0, "172* ", "172"),
        state_machine.matches("172* My Chorus").unwrap()
    );
}

#[test]
fn match_suffix_test() {
    let detector = StateMachine::new();
    assert_eq!(RepeatMatch::new(7, " 2x", "2"), detector.matches("Chorus 2x").unwrap());
    assert_eq!(RepeatMatch::new(7, " 5*", "5"), detector.matches("Chorus 5*").unwrap());
    assert_eq!(RepeatMatch::new(10, " 5x", "5"), detector.matches("My Chorus 5x").unwrap());
    assert_eq!(RepeatMatch::new(10, " 5*", "5"), detector.matches("My Chorus 5*").unwrap());
    assert_eq!(RepeatMatch::new(10, " 156*", "156"), detector.matches("My Chorus 156*").unwrap());
}

#[test]
fn match_should_fail_test() {
    let state_machine = StateMachine::new();
    assert!(state_machine.matches("2").is_err());
    assert!(state_machine.matches("x").is_err());
    assert!(state_machine.matches("*").is_err());
    assert!(state_machine.matches("Hallo").is_err());
    assert!(state_machine.matches(" ").is_err());
    assert!(state_machine.matches("").is_err());
    assert!(state_machine.matches("3xtra cool").is_err());
    assert!(state_machine.matches("Nice tr4x").is_err());
}

#[test]
fn match_error_messages() {
    let state_machine = StateMachine::new();
    assert_eq!(state_machine.matches(""), Err("Value is empty".to_string()));
    assert_eq!(state_machine.matches("Hallo"), Err("No match".to_string()));
}

#[test]
fn match_ignores_text_after_the_mark() {
    let state_machine = StateMachine::new();
    assert_eq!(
        state_machine.matches("3x Chorus 4x").unwrap(),
        RepeatMatch::new(0, "3x ", "3")
    );
}

#[test]
fn section_identifier_is_trimmed_and_not_empty() {
    assert_eq!(SectionIdentifier::try_from_str("  Chorus ").unwrap().as_str(), "Chorus");
    assert_eq!(
        SectionIdentifier::try_from_str("   "),
        Err("Section identifier must not be empty".to_string())
    );
}

#[test]
fn detect_reports_count_overflow() {
    let detector = RepeatDetector::new();
    assert_eq!(
        detector.detect("99999999999999999999999x Chorus"),
        Err("Parsing the count failed: number too large to fit in target type".to_string())
    );
}

#[test]
fn detect_examples_of_the_module_doc() {
    let detector = RepeatDetector::new();
    assert_eq!(detector.detect("2x Chorus 1").unwrap(), info(2, "Chorus 1"));
    assert_eq!(detector.detect("2* Bridge").unwrap(), info(2, "Bridge"));
    assert_eq!(detector.detect("Interlude 6x").unwrap(), info(6, "Interlude"));
}

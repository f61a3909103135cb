use openchute::ident::{has_id_error, id_error_from_classes, IdError};
use openchute::names::{NameError, NameTable};

#[test]
fn accepts_plain_identifiers() {
    assert_eq!(has_id_error("diameter"), None);
    assert_eq!(has_id_error("vent_ratio"), None);
    assert_eq!(has_id_error("x1"), None);
    assert_eq!(has_id_error("Ärmel"), None);
}

#[test]
fn whitespace_is_reported_first() {
    assert_eq!(has_id_error("a b"), Some(IdError::Whitespace));
    assert_eq!(has_id_error(" "), Some(IdError::Whitespace));
    assert_eq!(has_id_error("1 -"), Some(IdError::Whitespace));
    assert_eq!(has_id_error("tab\there"), Some(IdError::Whitespace));
}

#[test]
fn empty_identifier() {
    assert_eq!(has_id_error(""), Some(IdError::Empty));
}

#[test]
fn non_alphanumeric_identifier() {
    assert_eq!(has_id_error("a-b"), Some(IdError::NotAlphanumeric));
    assert_eq!(has_id_error("1+"), Some(IdError::NotAlphanumeric));
    assert_eq!(has_id_error("x.y"), Some(IdError::NotAlphanumeric));
}

#[test]
fn first_letter_must_be_alphabetic() {
    assert_eq!(has_id_error("1abc"), Some(IdError::FirstNotAlphabetic));
    assert_eq!(has_id_error("_x"), Some(IdError::FirstNotAlphabetic));
}

#[test]
fn error_priority_from_classes() {
    assert_eq!(id_error_from_classes(true, true, false, false), Some(IdError::Whitespace));
    assert_eq!(id_error_from_classes(false, true, false, false), Some(IdError::Empty));
    assert_eq!(id_error_from_classes(false, false, false, false), Some(IdError::NotAlphanumeric));
    assert_eq!(id_error_from_classes(false, false, true, false), Some(IdError::FirstNotAlphabetic));
    assert_eq!(id_error_from_classes(false, false, true, true), None);
}

#[test]
fn error_messages() {
    assert_eq!(IdError::Whitespace.message(), "Error: ID cannot contain whitespace characters");
    assert_eq!(IdError::Empty.message(), "Error: ID cannot be empty");
    assert_eq!(IdError::NotAlphanumeric.message(), "Error: ID must be alphanumeric");
    assert_eq!(IdError::FirstNotAlphabetic.message(), "Error: First letter must be alphabetic");
}

#[test]
fn constants_are_bound_first() {
    let t = NameTable::with_constants();
    assert_eq!(t.len(), 9);
    for name in ["m", "mm", "yd", "ft", "inch", "rad", "pi", "e", "deg"] {
        assert!(t.contains(&name.to_string()));
    }
    assert!(!t.contains(&"in".to_string()));
    assert_eq!(t.name_error(&"pi".to_string()), Some(NameError::AlreadyUsed));
    assert_eq!(t.name_error(&"2x".to_string()), Some(NameError::Invalid(IdError::FirstNotAlphabetic)));
    assert_eq!(t.name_error(&"radius".to_string()), None);
}

#[test]
fn inputs_bound_in_order_skipping_duplicates_and_bad_ids() {
    let mut t = NameTable::with_constants();
    let ids: Vec<String> = ["input1", "mm", "diameter", "input1", "bad id", "", "height_ratio"]
        .iter()
        .map(|s| s.to_string())
        .collect();
    let bound = t.bind_inputs(&ids);
    assert_eq!(bound, vec![true, false, true, false, false, false, true]);
    assert_eq!(t.len(), 12);
    assert!(t.contains(&"height_ratio".to_string()));
    assert!(!t.admits(&"diameter".to_string()));
    assert!(t.admits(&"param1".to_string()));
    t.bind(&"param1".to_string());
    assert!(t.contains(&"param1".to_string()));
    assert_eq!(t.len(), 13);
}

#[test]
fn rebuilding_names_twice_gives_the_same_table() {
    let ids: Vec<String> = ["a", "b", "a", "c d"].iter().map(|s| s.to_string()).collect();
    let mut first = NameTable::with_constants();
    let r1 = first.bind_inputs(&ids);
    let mut second = NameTable::with_constants();
    let r2 = second.bind_inputs(&ids);
    assert_eq!(r1, r2);
    assert_eq!(first.len(), second.len());
}

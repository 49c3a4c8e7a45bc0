use wynn_tools::config_form::{
    accepts_number_input, number_field_edit, optional_number_field_edit, parsed_or,
};

#[test]
fn number_input_accepts_digits_and_minus() {
    assert!(accepts_number_input("106"));
    assert!(accepts_number_input("-5"));
    assert!(accepts_number_input(""));
    assert!(accepts_number_input("1-2"));
}

#[test]
fn number_input_rejects_other_characters() {
    assert!(!accepts_number_input("1.5"));
    assert!(!accepts_number_input("abc"));
    assert!(!accepts_number_input(" 1"));
    assert!(!accepts_number_input("١٢"));
}

#[test]
fn required_field_edit_parses_or_falls_back() {
    assert_eq!(number_field_edit("106", 1), Some(106));
    assert_eq!(number_field_edit("-12", 1), Some(-12));
    assert_eq!(number_field_edit("", 200), Some(200));
    assert_eq!(number_field_edit("1-2", 500), Some(500));
    assert_eq!(number_field_edit("99999999999999999999", 1), Some(1));
    assert_eq!(number_field_edit("12a", 1), None);
}

#[test]
fn optional_field_edit_clears_sets_or_refuses() {
    assert_eq!(optional_number_field_edit(""), Some(None));
    assert_eq!(optional_number_field_edit("250"), Some(Some(250)));
    assert_eq!(optional_number_field_edit("-"), Some(Some(0)));
    assert_eq!(optional_number_field_edit("x"), None);
}

#[test]
fn parsed_or_reads_integers() {
    assert_eq!(parsed_or("7", 3), 7);
    assert_eq!(parsed_or("+7", 3), 7);
    assert_eq!(parsed_or("seven", 3), 3);
    assert_eq!(parsed_or("", 3), 3);
}

use user_crud::validation::{validate_name, Validation, NAME_MIN_LENGTH};

#[test]
fn minimum_length_is_one() {
    assert_eq!(NAME_MIN_LENGTH, 1);
}

#[test]
fn empty_name_is_rejected_with_the_given_reason() {
    let verdict = validate_name(&String::new(), "name required");
    assert_eq!(verdict, Validation::Rejected("name required".to_string()));
}

#[test]
fn reason_is_carried_unchanged() {
    let verdict = validate_name(&String::new(), "user name is required");
    assert_eq!(verdict, Validation::Rejected("user name is required".to_string()));
    let verdict = validate_name(&String::new(), "");
    assert_eq!(verdict, Validation::Rejected(String::new()));
}

#[test]
fn one_character_is_enough() {
    assert_eq!(validate_name(&"a".to_string(), "name required"), Validation::Accepted);
}

#[test]
fn longer_names_are_accepted() {
    assert_eq!(validate_name(&"Ada".to_string(), "name required"), Validation::Accepted);
    let long: String = "x".repeat(10_000);
    assert_eq!(validate_name(&long, "name required"), Validation::Accepted);
}

#[test]
fn length_counts_characters_not_content() {
    assert_eq!(validate_name(&" ".to_string(), "name required"), Validation::Accepted);
    assert_eq!(validate_name(&"\u{e9}".to_string(), "name required"), Validation::Accepted);
    assert_eq!(validate_name(&"\u{1f600}".to_string(), "name required"), Validation::Accepted);
}

#[test]
fn verdict_does_not_depend_on_the_reason() {
    assert_eq!(validate_name(&"Ada".to_string(), ""), Validation::Accepted);
    assert_eq!(validate_name(&"Ada".to_string(), "Ada"), Validation::Accepted);
}

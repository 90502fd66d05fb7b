use user_crud::generated_keyed;
use user_crud::integer_keyed;
use user_crud::response::{Config, Signaling};
use user_crud::statement::Statement;
use user_crud::step::Step;
use user_crud::value::Value;

fn texts(count: usize) -> Vec<Value> {
    (0..count).map(|n| Value::Text(n.to_string())).collect()
}

fn well_formed(text: &'static str, count: usize) -> bool {
    Statement { text, params: texts(count) }.is_well_formed()
}

#[test]
fn text_without_placeholders_binds_nothing() {
    assert!(well_formed("SELECT 1", 0));
    assert!(well_formed("", 0));
    assert!(!well_formed("SELECT 1", 1));
}

#[test]
fn placeholders_must_match_the_bound_values() {
    assert!(well_formed("SELECT $1", 1));
    assert!(!well_formed("SELECT $1", 0));
    assert!(!well_formed("SELECT $1", 2));
    assert!(well_formed("SELECT $1, $2, $3", 3));
    assert!(!well_formed("SELECT $1, $2, $3", 2));
    assert!(!well_formed("SELECT $1, $2, $3", 4));
}

#[test]
fn placeholders_must_rise_from_one() {
    assert!(!well_formed("SELECT $2", 1));
    assert!(!well_formed("SELECT $0", 1));
    assert!(!well_formed("SELECT $2, $1", 2));
    assert!(!well_formed("SELECT $1, $3", 2));
}

#[test]
fn a_placeholder_may_not_occur_twice() {
    assert!(!well_formed("SELECT $1, $1", 1));
    assert!(!well_formed("SELECT $1, $1", 2));
    assert!(!well_formed("SELECT $1, $2, $2", 2));
}

#[test]
fn a_dollar_sign_needs_a_single_digit() {
    assert!(!well_formed("SELECT $", 0));
    assert!(!well_formed("SELECT $", 1));
    assert!(!well_formed("SELECT $x", 1));
    assert!(!well_formed("SELECT $$1", 1));
    assert!(!well_formed("SELECT $10", 1));
    assert!(!well_formed("SELECT $1, $2, $3, $4, $5, $6, $7, $8, $9, $10", 10));
    assert!(well_formed("SELECT $1, $2, $3, $4, $5, $6, $7, $8, $9", 9));
}

#[test]
fn a_placeholder_may_end_the_text_or_be_cast() {
    assert!(well_formed("WHERE id = $1", 1));
    assert!(well_formed("WHERE uuid = $1::uuid", 1));
    assert!(well_formed("$1", 1));
    assert!(well_formed("($1,$2)", 2));
}

#[test]
fn text_beyond_ascii_is_read_by_character() {
    assert!(well_formed("SELECT '\u{e9}\u{1f600}', $1 -- \u{663}", 1));
    assert!(!well_formed("SELECT $\u{661}", 1));
}

#[test]
fn bound_values_of_any_kind_count() {
    let statement = Statement {
        text: "INSERT INTO t VALUES ($1, $2, $3)",
        params: vec![Value::Null, Value::Integer(3), Value::Text(String::new())],
    };
    assert!(statement.is_well_formed());
}

#[test]
fn every_statement_of_the_integer_scheme_is_well_formed() {
    let config = Config::new(Signaling::Compatible, "name required");
    let body = integer_keyed::User { firstname: "$1".to_string(), lastname: "$9".to_string() };
    assert!(integer_keyed::get_users().is_well_formed());
    assert!(integer_keyed::get_user(1).is_well_formed());
    assert!(integer_keyed::delete_user(1).is_well_formed());
    match integer_keyed::add_user(&config, &body) {
        Step::Execute(statement) => assert!(statement.is_well_formed()),
        Step::Reply(_) => panic!("an accepted body must be sent to the store"),
    }
    match integer_keyed::update_user(&config, 1, &body) {
        Step::Execute(statement) => assert!(statement.is_well_formed()),
        Step::Reply(_) => panic!("an accepted body must be sent to the store"),
    }
}

#[test]
fn every_statement_of_the_generated_scheme_is_well_formed() {
    let config = Config::new(Signaling::Corrected, "name required");
    let body = generated_keyed::User {
        name: "$1".to_string(),
        email: "$2".to_string(),
        password1: "$3".to_string(),
        password2: "$4".to_string(),
    };
    assert!(generated_keyed::get_users().is_well_formed());
    assert!(generated_keyed::get_user("$5").is_well_formed());
    assert!(generated_keyed::delete_user("$1").is_well_formed());
    match generated_keyed::add_user(&config, &body) {
        Step::Execute(statement) => assert!(statement.is_well_formed()),
        Step::Reply(_) => panic!("an accepted body must be sent to the store"),
    }
    match generated_keyed::update_user(&config, "$5", &body) {
        Step::Execute(statement) => assert!(statement.is_well_formed()),
        Step::Reply(_) => panic!("an accepted body must be sent to the store"),
    }
}

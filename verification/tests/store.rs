use user_crud::store::{fetch_all, fetch_one, Fetched, StoreFailure, DEFAULT_POOL_SIZE};
use user_crud::value::{as_integer, as_text, text_value, Row, Value};

fn row(first: &str, last: &str) -> Row {
    vec![Value::Text(first.to_string()), Value::Text(last.to_string())]
}

#[test]
fn default_pool_size_is_five() {
    assert_eq!(DEFAULT_POOL_SIZE, 5);
}

#[test]
fn fetch_all_hands_every_row_on() {
    let rows = vec![row("Ada", "Lovelace"), row("Grace", "Hopper")];
    assert_eq!(fetch_all(Fetched::Rows(rows.clone())), Ok(rows));
}

#[test]
fn fetch_all_of_nothing_is_empty() {
    assert_eq!(fetch_all(Fetched::Rows(Vec::new())), Ok(Vec::new()));
}

#[test]
fn fetch_all_of_a_failure_is_a_store_error() {
    assert_eq!(fetch_all(Fetched::Failed), Err(StoreFailure::TransientStoreError));
}

#[test]
fn fetch_one_of_one_row_is_that_row() {
    assert_eq!(fetch_one(Fetched::Rows(vec![row("Ada", "Lovelace")])), Ok(row("Ada", "Lovelace")));
}

#[test]
fn fetch_one_of_nothing_is_no_such_resource() {
    assert_eq!(fetch_one(Fetched::Rows(Vec::new())), Err(StoreFailure::NoSuchResource));
}

#[test]
fn fetch_one_of_several_rows_is_a_store_error() {
    let rows = vec![row("Ada", "Lovelace"), row("Grace", "Hopper")];
    assert_eq!(fetch_one(Fetched::Rows(rows)), Err(StoreFailure::TransientStoreError));
}

#[test]
fn fetch_one_of_a_failure_is_a_store_error() {
    assert_eq!(fetch_one(Fetched::Failed), Err(StoreFailure::TransientStoreError));
}

#[test]
fn text_value_wraps_the_string() {
    assert_eq!(text_value(&"Ada".to_string()), Value::Text("Ada".to_string()));
}

#[test]
fn as_text_reads_only_text_cells() {
    assert_eq!(as_text(&Value::Text("Ada".to_string())), Some("Ada".to_string()));
    assert_eq!(as_text(&Value::Text(String::new())), Some(String::new()));
    assert_eq!(as_text(&Value::Integer(1)), None);
    assert_eq!(as_text(&Value::Null), None);
}

#[test]
fn as_integer_reads_only_integer_cells() {
    assert_eq!(as_integer(&Value::Integer(-3)), Some(-3));
    assert_eq!(as_integer(&Value::Integer(i32::MAX)), Some(i32::MAX));
    assert_eq!(as_integer(&Value::Text("3".to_string())), None);
    assert_eq!(as_integer(&Value::Null), None);
}

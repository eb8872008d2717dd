use equipfun::row::{ResultRow, Value};

#[test]
fn new_row_is_empty() {
    let row = ResultRow::new();
    assert_eq!(row.len(), 0);
    assert_eq!(row.get("t.id"), None);
}

#[test]
fn get_finds_a_cell_by_its_exact_label() {
    let mut row = ResultRow::new();
    row.push("t.id", Value::Text("abc".to_string()));
    row.push("t.count", Value::Integer(-3));
    row.push("t.done", Value::Boolean(true));
    row.push("t.note", Value::Null);
    assert_eq!(row.len(), 4);
    assert_eq!(row.get("t.id"), Some(&Value::Text("abc".to_string())));
    assert_eq!(row.get("t.count"), Some(&Value::Integer(-3)));
    assert_eq!(row.get("t.done"), Some(&Value::Boolean(true)));
    assert_eq!(row.get("t.note"), Some(&Value::Null));
    assert_eq!(row.get("id"), None);
    assert_eq!(row.get("t.ID"), None);
    assert_eq!(row.get("t.id "), None);
}

#[test]
fn get_takes_the_first_of_two_cells_with_one_label() {
    let mut row = ResultRow::new();
    row.push("n.name", Value::Integer(1));
    row.push("n.name", Value::Text("later".to_string()));
    assert_eq!(row.get("n.name"), Some(&Value::Integer(1)));
    assert_eq!(row.get_integer("n.name"), Some(1));
    assert_eq!(row.get_text("n.name"), None);
}

#[test]
fn typed_getters_refuse_other_types() {
    let mut row = ResultRow::new();
    row.push("a", Value::Text("x".to_string()));
    row.push("b", Value::Integer(i64::MIN));
    row.push("c", Value::Boolean(false));
    row.push("d", Value::Null);
    assert_eq!(row.get_text("a"), Some("x".to_string()));
    assert_eq!(row.get_integer("a"), None);
    assert_eq!(row.get_boolean("a"), None);
    assert_eq!(row.get_integer("b"), Some(i64::MIN));
    assert_eq!(row.get_text("b"), None);
    assert_eq!(row.get_boolean("c"), Some(false));
    assert_eq!(row.get_integer("c"), None);
    assert_eq!(row.get_text("d"), None);
    assert_eq!(row.get_integer("d"), None);
    assert_eq!(row.get_boolean("d"), None);
    assert_eq!(row.get_text("e"), None);
}

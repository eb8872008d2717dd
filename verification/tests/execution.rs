use equipfun::models::Todo;
use equipfun::neo::{call, call_one, execute, single, Cardinality, DriverError, ExecError, Fetched};
use equipfun::row::{ResultRow, Value};
use equipfun::schema::{MutationRoot, QueryRoot};

fn todo_row(id: &str, title: &str, completed: bool) -> ResultRow {
    let mut row = ResultRow::new();
    row.push("t.id", Value::Text(id.to_string()));
    row.push("t.title", Value::Text(title.to_string()));
    row.push("t.completed", Value::Boolean(completed));
    row
}

fn todo(id: &str, title: &str, completed: bool) -> Todo {
    Todo { id: id.to_string(), title: title.to_string(), completed }
}

fn connectivity_failure() -> DriverError {
    DriverError { message: "connection refused".to_string() }
}

fn never_called(_row: &ResultRow) -> Option<Todo> {
    panic!("the mapper must not run")
}

fn title_length(row: &ResultRow) -> Option<usize> {
    row.get_text("t.title").map(|title| title.len())
}

#[test]
fn many_on_empty_store_is_empty() {
    assert_eq!(QueryRoot::todo_items_statement(), "MATCH (t:Todo) RETURN t.id, t.title, t.completed");
    let found = QueryRoot::todo_items(Ok(Vec::new()));
    assert_eq!(found, Ok(Vec::new()));
}

#[test]
fn many_on_one_node_returns_it() {
    let rows = vec![todo_row("abc", "buy milk", false)];
    let found = QueryRoot::todo_items(Ok(rows));
    assert_eq!(found, Ok(vec![todo("abc", "buy milk", false)]));
}

#[test]
fn one_on_created_row_returns_it() {
    let rows = vec![todo_row("xyz", "t", true)];
    let created = MutationRoot::add_todo(Ok(rows));
    assert_eq!(created, Ok(todo("xyz", "t", true)));
}

#[test]
fn driver_failure_is_query_failed_without_mapping() {
    let many: Result<Vec<Todo>, ExecError> = call(Err(connectivity_failure()), never_called);
    assert_eq!(many, Err(ExecError::QueryFailed(connectivity_failure())));
    let one: Result<Todo, ExecError> = call_one(Err(connectivity_failure()), never_called);
    assert_eq!(one, Err(ExecError::QueryFailed(connectivity_failure())));
    assert_eq!(
        QueryRoot::todo_items(Err(connectivity_failure())),
        Err(ExecError::QueryFailed(connectivity_failure()))
    );
    assert_eq!(
        MutationRoot::add_todo(Err(connectivity_failure())),
        Err(ExecError::QueryFailed(connectivity_failure()))
    );
}

#[test]
fn many_with_no_rows_never_calls_the_mapper() {
    let many: Result<Vec<Todo>, ExecError> = call(Ok(Vec::new()), never_called);
    assert_eq!(many, Ok(Vec::new()));
}

#[test]
fn one_with_no_rows_is_not_found() {
    let one: Result<Todo, ExecError> = call_one(Ok(Vec::new()), never_called);
    assert_eq!(one, Err(ExecError::NotFound));
    assert_eq!(MutationRoot::add_todo(Ok(Vec::new())), Err(ExecError::NotFound));
}

#[test]
fn many_keeps_row_order_and_count() {
    let rows = vec![
        todo_row("c", "third letter", true),
        todo_row("a", "first letter", false),
        todo_row("b", "second letter", true),
    ];
    let found = call(Ok(rows), Todo::mapper);
    assert_eq!(
        found,
        Ok(vec![
            todo("c", "third letter", true),
            todo("a", "first letter", false),
            todo("b", "second letter", true),
        ])
    );
}

#[test]
fn one_takes_the_last_of_several_rows() {
    let rows = vec![todo_row("a", "first", false), todo_row("b", "second", true)];
    assert_eq!(call_one(Ok(rows), Todo::mapper), Ok(todo("b", "second", true)));
    let rows = vec![
        todo_row("a", "first", false),
        todo_row("b", "second", true),
        todo_row("c", "third", false),
    ];
    assert_eq!(call_one(Ok(rows), Todo::mapper), Ok(todo("c", "third", false)));
}

#[test]
fn many_twice_on_the_same_rows_is_equal() {
    let rows = vec![todo_row("a", "first", false), todo_row("b", "second", true)];
    let first = call(Ok(rows.clone()), Todo::mapper);
    let second = call(Ok(rows), Todo::mapper);
    assert_eq!(first, second);
    assert_eq!(first.map(|found| found.len()), Ok(2));
}

#[test]
fn row_without_a_column_is_mapping_failed() {
    let mut short = ResultRow::new();
    short.push("t.id", Value::Text("b".to_string()));
    short.push("t.completed", Value::Boolean(true));
    let rows = vec![todo_row("a", "first", false), short, todo_row("c", "third", false)];
    assert_eq!(call(Ok(rows.clone()), Todo::mapper), Err(ExecError::MappingFailed));
    assert_eq!(call_one(Ok(rows.clone()), Todo::mapper), Err(ExecError::MappingFailed));
    assert_eq!(QueryRoot::todo_items(Ok(rows.clone())), Err(ExecError::MappingFailed));
    assert_eq!(MutationRoot::add_todo(Ok(rows)), Err(ExecError::MappingFailed));
}

#[test]
fn row_with_a_value_of_another_type_is_mapping_failed() {
    let mut odd = ResultRow::new();
    odd.push("t.id", Value::Integer(1256));
    odd.push("t.title", Value::Text("t".to_string()));
    odd.push("t.completed", Value::Boolean(true));
    assert_eq!(call(Ok(vec![odd.clone()]), Todo::mapper), Err(ExecError::MappingFailed));
    assert_eq!(call_one(Ok(vec![odd]), Todo::mapper), Err(ExecError::MappingFailed));
}

#[test]
fn one_fails_on_an_earlier_row_that_does_not_map() {
    let rows = vec![ResultRow::new(), todo_row("b", "second", true)];
    assert_eq!(call_one(Ok(rows), Todo::mapper), Err(ExecError::MappingFailed));
}

#[test]
fn mapper_may_be_any_function_of_the_row() {
    let rows = vec![todo_row("a", "four", false), todo_row("b", "sixsix", true)];
    assert_eq!(call(Ok(rows.clone()), title_length), Ok(vec![4, 6]));
    assert_eq!(call_one(Ok(rows.clone()), title_length), Ok(6));
    let ids = call(Ok(rows), |row: &ResultRow| row.get_text("t.id"));
    assert_eq!(ids, Ok(vec!["a".to_string(), "b".to_string()]));
}

#[test]
fn single_keeps_the_last_or_reports_not_found() {
    assert_eq!(single(Ok(vec![1, 2, 3])), Ok(3));
    assert_eq!(single(Ok(vec![7])), Ok(7));
    assert_eq!(single(Ok(Vec::<i32>::new())), Err(ExecError::NotFound));
    assert_eq!(single::<i32>(Err(ExecError::MappingFailed)), Err(ExecError::MappingFailed));
    assert_eq!(
        single::<i32>(Err(ExecError::QueryFailed(connectivity_failure()))),
        Err(ExecError::QueryFailed(connectivity_failure()))
    );
}

#[test]
fn execute_follows_the_cardinality() {
    let rows = vec![todo_row("a", "first", false), todo_row("b", "second", true)];
    assert_eq!(
        execute(Ok(rows.clone()), Todo::mapper, Cardinality::Many),
        Ok(Fetched::Many(vec![todo("a", "first", false), todo("b", "second", true)]))
    );
    assert_eq!(
        execute(Ok(rows), Todo::mapper, Cardinality::One),
        Ok(Fetched::One(todo("b", "second", true)))
    );
    assert_eq!(execute(Ok(Vec::new()), Todo::mapper, Cardinality::Many), Ok(Fetched::Many(Vec::new())));
    assert_eq!(execute(Ok(Vec::new()), Todo::mapper, Cardinality::One), Err(ExecError::NotFound));
    assert_eq!(
        execute(Err(connectivity_failure()), Todo::mapper, Cardinality::One),
        Err(ExecError::QueryFailed(connectivity_failure()))
    );
    assert_eq!(
        execute(Err(connectivity_failure()), Todo::mapper, Cardinality::Many),
        Err(ExecError::QueryFailed(connectivity_failure()))
    );
}

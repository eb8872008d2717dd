//! The resolvers of the query and mutation roots.
//!
//! A resolver takes what the driver returned for its statement and applies
//! the mapper and the cardinality of its field.

use vstd::prelude::*;
use crate::models::{manufacturer_of, todo_of, Manufacturer, ManufacturerView, Todo, TodoView};
use crate::neo::{
    call, call_one, fetch_many, fetch_one, items, lemma_many_of_function,
    lemma_one_of_function, many_view, one_view, outcome_view, DriverError, ExecError,
};
use crate::row::{CellView, ResultRow};

verus! {

/// The root of the read fields over manufacturers.
#[derive(Clone, Copy, Debug, PartialEq, Eq)]
pub struct Query;

/// The root of the write fields over manufacturers.
#[derive(Clone, Copy, Debug, PartialEq, Eq)]
pub struct Mutation;

/// The root of the read fields over todo items.
#[derive(Clone, Copy, Debug, PartialEq, Eq)]
pub struct QueryRoot;

/// The root of the write fields over todo items.
#[derive(Clone, Copy, Debug, PartialEq, Eq)]
pub struct MutationRoot;

/// The manufacturers of an outcome, one per row and in row order.
pub open spec fn manufacturers_in(outcome: Result<Vec<ResultRow>, DriverError>) -> Result<
    Seq<ManufacturerView>,
    ExecError,
> {
    fetch_many(outcome_view(items(outcome)), |cells: Seq<CellView>| manufacturer_of(cells))
}

/// The manufacturer of the last row of an outcome.
pub open spec fn manufacturer_in(outcome: Result<Vec<ResultRow>, DriverError>) -> Result<
    ManufacturerView,
    ExecError,
> {
    fetch_one(outcome_view(items(outcome)), |cells: Seq<CellView>| manufacturer_of(cells))
}

/// The todo items of an outcome, one per row and in row order.
pub open spec fn todos_in(outcome: Result<Vec<ResultRow>, DriverError>) -> Result<
    Seq<TodoView>,
    ExecError,
> {
    fetch_many(outcome_view(items(outcome)), |cells: Seq<CellView>| todo_of(cells))
}

/// The todo item of the last row of an outcome.
pub open spec fn todo_in(outcome: Result<Vec<ResultRow>, DriverError>) -> Result<
    TodoView,
    ExecError,
> {
    fetch_one(outcome_view(items(outcome)), |cells: Seq<CellView>| todo_of(cells))
}

/// Resolves a field that yields one manufacturer.
fn one_manufacturer(outcome: Result<Vec<ResultRow>, DriverError>) -> (r: Result<
    Manufacturer,
    ExecError,
>)
    ensures
        one_view(r) == manufacturer_in(outcome),
{
    let mapper = Manufacturer::mapper;
    let ghost given = items(outcome);
    let r = call_one(outcome, mapper);
    proof {
        lemma_one_of_function(given, mapper, |cells: Seq<CellView>| manufacturer_of(cells), r);
    }
    r
}

impl Query {
    /// The manufacturer that the single-manufacturer statement returned.
    pub fn manufacturer(outcome: Result<Vec<ResultRow>, DriverError>) -> (r: Result<
        Manufacturer,
        ExecError,
    >)
        ensures
            one_view(r) == manufacturer_in(outcome),
    {
        one_manufacturer(outcome)
    }

    /// The manufacturers that the all-manufacturers statement returned.
    pub fn manufacturers(outcome: Result<Vec<ResultRow>, DriverError>) -> (r: Result<
        Vec<Manufacturer>,
        ExecError,
    >)
        ensures
            many_view(items(r)) == manufacturers_in(outcome),
    {
        let mapper = Manufacturer::mapper;
        let ghost given = items(outcome);
        let r = call(outcome, mapper);
        proof {
            lemma_many_of_function(
                given,
                mapper,
                |cells: Seq<CellView>| manufacturer_of(cells),
                items(r),
            );
        }
        r
    }
}

impl Mutation {
    /// The manufacturer that a create statement returned.
    pub fn manufacturer_create(outcome: Result<Vec<ResultRow>, DriverError>) -> (r: Result<
        Manufacturer,
        ExecError,
    >)
        ensures
            one_view(r) == manufacturer_in(outcome),
    {
        one_manufacturer(outcome)
    }

    /// The manufacturer that an update statement returned.
    pub fn manufacturer_update(outcome: Result<Vec<ResultRow>, DriverError>) -> (r: Result<
        Manufacturer,
        ExecError,
    >)
        ensures
            one_view(r) == manufacturer_in(outcome),
    {
        one_manufacturer(outcome)
    }
}

impl QueryRoot {
    /// The statement that reads every todo item.
    pub fn todo_items_statement() -> (statement: &'static str)
        ensures
            statement@ == "MATCH (t:Todo) RETURN t.id, t.title, t.completed"@,
    {
        "MATCH (t:Todo) RETURN t.id, t.title, t.completed"
    }

    /// The todo items that the read statement returned.
    pub fn todo_items(outcome: Result<Vec<ResultRow>, DriverError>) -> (r: Result<
        Vec<Todo>,
        ExecError,
    >)
        ensures
            many_view(items(r)) == todos_in(outcome),
    {
        let mapper = Todo::mapper;
        let ghost given = items(outcome);
        let r = call(outcome, mapper);
        proof {
            lemma_many_of_function(given, mapper, |cells: Seq<CellView>| todo_of(cells), items(r));
        }
        r
    }
}

impl MutationRoot {
    /// The todo item that the create statement returned.
    pub fn add_todo(outcome: Result<Vec<ResultRow>, DriverError>) -> (r: Result<Todo, ExecError>)
        ensures
            one_view(r) == todo_in(outcome),
    {
        let mapper = Todo::mapper;
        let ghost given = items(outcome);
        let r = call_one(outcome, mapper);
        proof {
            lemma_one_of_function(given, mapper, |cells: Seq<CellView>| todo_of(cells), r);
        }
        r
    }
}

} // verus!

//! Domain entities, their mappers and their statements.

use vstd::prelude::*;
use vstd::string::StringExecFns;
use crate::ident::{hyphenated, parse_uuid, uuid_parsed, uuid_text};
use crate::neo::option_view;
use crate::row::{boolean_at, text_at, CellView, ResultRow};

verus! {

/// The state a barcoded piece is in.
#[derive(Clone, Copy, Debug, PartialEq, Eq)]
pub enum Status {
    CheckedIn,
    CheckedOut,
    Broken,
    Dirty,
    Missing,
    Retired,
}

/// The role of a person in the system.
#[derive(Clone, Copy, Debug, PartialEq, Eq)]
pub enum Role {
    Admin,
    LabWorker,
    Instructor,
    Student,
}

/// The season of a semester.
#[derive(Clone, Copy, Debug, PartialEq, Eq)]
pub enum Season {
    FA,
    SP,
    SUM,
}

/// A manufacturer of equipment.
#[derive(Clone, Debug, PartialEq, Eq)]
pub struct Manufacturer {
    /// The unique id of the manufacturer
    pub id: u128,
    /// The name of the manufacturer
    pub name: String,
}

/// The content of a [`Manufacturer`].
pub struct ManufacturerView {
    pub id: u128,
    pub name: Seq<char>,
}

impl View for Manufacturer {
    type V = ManufacturerView;

    open spec fn view(&self) -> ManufacturerView {
        ManufacturerView { id: self.id, name: self.name@ }
    }
}

/// The manufacturer that is made of a parsed identifier and a name, where
/// both are there.
pub open spec fn manufacturer_from(id: Option<u128>, name: Option<Seq<char>>) -> Option<
    ManufacturerView,
> {
    match (id, name) {
        (Some(id), Some(name)) => Some(ManufacturerView { id, name }),
        _ => None,
    }
}

/// The manufacturer that a row stands for: its `n.id` text read as an
/// identifier and its `n.name` text. `None` where either cell is missing or
/// not text, or the identifier does not parse.
pub open spec fn manufacturer_of(cells: Seq<CellView>) -> Option<ManufacturerView> {
    match text_at(cells, "n.id"@) {
        Some(id_text) => manufacturer_from(uuid_parsed(id_text), text_at(cells, "n.name"@)),
        None => None,
    }
}

/// The statement that reads the manufacturer with identifier `id`.
pub open spec fn manufacturer_query(id: u128) -> Seq<char> {
    "MATCH (n:Manufacturer) WHERE n.id=\""@ + hyphenated(id) + "\" RETURN n.id, n.name"@
}

impl Manufacturer {
    /// Builds a manufacturer from an identifier that was parsed and a name
    /// that was looked up.
    pub fn from_parts(id: Option<u128>, name: Option<String>) -> (r: Option<Manufacturer>)
        ensures
            option_view(r) == manufacturer_from(id, option_view(name)),
    {
        match (id, name) {
            (Some(id), Some(name)) => Some(Manufacturer { id, name }),
            _ => None,
        }
    }

    /// Maps a row with the columns `n.id` and `n.name` to a manufacturer.
    pub fn mapper(row: &ResultRow) -> (r: Option<Manufacturer>)
        ensures
            option_view(r) == manufacturer_of(row@),
    {
        match row.get_text("n.id") {
            Some(id_text) => {
                let id = parse_uuid(id_text.as_str());
                Manufacturer::from_parts(id, row.get_text("n.name"))
            },
            None => None,
        }
    }

    /// The statement that reads one manufacturer by its identifier.
    pub fn cypher_query_single(id: u128) -> (statement: String)
        ensures
            statement@ == manufacturer_query(id),
    {
        let head = String::from_str("MATCH (n:Manufacturer) WHERE n.id=\"");
        let text = uuid_text(id);
        head.concat(text.as_str()).concat("\" RETURN n.id, n.name")
    }
}

/// A todo item that can be marked as completed.
#[derive(Clone, Debug, PartialEq, Eq)]
pub struct Todo {
    /// The unique id of the todo item
    pub id: String,
    /// The user-editable title
    pub title: String,
    /// Whether the user has completed the item
    pub completed: bool,
}

/// The content of a [`Todo`].
pub struct TodoView {
    pub id: Seq<char>,
    pub title: Seq<char>,
    pub completed: bool,
}

impl View for Todo {
    type V = TodoView;

    open spec fn view(&self) -> TodoView {
        TodoView { id: self.id@, title: self.title@, completed: self.completed }
    }
}

/// The todo item that a row stands for: its `t.id` and `t.title` texts and
/// its `t.completed` boolean. `None` where one of the three cells is missing
/// or holds a value of another type.
pub open spec fn todo_of(cells: Seq<CellView>) -> Option<TodoView> {
    match (text_at(cells, "t.id"@), text_at(cells, "t.title"@), boolean_at(cells, "t.completed"@)) {
        (Some(id), Some(title), Some(completed)) => Some(TodoView { id, title, completed }),
        _ => None,
    }
}

impl Todo {
    /// Maps a row with the columns `t.id`, `t.title` and `t.completed` to a
    /// todo item.
    pub fn mapper(row: &ResultRow) -> (r: Option<Todo>)
        ensures
            option_view(r) == todo_of(row@),
    {
        match (row.get_text("t.id"), row.get_text("t.title"), row.get_boolean("t.completed")) {
            (Some(id), Some(title), Some(completed)) => Some(Todo { id, title, completed }),
            _ => None,
        }
    }
}

} // verus!

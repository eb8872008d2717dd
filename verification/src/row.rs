//! Result rows: ordered cells, each a column label with a primitive value.

use vstd::prelude::*;
use vstd::string::StringExecFns;

verus! {

/// A primitive value held by one cell of a row.
#[derive(Clone, Debug, PartialEq, Eq)]
pub enum Value {
    Null,
    Text(String),
    Integer(i64),
    Boolean(bool),
}

/// The mathematical content of a [`Value`].
pub enum ValueView {
    Null,
    Text(Seq<char>),
    Integer(i64),
    Boolean(bool),
}

impl View for Value {
    type V = ValueView;

    open spec fn view(&self) -> ValueView {
        match *self {
            Value::Null => ValueView::Null,
            Value::Text(s) => ValueView::Text(s@),
            Value::Integer(n) => ValueView::Integer(n),
            Value::Boolean(b) => ValueView::Boolean(b),
        }
    }
}

/// A cell as a pair of label and value.
pub type CellView = (Seq<char>, ValueView);

/// The value of the first cell of `cells` labelled `label`, if there is one.
pub open spec fn lookup(cells: Seq<CellView>, label: Seq<char>) -> Option<ValueView>
    decreases cells.len(),
{
    if cells.len() == 0 {
        None
    } else if cells[0].0 == label {
        Some(cells[0].1)
    } else {
        lookup(cells.drop_first(), label)
    }
}

/// The text under `label`: present only where the first such cell holds text.
pub open spec fn text_at(cells: Seq<CellView>, label: Seq<char>) -> Option<Seq<char>> {
    match lookup(cells, label) {
        Some(ValueView::Text(s)) => Some(s),
        _ => None,
    }
}

/// The integer under `label`: present only where the first such cell holds an integer.
pub open spec fn integer_at(cells: Seq<CellView>, label: Seq<char>) -> Option<i64> {
    match lookup(cells, label) {
        Some(ValueView::Integer(n)) => Some(n),
        _ => None,
    }
}

/// The boolean under `label`: present only where the first such cell holds a boolean.
pub open spec fn boolean_at(cells: Seq<CellView>, label: Seq<char>) -> Option<bool> {
    match lookup(cells, label) {
        Some(ValueView::Boolean(b)) => Some(b),
        _ => None,
    }
}

/// One record of a statement's result, in the column order of the store.
#[derive(Clone, Debug, PartialEq, Eq)]
pub struct ResultRow {
    cells: Vec<(String, Value)>,
}

impl View for ResultRow {
    type V = Seq<CellView>;

    closed spec fn view(&self) -> Seq<CellView> {
        Seq::new(self.cells@.len(), |i: int| (self.cells@[i].0@, self.cells@[i].1@))
    }
}

/// Skipping cells that do not carry the label leaves the lookup unchanged.
proof fn lemma_lookup_skip(cells: Seq<CellView>, label: Seq<char>, n: int)
    requires
        0 <= n <= cells.len(),
        forall|j: int| 0 <= j < n ==> cells[j].0 != label,
    ensures
        lookup(cells, label) == lookup(cells.skip(n), label),
    decreases n,
{
    if n == 0 {
        assert(cells.skip(0) =~= cells);
    } else {
        lemma_lookup_skip(cells.drop_first(), label, n - 1);
        assert(cells.drop_first().skip(n - 1) =~= cells.skip(n));
    }
}

impl ResultRow {
    /// A row without cells.
    pub fn new() -> (row: ResultRow)
        ensures
            row@ == Seq::<CellView>::empty(),
    {
        let row = ResultRow { cells: Vec::new() };
        assert(row@ =~= Seq::<CellView>::empty());
        row
    }

    /// Appends a cell after the cells that the row already holds.
    pub fn push(&mut self, label: &str, value: Value)
        ensures
            final(self)@ == old(self)@.push((label@, value@)),
    {
        let owned = String::from_str(label);
        self.cells.push((owned, value));
        assert(self@ =~= old(self)@.push((label@, value@)));
    }

    /// The number of cells.
    pub fn len(&self) -> (n: usize)
        ensures
            n == self@.len(),
    {
        self.cells.len()
    }

    /// The value of the first cell labelled `column`.
    pub fn get(&self, column: &str) -> (found: Option<&Value>)
        ensures
            match found {
                Some(v) => lookup(self@, column@) == Some(v@),
                None => lookup(self@, column@).is_none(),
            },
    {
        let key = String::from_str(column);
        let mut i: usize = 0;
        while i < self.cells.len()
            invariant
                i <= self.cells.len(),
                key@ == column@,
                forall|j: int| 0 <= j < i ==> self@[j].0 != column@,
            decreases self.cells.len() - i,
        {
            if self.cells[i].0 == key {
                proof {
                    lemma_lookup_skip(self@, column@, i as int);
                    assert(self@.skip(i as int)[0] == self@[i as int]);
                }
                return Some(&self.cells[i].1);
            }
            i += 1;
        }
        proof {
            lemma_lookup_skip(self@, column@, self@.len() as int);
        }
        None
    }

    /// The text of the first cell labelled `column`; `None` where there is no
    /// such cell or it holds something other than text.
    pub fn get_text(&self, column: &str) -> (found: Option<String>)
        ensures
            match found {
                Some(s) => text_at(self@, column@) == Some(s@),
                None => text_at(self@, column@).is_none(),
            },
    {
        match self.get(column) {
            Some(Value::Text(s)) => Some(s.clone()),
            _ => None,
        }
    }

    /// The integer of the first cell labelled `column`; `None` where there is
    /// no such cell or it holds something other than an integer.
    pub fn get_integer(&self, column: &str) -> (found: Option<i64>)
        ensures
            found == integer_at(self@, column@),
    {
        match self.get(column) {
            Some(Value::Integer(n)) => Some(*n),
            _ => None,
        }
    }

    /// The boolean of the first cell labelled `column`; `None` where there is
    /// no such cell or it holds something other than a boolean.
    pub fn get_boolean(&self, column: &str) -> (found: Option<bool>)
        ensures
            found == boolean_at(self@, column@),
    {
        match self.get(column) {
            Some(Value::Boolean(b)) => Some(*b),
            _ => None,
        }
    }
}

} // verus!

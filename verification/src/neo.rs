//! Running a statement's outcome through a mapper, for many results or one.
//!
//! The caller submits the statement to the store and hands over what the
//! driver returned. Nothing here retries, caches or reorders.

use vstd::prelude::*;
use crate::row::{CellView, ResultRow};

verus! {

/// What the driver reported when it could not run a statement.
#[derive(Clone, Debug, PartialEq, Eq)]
pub struct DriverError {
    pub message: String,
}

/// Why an execution produced no entity.
#[derive(Clone, Debug, PartialEq, Eq)]
pub enum ExecError {
    /// The store rejected the statement or could not be reached.
    QueryFailed(DriverError),
    /// A row did not have what the mapper needs.
    MappingFailed,
    /// A single result was asked for and the store returned no row.
    NotFound,
}

/// How many results an operation expects.
#[derive(Clone, Copy, Debug, PartialEq, Eq)]
pub enum Cardinality {
    One,
    Many,
}

/// What an execution hands back, by the cardinality that was asked for.
#[derive(Clone, Debug, PartialEq, Eq)]
pub enum Fetched<T> {
    One(T),
    Many(Vec<T>),
}

/// A result over a vector, seen as a result over the sequence it holds.
pub open spec fn items<A, E>(r: Result<Vec<A>, E>) -> Result<Seq<A>, E> {
    match r {
        Ok(v) => Ok(v@),
        Err(e) => Err(e),
    }
}

/// `out` is an answer that `mapper` can give on `row`.
pub open spec fn maps<T, F: Fn(&ResultRow) -> Option<T>>(
    mapper: F,
    row: ResultRow,
    out: Option<T>,
) -> bool {
    call_ensures(mapper, (&row,), out)
}

/// `mapper` gives at most one answer on each of `rows`.
pub open spec fn single_valued<T, F: Fn(&ResultRow) -> Option<T>>(
    mapper: F,
    rows: Seq<ResultRow>,
) -> bool {
    forall|i: int, a: Option<T>, b: Option<T>|
        0 <= i < rows.len() && #[trigger] maps(mapper, rows[i], a) && #[trigger] maps(
            mapper,
            rows[i],
            b,
        ) ==> a == b
}

/// `out` holds, row by row and in the same order, an entity that `mapper`
/// gives for that row.
pub open spec fn maps_each<T, F: Fn(&ResultRow) -> Option<T>>(
    mapper: F,
    rows: Seq<ResultRow>,
    out: Seq<T>,
) -> bool {
    out.len() == rows.len() && forall|i: int|
        0 <= i < rows.len() ==> #[trigger] maps(mapper, rows[i], Some(out[i]))
}

/// `mapper` turns down one of `rows`.
pub open spec fn refuses_one<T, F: Fn(&ResultRow) -> Option<T>>(
    mapper: F,
    rows: Seq<ResultRow>,
) -> bool {
    exists|k: int| 0 <= k < rows.len() && #[trigger] maps(mapper, rows[k], None::<T>)
}

/// The many-results policy: a driver failure becomes `QueryFailed`; otherwise
/// every row is mapped, in the order given, and one row that the mapper turns
/// down makes the whole execution `MappingFailed`.
pub open spec fn executed_many<T, F: Fn(&ResultRow) -> Option<T>>(
    outcome: Result<Seq<ResultRow>, DriverError>,
    mapper: F,
    r: Result<Seq<T>, ExecError>,
) -> bool {
    match outcome {
        Err(failure) => r == Err::<Seq<T>, ExecError>(ExecError::QueryFailed(failure)),
        Ok(rows) => match r {
            Ok(out) => maps_each(mapper, rows, out),
            Err(e) => e == ExecError::MappingFailed && refuses_one::<T, F>(mapper, rows),
        },
    }
}

/// The single-result policy on what the many-results policy produced: the
/// last entity, `NotFound` where there is none, and an error unchanged.
pub open spec fn last_of<T>(many: Result<Seq<T>, ExecError>) -> Result<T, ExecError> {
    match many {
        Ok(out) => if out.len() == 0 {
            Err(ExecError::NotFound)
        } else {
            Ok(out.last())
        },
        Err(e) => Err(e),
    }
}

/// The single-result policy: map every row as for many results, then keep the last.
pub open spec fn executed_one<T, F: Fn(&ResultRow) -> Option<T>>(
    outcome: Result<Seq<ResultRow>, DriverError>,
    mapper: F,
    r: Result<T, ExecError>,
) -> bool {
    exists|many: Result<Seq<T>, ExecError>| #[trigger]
        executed_many(outcome, mapper, many) && r == last_of(many)
}

/// Maps every row of a driver outcome, keeping the store's order.
pub fn call<T, F: Fn(&ResultRow) -> Option<T>>(
    outcome: Result<Vec<ResultRow>, DriverError>,
    mapper: F,
) -> (r: Result<Vec<T>, ExecError>)
    requires
        outcome matches Ok(rows) ==> forall|i: int|
            0 <= i < rows@.len() ==> call_requires(mapper, (&rows@[i],)),
    ensures
        executed_many(items(outcome), mapper, items(r)),
{
    match outcome {
        Err(failure) => Err(ExecError::QueryFailed(failure)),
        Ok(rows) => {
            let mut objects: Vec<T> = Vec::new();
            let mut i: usize = 0;
            while i < rows.len()
                invariant
                    items(outcome) == Ok::<Seq<ResultRow>, DriverError>(rows@),
                    i <= rows.len(),
                    objects@.len() == i,
                    forall|j: int| 0 <= j < rows@.len() ==> call_requires(mapper, (&rows@[j],)),
                    forall|j: int| 0 <= j < i ==> #[trigger] maps(mapper, rows@[j], Some(objects@[j])),
                decreases rows.len() - i,
            {
                let mapped = mapper(&rows[i]);
                assert(maps(mapper, rows@[i as int], mapped));
                match mapped {
                    Some(object) => {
                        objects.push(object);
                    },
                    None => {
                        assert(refuses_one::<T, F>(mapper, rows@));
                        return Err(ExecError::MappingFailed);
                    },
                }
                i += 1;
            }
            Ok(objects)
        },
    }
}

/// Keeps the last of the entities that a many-results execution produced.
pub fn single<T>(many: Result<Vec<T>, ExecError>) -> (r: Result<T, ExecError>)
    ensures
        r == last_of(items(many)),
{
    match many {
        Ok(mut objects) => match objects.pop() {
            Some(object) => Ok(object),
            None => Err(ExecError::NotFound),
        },
        Err(e) => Err(e),
    }
}

/// Maps every row of a driver outcome and returns the entity of the last row.
pub fn call_one<T, F: Fn(&ResultRow) -> Option<T>>(
    outcome: Result<Vec<ResultRow>, DriverError>,
    mapper: F,
) -> (r: Result<T, ExecError>)
    requires
        outcome matches Ok(rows) ==> forall|i: int|
            0 <= i < rows@.len() ==> call_requires(mapper, (&rows@[i],)),
    ensures
        executed_one(items(outcome), mapper, r),
{
    let many = call(outcome, mapper);
    let r = single(many);
    assert(executed_many(items(outcome), mapper, items(many)));
    r
}

/// What `execute` returns for a cardinality, over the two policies.
pub open spec fn executed<T, F: Fn(&ResultRow) -> Option<T>>(
    outcome: Result<Seq<ResultRow>, DriverError>,
    mapper: F,
    cardinality: Cardinality,
    r: Result<Fetched<T>, ExecError>,
) -> bool {
    match cardinality {
        Cardinality::One => match r {
            Ok(Fetched::One(object)) => executed_one(outcome, mapper, Ok(object)),
            Ok(Fetched::Many(_)) => false,
            Err(e) => executed_one(outcome, mapper, Err::<T, ExecError>(e)),
        },
        Cardinality::Many => match r {
            Ok(Fetched::Many(objects)) => executed_many(outcome, mapper, Ok(objects@)),
            Ok(Fetched::One(_)) => false,
            Err(e) => executed_many(outcome, mapper, Err::<Seq<T>, ExecError>(e)),
        },
    }
}

/// Runs a driver outcome through `mapper` under the cardinality asked for.
pub fn execute<T, F: Fn(&ResultRow) -> Option<T>>(
    outcome: Result<Vec<ResultRow>, DriverError>,
    mapper: F,
    cardinality: Cardinality,
) -> (r: Result<Fetched<T>, ExecError>)
    requires
        outcome matches Ok(rows) ==> forall|i: int|
            0 <= i < rows@.len() ==> call_requires(mapper, (&rows@[i],)),
    ensures
        executed(items(outcome), mapper, cardinality, r),
{
    match cardinality {
        Cardinality::One => match call_one(outcome, mapper) {
            Ok(object) => Ok(Fetched::One(object)),
            Err(e) => Err(e),
        },
        Cardinality::Many => match call(outcome, mapper) {
            Ok(objects) => Ok(Fetched::Many(objects)),
            Err(e) => Err(e),
        },
    }
}

/// The cells of each row, in row order.
pub open spec fn row_views(rows: Seq<ResultRow>) -> Seq<Seq<CellView>> {
    rows.map_values(|row: ResultRow| row@)
}

/// A driver outcome as the cells of its rows, or its failure.
pub open spec fn outcome_view(outcome: Result<Seq<ResultRow>, DriverError>) -> Result<
    Seq<Seq<CellView>>,
    DriverError,
> {
    match outcome {
        Ok(rows) => Ok(row_views(rows)),
        Err(failure) => Err(failure),
    }
}

/// The view of a mapper's answer.
pub open spec fn option_view<T: View>(o: Option<T>) -> Option<T::V> {
    match o {
        Some(object) => Some(object@),
        None => None,
    }
}

/// The views of the entities of a many-results execution, or its error.
pub open spec fn many_view<T: View>(r: Result<Seq<T>, ExecError>) -> Result<Seq<T::V>, ExecError> {
    match r {
        Ok(out) => Ok(out.map_values(|object: T| object@)),
        Err(e) => Err(e),
    }
}

/// The view of the entity of a single-result execution, or its error.
pub open spec fn one_view<T: View>(r: Result<T, ExecError>) -> Result<T::V, ExecError> {
    match r {
        Ok(object) => Ok(object@),
        Err(e) => Err(e),
    }
}

/// What the function `f` makes of `rows`: the entities in row order, or
/// `MappingFailed` where `f` turns a row down.
pub open spec fn many_of<V>(rows: Seq<Seq<CellView>>, f: spec_fn(Seq<CellView>) -> Option<V>) -> Result<
    Seq<V>,
    ExecError,
> {
    if forall|i: int| 0 <= i < rows.len() ==> (#[trigger] f(rows[i])).is_some() {
        Ok(Seq::new(rows.len(), |i: int| f(rows[i]).unwrap()))
    } else {
        Err(ExecError::MappingFailed)
    }
}

/// The many-results policy as a function of the outcome, for a mapper that
/// is the function `f`.
pub open spec fn fetch_many<V>(
    outcome: Result<Seq<Seq<CellView>>, DriverError>,
    f: spec_fn(Seq<CellView>) -> Option<V>,
) -> Result<Seq<V>, ExecError> {
    match outcome {
        Ok(rows) => many_of(rows, f),
        Err(failure) => Err(ExecError::QueryFailed(failure)),
    }
}

/// The single-result policy as a function of the outcome, for a mapper that
/// is the function `f`.
pub open spec fn fetch_one<V>(
    outcome: Result<Seq<Seq<CellView>>, DriverError>,
    f: spec_fn(Seq<CellView>) -> Option<V>,
) -> Result<V, ExecError> {
    last_of(fetch_many(outcome, f))
}

/// On each row of the outcome `mapper` answers with what `f` says of the
/// row's cells, and nothing else.
pub open spec fn computes<T: View, F: Fn(&ResultRow) -> Option<T>>(
    mapper: F,
    f: spec_fn(Seq<CellView>) -> Option<T::V>,
    outcome: Result<Seq<ResultRow>, DriverError>,
) -> bool {
    outcome matches Ok(rows) ==> forall|i: int, o: Option<T>|
        0 <= i < rows.len() && #[trigger] maps(mapper, rows[i], o) ==> option_view(o) == f(
            rows[i]@,
        )
}

/// A result without rows is an empty sequence under the many-results
/// policy, and never an error.
pub proof fn lemma_no_rows_many<T, F: Fn(&ResultRow) -> Option<T>>(
    mapper: F,
    r: Result<Seq<T>, ExecError>,
)
    requires
        executed_many(Ok(Seq::<ResultRow>::empty()), mapper, r),
    ensures
        r == Ok::<Seq<T>, ExecError>(Seq::empty()),
{
    match r {
        Ok(out) => {
            assert(out =~= Seq::<T>::empty());
        },
        Err(e) => {
            assert(refuses_one::<T, F>(mapper, Seq::<ResultRow>::empty()));
        },
    }
}

/// A result without rows is `NotFound` under the single-result policy.
pub proof fn lemma_no_rows_one<T, F: Fn(&ResultRow) -> Option<T>>(
    mapper: F,
    r: Result<T, ExecError>,
)
    requires
        executed_one(Ok(Seq::<ResultRow>::empty()), mapper, r),
    ensures
        r == Err::<T, ExecError>(ExecError::NotFound),
{
    let many = choose|many: Result<Seq<T>, ExecError>| #[trigger]
        executed_many(Ok(Seq::<ResultRow>::empty()), mapper, many) && r == last_of(many);
    lemma_no_rows_many(mapper, many);
}

/// With a mapper that is a function, the many-results policy has exactly
/// one result: as many entities as rows, the entity of each row at the row's
/// place, or `MappingFailed` where a row is turned down.
pub proof fn lemma_many_of_function<T: View, F: Fn(&ResultRow) -> Option<T>>(
    outcome: Result<Seq<ResultRow>, DriverError>,
    mapper: F,
    f: spec_fn(Seq<CellView>) -> Option<T::V>,
    r: Result<Seq<T>, ExecError>,
)
    requires
        computes(mapper, f, outcome),
        executed_many(outcome, mapper, r),
    ensures
        many_view(r) == fetch_many(outcome_view(outcome), f),
        outcome matches Ok(rows) ==> (r matches Ok(out) ==> out.len() == rows.len() && forall|
            i: int,
        |
            0 <= i < rows.len() ==> Some((#[trigger] out[i])@) == f(rows[i]@)),
{
    if let Ok(rows) = outcome {
        let cells = row_views(rows);
        match r {
            Ok(out) => {
                assert forall|i: int| 0 <= i < rows.len() implies Some((#[trigger] out[i])@)
                    == f(rows[i]@) by {
                    assert(maps(mapper, rows[i], Some(out[i])));
                }
                assert forall|i: int| 0 <= i < cells.len() implies (#[trigger] f(
                    cells[i],
                )).is_some() by {
                    assert(Some(out[i]@) == f(rows[i]@));
                }
                assert(out.map_values(|object: T| object@) =~= Seq::new(
                    cells.len(),
                    |i: int| f(cells[i]).unwrap(),
                ));
            },
            Err(e) => {
                let k = choose|k: int|
                    0 <= k < rows.len() && #[trigger] maps(mapper, rows[k], None::<T>);
                assert(f(cells[k]).is_none());
            },
        }
    }
}

/// With a mapper that is a function, the single-result policy has exactly
/// one result: what the many-results policy gives, cut down to its last
/// entity, with `NotFound` where there is none.
pub proof fn lemma_one_of_function<T: View, F: Fn(&ResultRow) -> Option<T>>(
    outcome: Result<Seq<ResultRow>, DriverError>,
    mapper: F,
    f: spec_fn(Seq<CellView>) -> Option<T::V>,
    r: Result<T, ExecError>,
)
    requires
        computes(mapper, f, outcome),
        executed_one(outcome, mapper, r),
    ensures
        one_view(r) == fetch_one(outcome_view(outcome), f),
{
    let many = choose|many: Result<Seq<T>, ExecError>| #[trigger]
        executed_many(outcome, mapper, many) && r == last_of(many);
    lemma_many_of_function(outcome, mapper, f, many);
}

/// With a mapper that is a function and accepts every row, the
/// single-result policy returns the entity of the last row, however many
/// rows there are.
pub proof fn lemma_one_is_last<T: View, F: Fn(&ResultRow) -> Option<T>>(
    rows: Seq<ResultRow>,
    mapper: F,
    f: spec_fn(Seq<CellView>) -> Option<T::V>,
    r: Result<T, ExecError>,
)
    requires
        rows.len() >= 1,
        computes(mapper, f, Ok(rows)),
        forall|i: int| 0 <= i < rows.len() ==> (#[trigger] f(rows[i]@)).is_some(),
        executed_one(Ok(rows), mapper, r),
    ensures
        one_view(r) == Ok::<T::V, ExecError>(f(rows.last()@).unwrap()),
{
    lemma_one_of_function(Ok(rows), mapper, f, r);
    let cells = row_views(rows);
    assert forall|i: int| 0 <= i < cells.len() implies (#[trigger] f(cells[i])).is_some() by {
        assert(f(rows[i]@).is_some());
    }
}

/// Two executions of one outcome through a mapper that gives one answer per
/// row produce the same entities in the same order, or the same error.
pub proof fn lemma_many_repeatable<T, F: Fn(&ResultRow) -> Option<T>>(
    outcome: Result<Seq<ResultRow>, DriverError>,
    mapper: F,
    first: Result<Seq<T>, ExecError>,
    second: Result<Seq<T>, ExecError>,
)
    requires
        outcome matches Ok(rows) ==> single_valued(mapper, rows),
        executed_many(outcome, mapper, first),
        executed_many(outcome, mapper, second),
    ensures
        first == second,
{
    if let Ok(rows) = outcome {
        match (first, second) {
            (Ok(a), Ok(b)) => {
                assert forall|i: int| 0 <= i < rows.len() implies a[i] == b[i] by {
                    assert(maps(mapper, rows[i], Some(a[i])));
                    assert(maps(mapper, rows[i], Some(b[i])));
                }
                assert(a =~= b);
            },
            (Ok(a), Err(_)) => {
                let k = choose|k: int|
                    0 <= k < rows.len() && #[trigger] maps(mapper, rows[k], None::<T>);
                assert(maps(mapper, rows[k], Some(a[k])));
            },
            (Err(_), Ok(b)) => {
                let k = choose|k: int|
                    0 <= k < rows.len() && #[trigger] maps(mapper, rows[k], None::<T>);
                assert(maps(mapper, rows[k], Some(b[k])));
            },
            (Err(_), Err(_)) => {},
        }
    }
}

/// A row that the mapper can only turn down makes both policies fail with
/// `MappingFailed`, whatever the other rows hold.
pub proof fn lemma_refused_row_fails<T, F: Fn(&ResultRow) -> Option<T>>(
    rows: Seq<ResultRow>,
    mapper: F,
    k: int,
    many: Result<Seq<T>, ExecError>,
    one: Result<T, ExecError>,
)
    requires
        0 <= k < rows.len(),
        forall|o: Option<T>| #[trigger] maps(mapper, rows[k], o) ==> o.is_none(),
        executed_many(Ok(rows), mapper, many),
        executed_one(Ok(rows), mapper, one),
    ensures
        many == Err::<Seq<T>, ExecError>(ExecError::MappingFailed),
        one == Err::<T, ExecError>(ExecError::MappingFailed),
{
    if let Ok(out) = many {
        assert(maps(mapper, rows[k], Some(out[k])));
    }
    let inner = choose|inner: Result<Seq<T>, ExecError>| #[trigger]
        executed_many(Ok(rows), mapper, inner) && one == last_of(inner);
    if let Ok(out) = inner {
        assert(maps(mapper, rows[k], Some(out[k])));
    }
}

/// A driver failure comes back as `QueryFailed` with that failure under both
/// policies, whatever the mapper is.
pub proof fn lemma_driver_failure<T, F: Fn(&ResultRow) -> Option<T>>(
    failure: DriverError,
    mapper: F,
    many: Result<Seq<T>, ExecError>,
    one: Result<T, ExecError>,
)
    requires
        executed_many(Err(failure), mapper, many),
        executed_one(Err(failure), mapper, one),
    ensures
        many == Err::<Seq<T>, ExecError>(ExecError::QueryFailed(failure)),
        one == Err::<T, ExecError>(ExecError::QueryFailed(failure)),
{
    let inner = choose|inner: Result<Seq<T>, ExecError>| #[trigger]
        executed_many(Err(failure), mapper, inner) && one == last_of(inner);
}

} // verus!

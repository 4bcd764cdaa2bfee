//! What holds of loads and queries taken together, stated over the registry's
//! view and proved from the definitions of the transitions.

use vstd::prelude::*;
use crate::error::PathError;
use crate::grid::{grid_model, is_rectangular, Cell, GridMap, GridView};
use crate::registry::{load_result, RegistryView};
use crate::search::{answers, path_view, Decision, SearchOutcome};

verus! {

/// An answer to a query, with the path as a sequence of cells.
pub open spec fn answer_view(r: Result<Option<Vec<Cell>>, PathError>) -> Result<
    Option<Seq<Cell>>,
    PathError,
> {
    match r {
        Ok(p) => Ok(path_view(p)),
        Err(e) => Err(e),
    }
}

/// Two runs of the search on the same map and positions report the same.
pub open spec fn search_is_function<F: Fn(&GridMap, usize, usize) -> SearchOutcome>(
    search: F,
) -> bool {
    forall|m: GridMap, s: usize, g: usize, a: SearchOutcome, b: SearchOutcome|
        #[trigger] call_ensures(search, (&m, s, g), a) && #[trigger] call_ensures(
            search,
            (&m, s, g),
            b,
        ) ==> a.success == b.success && a.steps@ == b.steps@
}

/// After a rectangular grid is loaded, into the default slot or under a key,
/// a query from a cell of it to the same cell comes to that cell alone,
/// whatever the terrain and without a search.
pub proof fn law_same_cell(state: RegistryView, key: Seq<char>, rows: Seq<Seq<u8>>, c: Cell)
    requires
        is_rectangular(rows),
        grid_model(rows).in_bounds(c),
    ensures
        state.load_default(rows).query_default(c, c) == Decision::Stay(c),
        state.load_named(key, rows).query_named(key, c, c) == Decision::Stay(c),
{
}

/// Every answer to a query that comes to one cell is the path of that cell.
pub proof fn law_stay_answer<F: Fn(&GridMap, usize, usize) -> SearchOutcome>(
    c: Cell,
    slot: Option<GridMap>,
    search: F,
    r: Result<Option<Vec<Cell>>, PathError>,
)
    requires
        answers(Decision::Stay(c), slot, search, r),
    ensures
        answer_view(r) == Ok::<Option<Seq<Cell>>, PathError>(Some(seq![c])),
{
}

/// A query against a registry into which nothing was loaded is refused as not
/// loaded, for the default slot and for every key.
pub proof fn law_query_before_load(key: Seq<char>, start: Cell, goal: Cell)
    ensures
        RegistryView::empty().query_default(start, goal) == Decision::Refuse(PathError::NotLoaded),
        RegistryView::empty().query_named(key, start, goal) == Decision::Refuse(
            PathError::NotLoaded,
        ),
{
}

/// A query whose start or goal lies at or past the width or the height of the
/// loaded map is refused as out of bounds, and the error reports that width
/// and height and a cell that is outside: the start if it is, else the goal.
pub proof fn law_out_of_bounds(state: RegistryView, g: GridView, start: Cell, goal: Cell)
    requires
        state.default == Some(g),
        g.wf(),
        start.x >= g.width || start.y >= g.height || goal.x >= g.width || goal.y >= g.height,
    ensures
        state.query_default(start, goal) matches Decision::Refuse(
            PathError::OutOfBounds { width, height, x, y },
        ) && width == g.width && height == g.height && !g.in_bounds(Cell { x, y }) && (Cell {
            x,
            y,
        } == start || Cell { x, y } == goal),
{
}

/// The same for a map held under a key.
pub proof fn law_out_of_bounds_named(
    state: RegistryView,
    key: Seq<char>,
    g: GridView,
    start: Cell,
    goal: Cell,
)
    requires
        state.named.contains_key(key),
        state.named[key] == g,
        g.wf(),
        start.x >= g.width || start.y >= g.height || goal.x >= g.width || goal.y >= g.height,
    ensures
        state.query_named(key, start, goal) matches Decision::Refuse(
            PathError::OutOfBounds { width, height, x, y },
        ) && width == g.width && height == g.height && !g.in_bounds(Cell { x, y }) && (Cell {
            x,
            y,
        } == start || Cell { x, y } == goal),
{
}

/// A grid that is not a rectangle of at least one cell is refused as invalid,
/// and the registry after the refused load is the registry before it: every
/// query comes to what it came to before.
pub proof fn law_refused_load_changes_nothing(
    state: RegistryView,
    key: Seq<char>,
    rows: Seq<Seq<u8>>,
)
    requires
        !is_rectangular(rows),
    ensures
        load_result(rows) == Err::<(), PathError>(PathError::InvalidGrid),
        state.load_default(rows) == state,
        state.load_named(key, rows) == state,
{
}

/// Rows of differing length do not make a rectangle.
pub proof fn law_ragged_rows_refused(rows: Seq<Seq<u8>>, i: int, j: int)
    requires
        0 <= i < rows.len(),
        0 <= j < rows.len(),
        rows[i].len() != rows[j].len(),
    ensures
        !is_rectangular(rows),
        load_result(rows) == Err::<(), PathError>(PathError::InvalidGrid),
{
}

/// What a query comes to depends on the map in the slot and on the two cells
/// alone: two registries with the same default slot decide alike, and so do
/// two with the same map under the key.
pub proof fn law_decision_is_determined(
    a: RegistryView,
    b: RegistryView,
    key: Seq<char>,
    start: Cell,
    goal: Cell,
)
    ensures
        a.default == b.default ==> a.query_default(start, goal) == b.query_default(start, goal),
        a.named.contains_key(key) == b.named.contains_key(key) && a.named[key] == b.named[key]
            ==> a.query_named(key, start, goal) == b.query_named(key, start, goal),
{
}

/// Two answers to the same query against the same slot are the same, where the
/// search reports the same on every run.
pub proof fn law_answers_agree<F: Fn(&GridMap, usize, usize) -> SearchOutcome>(
    decision: Decision,
    slot: Option<GridMap>,
    search: F,
    first: Result<Option<Vec<Cell>>, PathError>,
    second: Result<Option<Vec<Cell>>, PathError>,
)
    requires
        search_is_function(search),
        answers(decision, slot, search, first),
        answers(decision, slot, search, second),
    ensures
        answer_view(first) == answer_view(second),
{
}

/// A load under a key leaves the default slot and every other key as they
/// were; a load into the default slot leaves every key as it was.
pub proof fn law_slots_are_independent(
    state: RegistryView,
    key: Seq<char>,
    other: Seq<char>,
    rows: Seq<Seq<u8>>,
    start: Cell,
    goal: Cell,
)
    ensures
        state.load_named(key, rows).default == state.default,
        state.load_named(key, rows).query_default(start, goal) == state.query_default(
            start,
            goal,
        ),
        other != key ==> state.load_named(key, rows).query_named(other, start, goal)
            == state.query_named(other, start, goal),
        state.load_default(rows).named == state.named,
        state.load_default(rows).query_named(other, start, goal) == state.query_named(
            other,
            start,
            goal,
        ),
{
}

/// A slot that holds a map holds one after every load, accepted or refused:
/// maps are replaced, never removed.
pub proof fn law_slots_stay_loaded(
    state: RegistryView,
    key: Seq<char>,
    other: Seq<char>,
    rows: Seq<Seq<u8>>,
)
    ensures
        state.default is Some ==> state.load_default(rows).default is Some,
        state.default is Some ==> state.load_named(key, rows).default is Some,
        state.named.contains_key(other) ==> state.load_default(rows).named.contains_key(other),
        state.named.contains_key(other) ==> state.load_named(key, rows).named.contains_key(other),
        is_rectangular(rows) ==> state.load_default(rows).default is Some,
        is_rectangular(rows) ==> state.load_named(key, rows).named.contains_key(key),
{
}

/// With nothing ever loaded into the default slot, a load under a key does not
/// make the default slot answer: the query is still refused as not loaded.
pub proof fn law_named_load_leaves_default_empty(
    key: Seq<char>,
    rows: Seq<Seq<u8>>,
    start: Cell,
    goal: Cell,
)
    ensures
        RegistryView::empty().load_named(key, rows).query_default(start, goal) == Decision::Refuse(
            PathError::NotLoaded,
        ),
{
}

} // verus!

use vstd::prelude::*;
use vstd::arithmetic::div_mod::lemma_fundamental_div_mod_converse;
use crate::cost::{CostModel, Terrain};
use crate::error::PathError;
use crate::grid::{lemma_index_in_range, Cell, GridMap, GridView};

verus! {

/// How a move to a neighbouring cell is made. A straight move costs 1.0, a
/// diagonal one 1.4.
#[derive(Clone, Copy, Debug, PartialEq, Eq, Structural)]
pub enum Step {
    Straight,
    Diagonal,
}

/// A tile that can be entered from some tile, and the kind of move that does it.
#[derive(Clone, Copy, Debug, PartialEq, Eq, Structural)]
pub struct Exit {
    pub index: usize,
    pub step: Step,
}

/// What a shortest-path search reports: whether it reached the goal, and the
/// positions it went through, the first and the last included.
#[derive(Debug)]
pub struct SearchOutcome {
    pub success: bool,
    pub steps: Vec<usize>,
}

/// What a query against a map comes to before any search is run.
#[derive(Clone, Copy, Debug, PartialEq, Eq, Structural)]
pub enum Decision {
    /// The query is answered with this error.
    Refuse(PathError),
    /// Start and goal are this one cell: the path is the cell alone.
    Stay(Cell),
    /// A search between these two positions has to be run.
    Search { from: usize, to: usize },
}

impl GridView {
    /// The position reached from `loc` by moving `dx` columns and `dy` rows,
    /// when that lands on a walkable tile of the map.
    pub open spec fn exit_towards(self, loc: Cell, dx: int, dy: int) -> Option<usize> {
        let nx = loc.x + dx;
        let ny = loc.y + dy;
        if 0 <= nx < self.width && 0 <= ny < self.height && self.walkable(ny * self.width + nx) {
            Some((ny * self.width + nx) as usize)
        } else {
            None
        }
    }

    /// The move towards `(dx, dy)` as a sequence: one exit, or none.
    pub open spec fn exit_seq(self, loc: Cell, dx: int, dy: int, step: Step) -> Seq<Exit> {
        match self.exit_towards(loc, dx, dy) {
            Some(index) => seq![Exit { index, step }],
            None => Seq::empty(),
        }
    }

    /// The moves open from a position: west, east, north, south, then the four
    /// diagonals, each only if it lands on a walkable tile.
    pub open spec fn exits(self, idx: usize) -> Seq<Exit> {
        let loc = self.cell_of(idx);
        self.exit_seq(loc, -1, 0, Step::Straight)
            + self.exit_seq(loc, 1, 0, Step::Straight)
            + self.exit_seq(loc, 0, -1, Step::Straight)
            + self.exit_seq(loc, 0, 1, Step::Straight)
            + self.exit_seq(loc, -1, -1, Step::Diagonal)
            + self.exit_seq(loc, -1, 1, Step::Diagonal)
            + self.exit_seq(loc, 1, -1, Step::Diagonal)
            + self.exit_seq(loc, 1, 1, Step::Diagonal)
    }

    /// The cell among `start` and `goal` that a query is refused for: `start`
    /// when it lies outside the map, else `goal`.
    pub open spec fn offending(self, start: Cell, goal: Cell) -> Cell {
        if !self.in_bounds(start) {
            start
        } else {
            goal
        }
    }

    /// What a query from `start` to `goal` comes to on this map.
    pub open spec fn decide(self, start: Cell, goal: Cell) -> Decision {
        if !self.in_bounds(start) || !self.in_bounds(goal) {
            let c = self.offending(start, goal);
            Decision::Refuse(
                PathError::OutOfBounds {
                    width: self.width as usize,
                    height: self.height as usize,
                    x: c.x,
                    y: c.y,
                },
            )
        } else if start == goal {
            Decision::Stay(start)
        } else {
            Decision::Search {
                from: self.index_of(start) as usize,
                to: self.index_of(goal) as usize,
            }
        }
    }

    /// The cells of a search's steps, or nothing where the search failed.
    pub open spec fn path_of(self, success: bool, steps: Seq<usize>) -> Option<Seq<Cell>> {
        if success {
            Some(steps.map_values(|i: usize| self.cell_of(i)))
        } else {
            None
        }
    }
}

/// A path as a sequence of cells.
pub open spec fn path_view(p: Option<Vec<Cell>>) -> Option<Seq<Cell>> {
    match p {
        Some(v) => Some(v@),
        None => None,
    }
}

/// The search may be called on every well-formed map with two positions of
/// its tiles.
pub open spec fn search_accepts<F: Fn(&GridMap, usize, usize) -> SearchOutcome>(search: F) -> bool {
    forall|m: GridMap, s: usize, g: usize|
        m.wf() && s < m.tiles.len() && g < m.tiles.len() ==> #[trigger] call_requires(
            search,
            (&m, s, g),
        )
}

/// `r` is the answer that `decision` calls for, where a search that is needed
/// was run by `search` on the map in `slot`.
pub open spec fn answers<F: Fn(&GridMap, usize, usize) -> SearchOutcome>(
    decision: Decision,
    slot: Option<GridMap>,
    search: F,
    r: Result<Option<Vec<Cell>>, PathError>,
) -> bool {
    match decision {
        Decision::Refuse(e) => r == Err::<Option<Vec<Cell>>, PathError>(e),
        Decision::Stay(c) => r matches Ok(p) && path_view(p) == Some(seq![c]),
        Decision::Search { from, to } => slot matches Some(m) && exists|o: SearchOutcome|
            {
                &&& #[trigger] call_ensures(search, (&m, from, to), o)
                &&& r matches Ok(p) && path_view(p) == m@.path_of(o.success, o.steps@)
            },
    }
}

/// The cell `to` is reached from `from` by one move of kind `step`: a straight
/// move changes the column or the row by one, a diagonal move both.
pub open spec fn is_move(from: Cell, to: Cell, step: Step) -> bool {
    let dx = to.x - from.x;
    let dy = to.y - from.y;
    &&& -1 <= dx <= 1
    &&& -1 <= dy <= 1
    &&& step == Step::Straight <==> (dx == 0) != (dy == 0)
    &&& step == Step::Diagonal <==> dx != 0 && dy != 0
}

/// Where a move is open it lands on the cell it aims at, and that cell is on
/// the map and walkable under the direct reading of terrain codes.
pub proof fn lemma_exit_towards(g: GridView, loc: Cell, dx: int, dy: int)
    requires
        g.wf(),
    ensures
        g.exit_towards(loc, dx, dy) matches Some(i) ==> {
            &&& g.walkable(i as int)
            &&& CostModel::Direct.spec_classify(g.tiles[i as int]) == Terrain::Cheap
            &&& g.in_bounds(g.cell_of(i))
            &&& g.cell_of(i).x == loc.x + dx
            &&& g.cell_of(i).y == loc.y + dy
        },
{
    if g.exit_towards(loc, dx, dy) is Some {
        let nx = loc.x + dx;
        let ny = loc.y + dy;
        let to = Cell { x: nx as usize, y: ny as usize };
        lemma_index_in_range(g, to);
        lemma_fundamental_div_mod_converse(g.index_of(to), g.width as int, ny, nx);
    }
}

/// The exit lands on a walkable tile of the map that is one move of the
/// exit's kind away from `from`.
pub open spec fn is_open_neighbour(g: GridView, from: Cell, e: Exit) -> bool {
    &&& g.walkable(e.index as int)
    &&& g.in_bounds(g.cell_of(e.index))
    &&& is_move(from, g.cell_of(e.index), e.step)
}

/// Every exit of the sequence is an open neighbour of `from`.
pub open spec fn all_open_neighbours(g: GridView, from: Cell, exits: Seq<Exit>) -> bool {
    forall|j: int| 0 <= j < exits.len() ==> is_open_neighbour(g, from, #[trigger] exits[j])
}

proof fn lemma_exit_seq_open(g: GridView, loc: Cell, dx: int, dy: int, step: Step)
    requires
        g.wf(),
        -1 <= dx <= 1,
        -1 <= dy <= 1,
        step == Step::Straight <==> (dx == 0) != (dy == 0),
        step == Step::Diagonal <==> dx != 0 && dy != 0,
    ensures
        all_open_neighbours(g, loc, g.exit_seq(loc, dx, dy, step)),
{
    lemma_exit_towards(g, loc, dx, dy);
}

proof fn lemma_open_neighbours_join(g: GridView, from: Cell, a: Seq<Exit>, b: Seq<Exit>)
    requires
        all_open_neighbours(g, from, a),
        all_open_neighbours(g, from, b),
    ensures
        all_open_neighbours(g, from, a + b),
{
    assert forall|j: int| 0 <= j < (a + b).len() implies is_open_neighbour(
        g,
        from,
        #[trigger] (a + b)[j],
    ) by {
        if j < a.len() {
            assert((a + b)[j] == a[j]);
        } else {
            assert((a + b)[j] == b[j - a.len()]);
        }
    }
}

/// Every move that is open from a position lands on a walkable tile of the
/// map, one column and one row away at most, and is straight or diagonal as
/// the two cells lie.
pub proof fn lemma_exits_are_open_neighbours(g: GridView, idx: usize)
    requires
        g.wf(),
    ensures
        all_open_neighbours(g, g.cell_of(idx), g.exits(idx)),
{
    let loc = g.cell_of(idx);
    let w = g.exit_seq(loc, -1, 0, Step::Straight);
    let e = g.exit_seq(loc, 1, 0, Step::Straight);
    let n = g.exit_seq(loc, 0, -1, Step::Straight);
    let s = g.exit_seq(loc, 0, 1, Step::Straight);
    let nw = g.exit_seq(loc, -1, -1, Step::Diagonal);
    let sw = g.exit_seq(loc, -1, 1, Step::Diagonal);
    let ne = g.exit_seq(loc, 1, -1, Step::Diagonal);
    let se = g.exit_seq(loc, 1, 1, Step::Diagonal);
    lemma_exit_seq_open(g, loc, -1, 0, Step::Straight);
    lemma_exit_seq_open(g, loc, 1, 0, Step::Straight);
    lemma_exit_seq_open(g, loc, 0, -1, Step::Straight);
    lemma_exit_seq_open(g, loc, 0, 1, Step::Straight);
    lemma_exit_seq_open(g, loc, -1, -1, Step::Diagonal);
    lemma_exit_seq_open(g, loc, -1, 1, Step::Diagonal);
    lemma_exit_seq_open(g, loc, 1, -1, Step::Diagonal);
    lemma_exit_seq_open(g, loc, 1, 1, Step::Diagonal);
    lemma_open_neighbours_join(g, loc, w, e);
    lemma_open_neighbours_join(g, loc, w + e, n);
    lemma_open_neighbours_join(g, loc, w + e + n, s);
    lemma_open_neighbours_join(g, loc, w + e + n + s, nw);
    lemma_open_neighbours_join(g, loc, w + e + n + s + nw, sw);
    lemma_open_neighbours_join(g, loc, w + e + n + s + nw + sw, ne);
    lemma_open_neighbours_join(g, loc, w + e + n + s + nw + sw + ne, se);
}

/// No position has more than eight open moves.
pub proof fn lemma_exits_at_most_eight(g: GridView, idx: usize)
    ensures
        g.exits(idx).len() <= 8,
{
}

/// `v + d`, when that is a `usize`.
fn offset(v: usize, d: i32) -> (r: Option<usize>)
    ensures
        r == (if 0 <= v + d <= usize::MAX {
            Some((v + d) as usize)
        } else {
            None
        }),
{
    if d >= 0 {
        v.checked_add(d as usize)
    } else {
        let back: usize = (-(d as i64)) as usize;
        if v >= back {
            Some(v - back)
        } else {
            None
        }
    }
}

impl GridMap {
    /// The position reached from `loc` by moving `dx` columns and `dy` rows,
    /// when that lands on a walkable tile of the map.
    pub fn valid_exit(&self, loc: Cell, dx: i32, dy: i32) -> (r: Option<usize>)
        requires
            self.wf(),
        ensures
            r == self@.exit_towards(loc, dx as int, dy as int),
    {
        let nx = match offset(loc.x, dx) {
            Some(v) => v,
            None => { return None; },
        };
        let ny = match offset(loc.y, dy) {
            Some(v) => v,
            None => { return None; },
        };
        let destination = Cell { x: nx, y: ny };
        if self.in_bounds(destination) {
            let idx = self.index_of(destination);
            if self.tiles[idx] == 0 {
                Some(idx)
            } else {
                None
            }
        } else {
            None
        }
    }

    /// Appends the move from `loc` by `dx` columns and `dy` rows, if it is open.
    fn push_exit(&self, exits: &mut Vec<Exit>, loc: Cell, dx: i32, dy: i32, step: Step)
        requires
            self.wf(),
        ensures
            final(exits)@ == old(exits)@ + self@.exit_seq(loc, dx as int, dy as int, step),
    {
        if let Some(index) = self.valid_exit(loc, dx, dy) {
            exits.push(Exit { index, step });
            assert(exits@ =~= old(exits)@ + seq![Exit { index, step }]);
        } else {
            assert(exits@ =~= old(exits)@ + Seq::<Exit>::empty());
        }
    }

    /// The moves open from a position, in the order west, east, north, south,
    /// north-west, south-west, north-east, south-east.
    pub fn get_available_exits(&self, idx: usize) -> (exits: Vec<Exit>)
        requires
            self.wf(),
        ensures
            exits@ == self@.exits(idx),
    {
        let mut exits: Vec<Exit> = Vec::new();
        let location = self.cell_of(idx);
        self.push_exit(&mut exits, location, -1, 0, Step::Straight);
        assert(exits@ =~= self@.exit_seq(location, -1, 0, Step::Straight));
        self.push_exit(&mut exits, location, 1, 0, Step::Straight);
        self.push_exit(&mut exits, location, 0, -1, Step::Straight);
        self.push_exit(&mut exits, location, 0, 1, Step::Straight);
        self.push_exit(&mut exits, location, -1, -1, Step::Diagonal);
        self.push_exit(&mut exits, location, -1, 1, Step::Diagonal);
        self.push_exit(&mut exits, location, 1, -1, Step::Diagonal);
        self.push_exit(&mut exits, location, 1, 1, Step::Diagonal);
        exits
    }

    /// What a query from `start` to `goal` comes to before any search.
    pub fn decide(&self, start: Cell, goal: Cell) -> (d: Decision)
        requires
            self.wf(),
        ensures
            d == self@.decide(start, goal),
    {
        if !self.in_bounds(start) {
            Decision::Refuse(
                PathError::OutOfBounds {
                    width: self.width,
                    height: self.height,
                    x: start.x,
                    y: start.y,
                },
            )
        } else if !self.in_bounds(goal) {
            Decision::Refuse(
                PathError::OutOfBounds {
                    width: self.width,
                    height: self.height,
                    x: goal.x,
                    y: goal.y,
                },
            )
        } else if start.x == goal.x && start.y == goal.y {
            Decision::Stay(start)
        } else {
            Decision::Search { from: self.index_of(start), to: self.index_of(goal) }
        }
    }

    /// Turns what a search reported into a path of cells.
    pub fn path_from_outcome(&self, outcome: &SearchOutcome) -> (r: Option<Vec<Cell>>)
        requires
            self.wf(),
        ensures
            path_view(r) == self@.path_of(outcome.success, outcome.steps@),
    {
        if outcome.success {
            let n = outcome.steps.len();
            let mut points: Vec<Cell> = Vec::with_capacity(n);
            let mut i: usize = 0;
            while i < n
                invariant
                    self.wf(),
                    n == outcome.steps.len(),
                    i <= n,
                    points.len() == i,
                    forall|k: int| 0 <= k < i ==> points[k] == self@.cell_of(outcome.steps[k]),
                decreases n - i,
            {
                points.push(self.cell_of(outcome.steps[i]));
                i += 1;
            }
            assert(points@ =~= outcome.steps@.map_values(|i: usize| self@.cell_of(i)));
            Some(points)
        } else {
            None
        }
    }

    /// The path from `start` to `end` that `search` finds, as cells. A cell is
    /// its own path; between two different cells the search is run once, on
    /// their positions.
    pub fn a_star_search<F: Fn(&GridMap, usize, usize) -> SearchOutcome>(
        &self,
        start: Cell,
        end: Cell,
        search: F,
    ) -> (r: Option<Vec<Cell>>)
        requires
            self.wf(),
            self@.in_bounds(start),
            self@.in_bounds(end),
            search_accepts(search),
        ensures
            answers(self@.decide(start, end), Some(*self), search, Ok(r)),
    {
        if start.x == end.x && start.y == end.y {
            let mut points: Vec<Cell> = Vec::new();
            points.push(start);
            assert(points@ =~= seq![start]);
            Some(points)
        } else {
            let from = self.index_of(start);
            let to = self.index_of(end);
            let outcome = search(self, from, to);
            let r = self.path_from_outcome(&outcome);
            assert(call_ensures(search, (self, from, to), outcome));
            r
        }
    }

    /// Answers a query on this map: refuses a start or goal outside it,
    /// otherwise returns the path that `search` finds.
    pub fn query<F: Fn(&GridMap, usize, usize) -> SearchOutcome>(
        &self,
        start: Cell,
        goal: Cell,
        search: F,
    ) -> (r: Result<Option<Vec<Cell>>, PathError>)
        requires
            self.wf(),
            search_accepts(search),
        ensures
            answers(self@.decide(start, goal), Some(*self), search, r),
    {
        match self.decide(start, goal) {
            Decision::Refuse(e) => Err(e),
            _ => Ok(self.a_star_search(start, goal, search)),
        }
    }
}

} // verus!

use vstd::prelude::*;
use vstd::arithmetic::div_mod::lemma_fundamental_div_mod;
use vstd::arithmetic::div_mod::lemma_fundamental_div_mod_converse;
use vstd::arithmetic::div_mod::lemma_mod_bound;
use crate::error::PathError;

verus! {

/// A cell of the grid: `x` grows rightward, `y` grows downward, origin top-left.
#[derive(Clone, Copy, Debug, PartialEq, Eq, Structural)]
pub struct Cell {
    pub x: usize,
    pub y: usize,
}

/// The mathematical content of a [`GridMap`].
pub struct GridView {
    pub width: nat,
    pub height: nat,
    pub tiles: Seq<u8>,
}

impl GridView {
    /// Both sides are at least one cell long and the tiles fill the rectangle.
    pub open spec fn wf(self) -> bool {
        &&& self.width >= 1
        &&& self.height >= 1
        &&& self.tiles.len() == self.width * self.height
        &&& self.width <= usize::MAX
        &&& self.height <= usize::MAX
        &&& self.tiles.len() <= usize::MAX
    }

    pub open spec fn in_bounds(self, c: Cell) -> bool {
        c.x < self.width && c.y < self.height
    }

    /// Row-major position of a cell.
    pub open spec fn index_of(self, c: Cell) -> int {
        c.y * self.width + c.x
    }

    /// The cell at a row-major position.
    pub open spec fn cell_of(self, idx: usize) -> Cell {
        Cell {
            x: ((idx as int) % (self.width as int)) as usize,
            y: ((idx as int) / (self.width as int)) as usize,
        }
    }

    /// A terrain code of zero is walkable, anything else blocks.
    pub open spec fn walkable(self, idx: int) -> bool {
        0 <= idx < self.tiles.len() && self.tiles[idx] == 0
    }
}

/// The rows of a grid as sequences of terrain codes.
pub open spec fn grid_rows(grid: Seq<Vec<u8>>) -> Seq<Seq<u8>> {
    grid.map_values(|row: Vec<u8>| row@)
}

/// At least one row, at least one column, and every row as long as the first.
pub open spec fn is_rectangular(rows: Seq<Seq<u8>>) -> bool {
    &&& rows.len() >= 1
    &&& rows[0].len() >= 1
    &&& forall|i: int| 0 <= i < rows.len() ==> (#[trigger] rows[i]).len() == rows[0].len()
}

/// The map that a rectangular grid describes: its rows laid end to end.
pub open spec fn grid_model(rows: Seq<Seq<u8>>) -> GridView {
    let w = rows[0].len();
    GridView {
        width: w,
        height: rows.len(),
        tiles: Seq::new(rows.len() * w, |k: int| rows[k / (w as int)][k % (w as int)]),
    }
}

/// Terrain of a rectangular grid, stored row by row.
#[derive(Debug)]
pub struct GridMap {
    pub width: usize,
    pub height: usize,
    pub tiles: Vec<u8>,
}

impl View for GridMap {
    type V = GridView;

    open spec fn view(&self) -> GridView {
        GridView { width: self.width as nat, height: self.height as nat, tiles: self.tiles@ }
    }
}

impl GridMap {
    pub open spec fn wf(&self) -> bool {
        self@.wf()
    }

    /// Builds the map of a grid, or refuses the grid as a whole when it is not
    /// a rectangle of at least one cell.
    pub fn new(grid: Vec<Vec<u8>>) -> (r: Result<GridMap, PathError>)
        ensures
            r is Ok <==> is_rectangular(grid_rows(grid@)),
            r matches Ok(m) ==> m.wf() && m@ == grid_model(grid_rows(grid@)),
            r matches Err(e) ==> e == PathError::InvalidGrid,
    {
        let ghost rows = grid_rows(grid@);
        let height = grid.len();
        if height == 0 {
            return Err(PathError::InvalidGrid);
        }
        let width = grid[0].len();
        if width == 0 {
            return Err(PathError::InvalidGrid);
        }
        let mut i: usize = 1;
        while i < height
            invariant
                1 <= i <= height,
                height == grid.len(),
                width == grid[0].len(),
                rows == grid_rows(grid@),
                forall|k: int| 0 <= k < i ==> (#[trigger] rows[k]).len() == width,
            decreases height - i,
        {
            if grid[i].len() != width {
                assert(rows[i as int].len() != rows[0].len());
                return Err(PathError::InvalidGrid);
            }
            i += 1;
        }
        let mut tiles: Vec<u8> = Vec::new();
        let mut y: usize = 0;
        while y < height
            invariant
                y <= height,
                height == grid.len(),
                width >= 1,
                rows == grid_rows(grid@),
                forall|k: int| 0 <= k < height ==> (#[trigger] rows[k]).len() == width,
                tiles.len() == y * width,
                forall|k: int|
                    0 <= k < tiles.len() ==> #[trigger] tiles[k] == rows[k / (width as int)][k % (
                    width as int)],
            decreases height - y,
        {
            let mut x: usize = 0;
            while x < width
                invariant
                    x <= width,
                    y < height,
                    height == grid.len(),
                    width >= 1,
                    rows == grid_rows(grid@),
                    forall|k: int| 0 <= k < height ==> (#[trigger] rows[k]).len() == width,
                    tiles.len() == y * width + x,
                    forall|k: int|
                        0 <= k < tiles.len() ==> #[trigger] tiles[k] == rows[k / (width as int)][k
                            % (width as int)],
                decreases width - x,
            {
                proof {
                    assert(rows[y as int].len() == width);
                    lemma_fundamental_div_mod_converse(
                        y * width + x,
                        width as int,
                        y as int,
                        x as int,
                    );
                }
                let t = grid[y][x];
                tiles.push(t);
                x += 1;
            }
            assert((y + 1) * width == y * width + width) by (nonlinear_arith);
            y += 1;
        }
        let m = GridMap { width, height, tiles };
        proof {
            assert(rows.len() == height);
            assert(rows[0].len() == width);
            assert(m@.tiles.len() == height * width);
            assert(m@.tiles =~= grid_model(rows).tiles);
            assert(m@.width * m@.height == height * width) by (nonlinear_arith)
                requires
                    m@.width == width,
                    m@.height == height,
            ;
        }
        Ok(m)
    }

    /// Whether the cell lies inside the rectangle.
    pub fn in_bounds(&self, c: Cell) -> (r: bool)
        ensures
            r == self@.in_bounds(c),
    {
        c.x < self.width && c.y < self.height
    }

    /// Row-major position of a cell of the map.
    pub fn index_of(&self, c: Cell) -> (idx: usize)
        requires
            self.wf(),
            self@.in_bounds(c),
        ensures
            idx == self@.index_of(c),
            idx < self.tiles.len(),
    {
        proof {
            lemma_index_in_range(self@, c);
            assert(self@.index_of(c) == c.y * self.width + c.x);
            assert(0 <= c.y * self.width) by (nonlinear_arith);
            assert(self@.tiles.len() == self.tiles.len());
        }
        c.y * self.width + c.x
    }

    /// The cell at a row-major position; for a position past the last tile the
    /// cell lies below the map.
    pub fn cell_of(&self, idx: usize) -> (c: Cell)
        requires
            self.wf(),
        ensures
            c == self@.cell_of(idx),
    {
        Cell { x: idx % self.width, y: idx / self.width }
    }

    /// The terrain code of a cell, or `None` for a cell outside the map.
    pub fn terrain_at(&self, c: Cell) -> (r: Option<u8>)
        requires
            self.wf(),
        ensures
            r == (if self@.in_bounds(c) {
                Some(self@.tiles[self@.index_of(c)])
            } else {
                None
            }),
    {
        if self.in_bounds(c) {
            let idx = self.index_of(c);
            Some(self.tiles[idx])
        } else {
            None
        }
    }

    /// Whether the tile at a position blocks movement.
    pub fn is_opaque(&self, idx: usize) -> (r: bool)
        requires
            idx < self.tiles.len(),
        ensures
            r == !self@.walkable(idx as int),
    {
        self.tiles[idx] != 0
    }
}

/// The position of an in-bounds cell is the position of one of the tiles.
pub proof fn lemma_index_in_range(g: GridView, c: Cell)
    requires
        g.wf(),
        g.in_bounds(c),
    ensures
        0 <= g.index_of(c) < g.tiles.len(),
{
    assert(c.y * g.width + c.x < g.width * g.height) by (nonlinear_arith)
        requires
            c.x < g.width,
            c.y < g.height,
    ;
    assert(c.y * g.width >= 0) by (nonlinear_arith);
}

/// A position below the number of tiles names a cell of the map.
pub proof fn lemma_cell_in_bounds(g: GridView, idx: usize)
    requires
        g.wf(),
        idx < g.tiles.len(),
    ensures
        g.in_bounds(g.cell_of(idx)),
{
    let w = g.width as int;
    lemma_fundamental_div_mod(idx as int, w);
    lemma_mod_bound(idx as int, w);
    assert((idx as int) / w < g.height) by (nonlinear_arith)
        requires
            idx < w * g.height,
            w >= 1,
            idx == w * ((idx as int) / w) + (idx as int) % w,
            0 <= (idx as int) % w < w,
    ;
    assert((idx as int) / w >= 0) by (nonlinear_arith)
        requires
            idx >= 0,
            w >= 1,
    ;
}

/// Cells and positions correspond one to one: the cell at the position of an
/// in-bounds cell is that cell.
pub proof fn lemma_cell_of_index(g: GridView, c: Cell)
    requires
        g.wf(),
        g.in_bounds(c),
    ensures
        g.cell_of(g.index_of(c) as usize) == c,
{
    lemma_index_in_range(g, c);
    lemma_fundamental_div_mod_converse(g.index_of(c), g.width as int, c.y as int, c.x as int);
}

/// Cells and positions correspond one to one: the position of the cell at a
/// position below the number of tiles is that position.
pub proof fn lemma_index_of_cell(g: GridView, idx: usize)
    requires
        g.wf(),
        idx < g.tiles.len(),
    ensures
        g.index_of(g.cell_of(idx)) == idx,
{
    let w = g.width as int;
    lemma_cell_in_bounds(g, idx);
    lemma_fundamental_div_mod(idx as int, w);
    assert(((idx as int) / w) * w == w * ((idx as int) / w)) by (nonlinear_arith);
}

} // verus!

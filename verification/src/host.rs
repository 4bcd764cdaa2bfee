//! Plain-value conversions for a host that speaks in 32-bit signed integers:
//! terrain rows in, query coordinates in, path coordinates out.

use vstd::prelude::*;
use crate::grid::Cell;

verus! {

/// The terrain codes of a row of host integers: of each the low eight bits.
pub fn terrain_row(raw: &Vec<i32>) -> (row: Vec<u8>)
    ensures
        row@ == raw@.map_values(|v: i32| v as u8),
{
    let n = raw.len();
    let mut row: Vec<u8> = Vec::new();
    let mut i: usize = 0;
    while i < n
        invariant
            n == raw.len(),
            i <= n,
            row.len() == i,
            forall|k: int| 0 <= k < i ==> row[k] == raw[k] as u8,
        decreases n - i,
    {
        let v = raw[i];
        row.push(#[verifier::truncate] (v as u8));
        i += 1;
    }
    assert(row@ =~= raw@.map_values(|v: i32| v as u8));
    row
}

/// The start and the goal of a query given by host coordinates, where none of
/// the four is negative.
pub fn query_cells(x1: i32, y1: i32, x2: i32, y2: i32) -> (r: Option<(Cell, Cell)>)
    ensures
        r is Some <==> x1 >= 0 && y1 >= 0 && x2 >= 0 && y2 >= 0,
        r matches Some((start, goal)) ==> start.x == x1 && start.y == y1 && goal.x == x2 && goal.y
            == y2,
{
    if x1 < 0 || y1 < 0 || x2 < 0 || y2 < 0 {
        None
    } else {
        Some((Cell { x: x1 as usize, y: y1 as usize }, Cell { x: x2 as usize, y: y2 as usize }))
    }
}

/// Every coordinate of the path is a host integer.
pub open spec fn fits_host(path: Seq<Cell>) -> bool {
    forall|k: int| 0 <= k < path.len() ==> (#[trigger] path[k]).x <= i32::MAX && path[k].y <= i32::MAX
}

/// The coordinates of a path, cell after cell, of each cell `x` then `y`.
pub open spec fn coordinates(path: Seq<Cell>) -> Seq<int> {
    Seq::new(
        2 * path.len(),
        |k: int|
            if k % 2 == 0 {
                path[k / 2].x as int
            } else {
                path[k / 2].y as int
            },
    )
}

/// The coordinates of a path as host integers, cell after cell, of each cell
/// `x` then `y`; none where a coordinate is too large for the host.
pub fn path_coordinates(path: &Vec<Cell>) -> (r: Option<Vec<i32>>)
    ensures
        r is Some <==> fits_host(path@),
        r matches Some(v) ==> v@.map_values(|c: i32| c as int) == coordinates(path@),
{
    let n = path.len();
    let mut out: Vec<i32> = Vec::new();
    let mut i: usize = 0;
    while i < n
        invariant
            n == path.len(),
            i <= n,
            out.len() == 2 * i,
            forall|k: int| 0 <= k < i ==> (#[trigger] path[k]).x <= i32::MAX && path[k].y <= i32::MAX,
            forall|j: int|
                0 <= j < out.len() ==> #[trigger] out[j] == (if j % 2 == 0 {
                    path[j / 2].x
                } else {
                    path[j / 2].y
                }),
        decreases n - i,
    {
        let c = path[i];
        if c.x > 0x7fff_ffff || c.y > 0x7fff_ffff {
            assert(!(path@[i as int].x <= i32::MAX && path@[i as int].y <= i32::MAX));
            return None;
        }
        out.push(c.x as i32);
        out.push(c.y as i32);
        i += 1;
    }
    proof {
        let shown = out@.map_values(|c: i32| c as int);
        assert(shown.len() == coordinates(path@).len());
        assert(shown =~= coordinates(path@));
    }
    Some(out)
}

} // verus!

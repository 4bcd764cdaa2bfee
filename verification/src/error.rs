use vstd::prelude::*;

verus! {

/// Why a load or a query was refused.
#[derive(Clone, Copy, Debug, PartialEq, Eq, Structural)]
pub enum PathError {
    /// The grid has no rows, an empty first row, or rows of differing length.
    InvalidGrid,
    /// The slot or key that was queried holds no map.
    NotLoaded,
    /// The cell `(x, y)` lies outside a map of the given width and height.
    OutOfBounds { width: usize, height: usize, x: usize, y: usize },
}

} // verus!

//! Grid coordinates of the world: sizes in cells and where a building stands.
use vstd::prelude::*;

verus! {

/// A size in grid cells (width, height).
#[derive(Clone, Copy, Debug, PartialEq, Eq, Structural)]
pub struct GridSize {
    pub x: u32,
    pub y: u32,
}

impl GridSize {
    /// The same number of cells along both axes.
    pub fn splat(n: u32) -> (size: GridSize)
        ensures
            size == (GridSize { x: n, y: n }),
    {
        GridSize { x: n, y: n }
    }
}

/// Where a building stands on the grid: the cell of its lower-left corner
/// and its extent in cells.
#[derive(Clone, Copy, Debug, PartialEq, Eq, Structural)]
pub struct GridTransform {
    pub position_x: i32,
    pub position_y: i32,
    pub size: GridSize,
}

impl GridTransform {
    /// A transform of the given extent at the grid's origin.
    pub fn new(size: GridSize) -> (transform: GridTransform)
        ensures
            transform == (GridTransform { position_x: 0, position_y: 0, size }),
    {
        GridTransform { position_x: 0, position_y: 0, size }
    }
}

} // verus!

use vstd::prelude::*;

verus! {

/// Width of the playfield, in cells.
pub const GRID_W: i32 = 20;

/// Height of the playfield, in cells.
pub const GRID_H: i32 = 20;

/// One cell of the playfield, in grid coordinates (not pixels).
#[derive(Clone, Copy, PartialEq, Eq, Structural, Debug)]
pub struct Cell {
    pub x: i32,
    pub y: i32,
}

/// A cell lies on the playfield.
pub open spec fn in_grid(c: Cell) -> bool {
    0 <= c.x < GRID_W && 0 <= c.y < GRID_H
}

} // verus!

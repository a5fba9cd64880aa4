use vstd::prelude::*;

verus! {

/// Number of cells across the default grid.
pub const GRID_WIDTH: i32 = 30;

/// Number of cells down the default grid.
pub const GRID_HEIGHT: i32 = 20;

/// One grid position, in cell units, with the origin at the grid's center.
#[derive(Clone, Copy, PartialEq, Eq, Debug, Hash, Structural)]
pub struct Cell {
    pub x: i32,
    pub y: i32,
}

impl Cell {
    pub fn new(x: i32, y: i32) -> (r: Cell)
        ensures
            r.x == x,
            r.y == y,
    {
        Cell { x, y }
    }
}

/// Lowest coordinate of an axis of `extent` cells centered on zero.
pub open spec fn axis_low(extent: int) -> int {
    -(extent / 2)
}

/// One past the highest coordinate of an axis of `extent` cells centered on zero.
pub open spec fn axis_high(extent: int) -> int {
    extent / 2
}

/// `c` lies in `[-width/2, width/2) x [-height/2, height/2)`.
pub open spec fn in_grid(c: Cell, width: int, height: int) -> bool {
    &&& axis_low(width) <= c.x < axis_high(width)
    &&& axis_low(height) <= c.y < axis_high(height)
}

/// Whether `c` is one of the cells of `cells`.
pub fn contains_cell(cells: &[Cell], c: Cell) -> (r: bool)
    ensures
        r == cells@.contains(c),
{
    let mut i: usize = 0;
    while i < cells.len()
        invariant
            i <= cells@.len(),
            forall|j: int| 0 <= j < i ==> cells@[j] != c,
        decreases cells@.len() - i,
    {
        if cells[i] == c {
            assert(cells@[i as int] == c);
            return true;
        }
        i = i + 1;
    }
    proof {
        if cells@.contains(c) {
            let j = choose|j: int| 0 <= j < cells@.len() && cells@[j] == c;
            assert(cells@[j] != c);
        }
    }
    false
}

} // verus!

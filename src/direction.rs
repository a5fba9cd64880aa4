use vstd::prelude::*;

use crate::cell::Cell;

verus! {

/// A heading of the snake on the grid; `Up` is toward larger `y`.
#[derive(Clone, Copy, PartialEq, Eq, Debug, Hash, Structural)]
pub enum Direction {
    Up,
    Down,
    Left,
    Right,
}

/// The heading that reverses `d`: Up and Down, Left and Right.
pub open spec fn reverse_of(d: Direction) -> Direction {
    match d {
        Direction::Up => Direction::Down,
        Direction::Down => Direction::Up,
        Direction::Left => Direction::Right,
        Direction::Right => Direction::Left,
    }
}

/// Horizontal unit step of `d`.
pub open spec fn step_x(d: Direction) -> int {
    match d {
        Direction::Left => -1,
        Direction::Right => 1,
        _ => 0,
    }
}

/// Vertical unit step of `d`.
pub open spec fn step_y(d: Direction) -> int {
    match d {
        Direction::Up => 1,
        Direction::Down => -1,
        _ => 0,
    }
}

/// The neighbour of `c` in direction `d` can be written with `i32` coordinates.
pub open spec fn can_move(c: Cell, d: Direction) -> bool {
    &&& i32::MIN <= c.x + step_x(d) <= i32::MAX
    &&& i32::MIN <= c.y + step_y(d) <= i32::MAX
}

/// The neighbour of `c` in direction `d` (meaningful where `can_move(c, d)`).
pub open spec fn moved(c: Cell, d: Direction) -> Cell {
    Cell { x: (c.x + step_x(d)) as i32, y: (c.y + step_y(d)) as i32 }
}

/// The heading after `requested` is offered to a snake heading `current`:
/// a request for the exact reverse is ignored, any other is taken.
pub open spec fn heading_after(current: Direction, requested: Direction) -> Direction {
    if requested == reverse_of(current) {
        current
    } else {
        requested
    }
}

impl Direction {
    pub fn opposite(&self) -> (r: Direction)
        ensures
            r == reverse_of(*self),
    {
        match self {
            Direction::Up => Direction::Down,
            Direction::Down => Direction::Up,
            Direction::Left => Direction::Right,
            Direction::Right => Direction::Left,
        }
    }

    /// The neighbour of `c` one cell along this direction.
    pub fn advance(&self, c: Cell) -> (r: Cell)
        requires
            can_move(c, *self),
        ensures
            r == moved(c, *self),
    {
        match self {
            Direction::Up => Cell { x: c.x, y: c.y + 1 },
            Direction::Down => Cell { x: c.x, y: c.y - 1 },
            Direction::Left => Cell { x: c.x - 1, y: c.y },
            Direction::Right => Cell { x: c.x + 1, y: c.y },
        }
    }
}

/// The heading asked for by the keys pressed in one frame, the first of
/// up, down, left, right that is pressed; `None` when none is.
pub fn requested_direction(up: bool, down: bool, left: bool, right: bool) -> (r: Option<Direction>)
    ensures
        r == (if up {
            Some(Direction::Up)
        } else if down {
            Some(Direction::Down)
        } else if left {
            Some(Direction::Left)
        } else if right {
            Some(Direction::Right)
        } else {
            None
        }),
{
    if up {
        Some(Direction::Up)
    } else if down {
        Some(Direction::Down)
    } else if left {
        Some(Direction::Left)
    } else if right {
        Some(Direction::Right)
    } else {
        None
    }
}

/// A request for the reverse of the heading just taken changes nothing, and a
/// request that is not a reversal is taken as asked.
pub proof fn lemma_reverse_after_turn_is_ignored(current: Direction, h: Direction)
    ensures
        heading_after(heading_after(current, h), reverse_of(h)) == heading_after(current, h),
        h != reverse_of(current) ==> heading_after(current, h) == h,
        h != reverse_of(current) ==> heading_after(h, reverse_of(h)) == h,
{
}

} // verus!

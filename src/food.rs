use vstd::prelude::*;

use rand::RngExt;

use crate::cell::{axis_high, axis_low, contains_cell, in_grid, Cell};

verus! {

/// The live food item and the cell it stands on.
#[derive(Clone, Copy, PartialEq, Eq, Debug, Hash, Structural)]
pub struct Food {
    pub cell: Cell,
}

/// Why no food could be placed.
#[derive(Clone, Copy, PartialEq, Eq, Debug, Hash, Structural)]
pub enum SpawnError {
    /// Every cell of the grid is occupied.
    BoardFull,
}

/// Random draws made before the spawner falls back to scanning the grid.
pub const SPAWN_ATTEMPTS: u32 = 64;

/// Keeps at most one food item on a grid of `width` by `height` cells,
/// placed only on cells that are not occupied.
#[derive(Clone, Copy, Debug)]
pub struct FoodSpawner {
    width: i32,
    height: i32,
    food: Option<Food>,
}

/// Every cell of the grid is among `occupied`.
pub open spec fn grid_full(occupied: Seq<Cell>, width: int, height: int) -> bool {
    forall|c: Cell| in_grid(c, width, height) ==> occupied.contains(c)
}

/// Relies on rand's `RngExt::random_range` over the thread-local generator:
/// for `lo < hi` it returns a value in `lo..hi` (it panics on an empty range).
#[verifier::external_body]
fn random_between(lo: i32, hi: i32) -> (r: i32)
    requires
        lo < hi,
    ensures
        lo <= r < hi,
{
    rand::rng().random_range(lo..hi)
}

impl FoodSpawner {
    pub closed spec fn grid_width(&self) -> int {
        self.width as int
    }

    pub closed spec fn grid_height(&self) -> int {
        self.height as int
    }

    /// The cell of the live food, if any.
    pub closed spec fn food_cell(&self) -> Option<Cell> {
        match self.food {
            Some(f) => Some(f.cell),
            None => None,
        }
    }

    pub closed spec fn wf(&self) -> bool {
        &&& self.width >= 0
        &&& self.height >= 0
        &&& self.food matches Some(f) ==> in_grid(f.cell, self.width as int, self.height as int)
    }

    /// A spawner with no food, on a grid of `width` by `height` cells.
    pub fn new(width: i32, height: i32) -> (r: FoodSpawner)
        requires
            width >= 0,
            height >= 0,
        ensures
            r.wf(),
            r.grid_width() == width,
            r.grid_height() == height,
            r.food_cell() is None,
    {
        FoodSpawner { width, height, food: None }
    }

    pub fn width(&self) -> (r: i32)
        ensures
            r == self.grid_width(),
    {
        self.width
    }

    pub fn height(&self) -> (r: i32)
        ensures
            r == self.grid_height(),
    {
        self.height
    }

    /// The live food's cell, if any.
    pub fn food(&self) -> (r: Option<Cell>)
        ensures
            r == self.food_cell(),
    {
        match self.food {
            Some(f) => Some(f.cell),
            None => None,
        }
    }

    /// Whether `c` lies on this spawner's grid.
    pub fn in_bounds(&self, c: Cell) -> (r: bool)
        requires
            self.wf(),
        ensures
            r == in_grid(c, self.grid_width(), self.grid_height()),
    {
        -(self.width / 2) <= c.x && c.x < self.width / 2 && -(self.height / 2) <= c.y && c.y
            < self.height / 2
    }

    /// Places food on `candidate` when there is no food yet and `candidate` is a
    /// free cell of the grid; says whether it did.
    pub fn try_place(&mut self, candidate: Cell, occupied: &[Cell]) -> (r: bool)
        requires
            old(self).wf(),
        ensures
            final(self).wf(),
            final(self).grid_width() == old(self).grid_width(),
            final(self).grid_height() == old(self).grid_height(),
            r == (old(self).food_cell() is None && in_grid(
                candidate,
                old(self).grid_width(),
                old(self).grid_height(),
            ) && !occupied@.contains(candidate)),
            r ==> final(self).food_cell() == Some(candidate),
            !r ==> *final(self) == *old(self),
    {
        if self.food.is_none() && self.in_bounds(candidate) && !contains_cell(occupied, candidate) {
            self.food = Some(Food { cell: candidate });
            true
        } else {
            false
        }
    }

    /// The first free cell of the grid, scanning columns from the left and
    /// each column from the bottom; `None` when every cell is occupied.
    pub fn first_free_cell(&self, occupied: &[Cell]) -> (r: Option<Cell>)
        requires
            self.wf(),
        ensures
            r is None <==> grid_full(occupied@, self.grid_width(), self.grid_height()),
            r matches Some(c) ==> in_grid(c, self.grid_width(), self.grid_height())
                && !occupied@.contains(c),
    {
        let ghost w = self.width as int;
        let ghost h = self.height as int;
        let x_low: i32 = -(self.width / 2);
        let x_high: i32 = self.width / 2;
        let y_low: i32 = -(self.height / 2);
        let y_high: i32 = self.height / 2;
        let mut x: i32 = x_low;
        while x < x_high
            invariant
                self.wf(),
                w == self.width,
                h == self.height,
                x_low == axis_low(w),
                x_high == axis_high(w),
                y_low == axis_low(h),
                y_high == axis_high(h),
                x_low <= x <= x_high,
                forall|c: Cell| in_grid(c, w, h) && c.x < x ==> occupied@.contains(c),
            decreases x_high - x,
        {
            let mut y: i32 = y_low;
            while y < y_high
                invariant
                    self.wf(),
                    w == self.width,
                    h == self.height,
                    x_low == axis_low(w),
                    x_high == axis_high(w),
                    y_low == axis_low(h),
                    y_high == axis_high(h),
                    x_low <= x < x_high,
                    y_low <= y <= y_high,
                    forall|c: Cell| in_grid(c, w, h) && c.x < x ==> occupied@.contains(c),
                    forall|c: Cell| in_grid(c, w, h) && c.x == x && c.y < y ==> occupied@.contains(c),
                decreases y_high - y,
            {
                let c = Cell { x, y };
                if !contains_cell(occupied, c) {
                    return Some(c);
                }
                y = y + 1;
            }
            x = x + 1;
        }
        None
    }

    /// When there is no food, places it on a free cell of the grid and returns
    /// that cell. Cells are first drawn at random, a bounded number of times,
    /// and then the grid is scanned. With food already present nothing
    /// changes and `Ok(None)` is returned; with every cell occupied, nothing
    /// changes and `BoardFull` is returned.
    pub fn maybe_spawn(&mut self, occupied: &[Cell]) -> (r: Result<Option<Cell>, SpawnError>)
        requires
            old(self).wf(),
        ensures
            final(self).wf(),
            final(self).grid_width() == old(self).grid_width(),
            final(self).grid_height() == old(self).grid_height(),
            old(self).food_cell() is Some ==> r == Ok::<Option<Cell>, SpawnError>(None),
            old(self).food_cell() is Some ==> *final(self) == *old(self),
            old(self).food_cell() is None ==> (r is Err <==> grid_full(
                occupied@,
                old(self).grid_width(),
                old(self).grid_height(),
            )),
            r is Err ==> *final(self) == *old(self),
            old(self).food_cell() is None ==> r != Ok::<Option<Cell>, SpawnError>(None),
            r matches Ok(Some(c)) ==> in_grid(c, old(self).grid_width(), old(self).grid_height())
                && !occupied@.contains(c) && final(self).food_cell() == Some(c),
    {
        if self.food.is_some() {
            return Ok(None);
        }
        let x_low: i32 = -(self.width / 2);
        let x_high: i32 = self.width / 2;
        let y_low: i32 = -(self.height / 2);
        let y_high: i32 = self.height / 2;
        if x_low < x_high && y_low < y_high {
            let mut attempt: u32 = 0;
            while attempt < SPAWN_ATTEMPTS
                invariant
                    *self == *old(self),
                    self.wf(),
                    self.food is None,
                    x_low < x_high,
                    y_low < y_high,
                decreases SPAWN_ATTEMPTS - attempt,
            {
                let x = random_between(x_low, x_high);
                let y = random_between(y_low, y_high);
                let candidate = Cell { x, y };
                if self.try_place(candidate, occupied) {
                    return Ok(Some(candidate));
                }
                attempt = attempt + 1;
            }
        }
        match self.first_free_cell(occupied) {
            Some(c) => {
                self.food = Some(Food { cell: c });
                Ok(Some(c))
            },
            None => Err(SpawnError::BoardFull),
        }
    }

    /// When the live food stands on `head`, removes it and returns its cell;
    /// otherwise nothing changes and `None` is returned.
    pub fn consume_if_hit(&mut self, head: Cell) -> (r: Option<Cell>)
        requires
            old(self).wf(),
        ensures
            final(self).wf(),
            final(self).grid_width() == old(self).grid_width(),
            final(self).grid_height() == old(self).grid_height(),
            r == eaten(old(self).food_cell(), head),
            final(self).food_cell() == food_left(old(self).food_cell(), head),
            r is None ==> *final(self) == *old(self),
    {
        match self.food {
            Some(f) => {
                if f.cell == head {
                    self.food = None;
                    Some(f.cell)
                } else {
                    None
                }
            },
            None => None,
        }
    }
}

/// What `consume_if_hit(head)` returns with food at `food`.
pub open spec fn eaten(food: Option<Cell>, head: Cell) -> Option<Cell> {
    match food {
        Some(c) => if c == head {
            Some(c)
        } else {
            None
        },
        None => None,
    }
}

/// Where food remains after `consume_if_hit(head)` with food at `food`.
pub open spec fn food_left(food: Option<Cell>, head: Cell) -> Option<Cell> {
    if eaten(food, head) is Some {
        None
    } else {
        food
    }
}

/// Food just placed on a cell is eaten by a head on that same cell, which
/// returns that cell and leaves no food behind.
pub proof fn lemma_spawn_then_consume(spawner: FoodSpawner, spawned: Cell)
    requires
        spawner.food_cell() == Some(spawned),
    ensures
        eaten(spawner.food_cell(), spawned) == Some(spawned),
        food_left(spawner.food_cell(), spawned) is None,
{
}

} // verus!

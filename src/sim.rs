use vstd::prelude::*;

use crate::cell::{in_grid, Cell, GRID_HEIGHT, GRID_WIDTH};
use crate::direction::{can_move, heading_after, Direction};
use crate::food::{grid_full, FoodSpawner, SpawnError};
use crate::snake::{start_cells, stepped, LastTailPosition, SnakeState};

verus! {

/// What one tick did.
#[derive(Clone, Copy, PartialEq, Eq, Debug)]
pub struct TickOutcome {
    /// The snake moved one cell.
    pub moved: bool,
    /// The cell of the food eaten this tick, if any.
    pub eaten: Option<Cell>,
    /// The food placed this tick (`Ok(None)` when food was already there).
    pub spawned: Result<Option<Cell>, SpawnError>,
}

/// The whole simulation: the snake, the food, and the tail's cell from
/// before the latest step.
#[derive(Debug)]
pub struct SimulationState {
    snake: SnakeState,
    spawner: FoodSpawner,
    last_tail: LastTailPosition,
}

/// The heading after an optional request is offered to a snake heading `current`.
pub open spec fn heading_on_request(current: Direction, request: Option<Direction>) -> Direction {
    match request {
        Some(d) => heading_after(current, d),
        None => current,
    }
}

impl SimulationState {
    pub closed spec fn snake_state(&self) -> SnakeState {
        self.snake
    }

    pub closed spec fn spawner_state(&self) -> FoodSpawner {
        self.spawner
    }

    pub closed spec fn last_tail_cell(&self) -> Option<Cell> {
        self.last_tail.0
    }

    pub open spec fn wf(&self) -> bool {
        self.snake_state().wf() && self.spawner_state().wf()
    }

    /// The chain after this tick's move: stepped along `heading` when a move
    /// is due, unchanged otherwise.
    pub open spec fn moved_cells(&self, heading: Direction, move_due: bool) -> Seq<Cell> {
        if move_due {
            stepped(self.snake_state().cells(), heading)
        } else {
            self.snake_state().cells()
        }
    }

    /// The start of play on the default grid: the initial snake, no food, and
    /// no step taken yet.
    pub fn new() -> (r: SimulationState)
        ensures
            r.wf(),
            r.snake_state().cells() == start_cells(),
            r.snake_state().heading() == Direction::Right,
            r.spawner_state().grid_width() == GRID_WIDTH,
            r.spawner_state().grid_height() == GRID_HEIGHT,
            r.spawner_state().food_cell() is None,
            r.last_tail_cell() is None,
    {
        SimulationState {
            snake: SnakeState::new(),
            spawner: FoodSpawner::new(GRID_WIDTH, GRID_HEIGHT),
            last_tail: LastTailPosition(None),
        }
    }

    /// A simulation over the given snake and spawner, with no step taken yet.
    pub fn from_parts(snake: SnakeState, spawner: FoodSpawner) -> (r: SimulationState)
        ensures
            r.snake_state() == snake,
            r.spawner_state() == spawner,
            r.last_tail_cell() is None,
    {
        SimulationState { snake, spawner, last_tail: LastTailPosition(None) }
    }

    pub fn snake(&self) -> (r: &SnakeState)
        ensures
            *r == self.snake_state(),
    {
        &self.snake
    }

    pub fn spawner(&self) -> (r: &FoodSpawner)
        ensures
            *r == self.spawner_state(),
    {
        &self.spawner
    }

    pub fn last_tail(&self) -> (r: LastTailPosition)
        ensures
            r.0 == self.last_tail_cell(),
    {
        self.last_tail
    }

    /// Whether a move along the heading that `request` would leave is
    /// representable, so that `tick(request, true)` may be called.
    pub fn can_advance(&self, request: Option<Direction>) -> (r: bool)
        requires
            self.wf(),
        ensures
            r == can_move(
                self.snake_state().cells()[0],
                heading_on_request(self.snake_state().heading(), request),
            ),
    {
        let heading = match request {
            Some(d) => if d != self.snake.direction().opposite() {
                d
            } else {
                self.snake.direction()
            },
            None => self.snake.direction(),
        };
        let c = self.snake.head_cell();
        match heading {
            Direction::Up => c.y < i32::MAX,
            Direction::Down => c.y > i32::MIN,
            Direction::Left => c.x > i32::MIN,
            Direction::Right => c.x < i32::MAX,
        }
    }

    /// One tick: the heading request goes through the anti-reversal gate; when
    /// `move_due` (the clock fired) the snake steps, and if its head lands on
    /// the food the food is eaten and the snake grows on the cell its tail
    /// left; finally food is placed if there is none.
    pub fn tick(&mut self, request: Option<Direction>, move_due: bool) -> (r: TickOutcome)
        requires
            old(self).wf(),
            move_due ==> can_move(
                old(self).snake_state().cells()[0],
                heading_on_request(old(self).snake_state().heading(), request),
            ),
        ensures
            final(self).wf(),
            ({
                let before = old(self).snake_state().cells();
                let heading = heading_on_request(old(self).snake_state().heading(), request);
                let moved = old(self).moved_cells(heading, move_due);
                let ate = move_due && old(self).spawner_state().food_cell() == Some(moved[0]);
                let food_mid = if ate {
                    None
                } else {
                    old(self).spawner_state().food_cell()
                };
                let after = final(self).snake_state().cells();
                let w = old(self).spawner_state().grid_width();
                let h = old(self).spawner_state().grid_height();
                &&& final(self).snake_state().heading() == heading
                &&& after == (if ate {
                    moved.push(before.last())
                } else {
                    moved
                })
                &&& r.moved == move_due
                &&& r.eaten == (if ate {
                    Some(moved[0])
                } else {
                    None
                })
                &&& final(self).last_tail_cell() == (if move_due {
                    Some(before.last())
                } else {
                    old(self).last_tail_cell()
                })
                &&& final(self).spawner_state().grid_width() == w
                &&& final(self).spawner_state().grid_height() == h
                &&& food_mid is Some ==> r.spawned == Ok::<Option<Cell>, SpawnError>(None)
                    && final(self).spawner_state().food_cell() == food_mid
                &&& food_mid is None ==> (r.spawned is Err <==> grid_full(after, w, h))
                &&& r.spawned is Err ==> final(self).spawner_state().food_cell() is None
                &&& food_mid is None && r.spawned is Ok ==> (r.spawned matches Ok(Some(c)) && in_grid(
                    c,
                    w,
                    h,
                ) && !after.contains(c) && final(self).spawner_state().food_cell() == Some(c))
            }),
    {
        if let Some(d) = request {
            self.snake.set_heading(d);
        }
        let mut eaten: Option<Cell> = None;
        if move_due {
            let tail = self.snake.step();
            self.last_tail = LastTailPosition(Some(tail));
            let head = self.snake.head_cell();
            eaten = self.spawner.consume_if_hit(head);
            if eaten.is_some() {
                self.snake.grow(tail);
            }
        }
        let occupied = self.snake.body();
        let spawned = self.spawner.maybe_spawn(occupied.as_slice());
        TickOutcome { moved: move_due, eaten, spawned }
    }
}

} // verus!

use snake_core::cell::{contains_cell, Cell, GRID_HEIGHT, GRID_WIDTH};
use snake_core::direction::{requested_direction, Direction};
use snake_core::food::{FoodSpawner, SpawnError};
use snake_core::sim::SimulationState;
use snake_core::snake::SnakeState;

fn c(x: i32, y: i32) -> Cell {
    Cell::new(x, y)
}

fn snake_of(cells: &[(i32, i32)], d: Direction) -> SnakeState {
    let v: Vec<Cell> = cells.iter().map(|&(x, y)| c(x, y)).collect();
    SnakeState::from_cells(v, d).unwrap()
}

fn in_default_grid(p: Cell) -> bool {
    -GRID_WIDTH / 2 <= p.x && p.x < GRID_WIDTH / 2 && -GRID_HEIGHT / 2 <= p.y && p.y < GRID_HEIGHT / 2
}

#[test]
fn opposite_pairs() {
    assert_eq!(Direction::Up.opposite(), Direction::Down);
    assert_eq!(Direction::Down.opposite(), Direction::Up);
    assert_eq!(Direction::Left.opposite(), Direction::Right);
    assert_eq!(Direction::Right.opposite(), Direction::Left);
}

#[test]
fn advance_moves_one_cell() {
    assert_eq!(Direction::Up.advance(c(3, 4)), c(3, 5));
    assert_eq!(Direction::Down.advance(c(3, 4)), c(3, 3));
    assert_eq!(Direction::Left.advance(c(3, 4)), c(2, 4));
    assert_eq!(Direction::Right.advance(c(3, 4)), c(4, 4));
}

#[test]
fn requested_direction_takes_first_pressed() {
    assert_eq!(requested_direction(true, true, true, true), Some(Direction::Up));
    assert_eq!(requested_direction(false, true, true, false), Some(Direction::Down));
    assert_eq!(requested_direction(false, false, true, true), Some(Direction::Left));
    assert_eq!(requested_direction(false, false, false, true), Some(Direction::Right));
    assert_eq!(requested_direction(false, false, false, false), None);
}

#[test]
fn reverse_after_turn_is_ignored() {
    let all = [Direction::Up, Direction::Down, Direction::Left, Direction::Right];
    for h in all {
        let start = if h == Direction::Up || h == Direction::Down { Direction::Right } else { Direction::Up };
        let mut s = snake_of(&[(0, 0), (-1, 0)], start);
        s.set_heading(h);
        assert_eq!(s.direction(), h);
        s.set_heading(h.opposite());
        assert_eq!(s.direction(), h);
    }
}

#[test]
fn set_heading_rejects_reversal_and_accepts_turn() {
    let mut s = SnakeState::new();
    assert_eq!(s.direction(), Direction::Right);
    s.set_heading(Direction::Left);
    assert_eq!(s.direction(), Direction::Right);
    s.set_heading(Direction::Up);
    assert_eq!(s.direction(), Direction::Up);
    assert_eq!(s.body(), vec![c(0, 0), c(-1, 0), c(-2, 0)]);
}

#[test]
fn initial_snake_layout() {
    let s = SnakeState::new();
    assert_eq!(s.len(), 3);
    assert_eq!(s.head_cell(), c(0, 0));
    assert_eq!(s.tail_cell(), c(-2, 0));
    assert_eq!(s.body(), vec![c(0, 0), c(-1, 0), c(-2, 0)]);
}

#[test]
fn from_cells_rejects_empty_chain() {
    assert!(SnakeState::from_cells(Vec::new(), Direction::Up).is_none());
}

#[test]
fn step_scenario_moves_right() {
    let mut s = snake_of(&[(0, 0), (-1, 0), (-2, 0)], Direction::Right);
    let tail = s.step();
    assert_eq!(tail, c(-2, 0));
    assert_eq!(s.body(), vec![c(1, 0), c(0, 0), c(-1, 0)]);
    assert_eq!(s.direction(), Direction::Right);
}

#[test]
fn grow_after_step_scenario() {
    let mut s = snake_of(&[(0, 0), (-1, 0), (-2, 0)], Direction::Right);
    let tail = s.step();
    s.grow(c(-2, 0));
    assert_eq!(tail, c(-2, 0));
    assert_eq!(s.body(), vec![c(1, 0), c(0, 0), c(-1, 0), c(-2, 0)]);
}

#[test]
fn step_keeps_length() {
    let mut s = snake_of(&[(5, 5), (5, 4), (4, 4), (3, 4), (3, 5)], Direction::Up);
    for _ in 0..7 {
        let before = s.len();
        s.step();
        assert_eq!(s.len(), before);
    }
    assert_eq!(s.head_cell(), c(5, 12));
}

#[test]
fn step_of_single_cell_relocates_head() {
    let mut s = snake_of(&[(2, 2)], Direction::Down);
    let tail = s.step();
    assert_eq!(tail, c(2, 2));
    assert_eq!(s.body(), vec![c(2, 1)]);
}

#[test]
fn step_keeps_cells_distinct() {
    let mut s = snake_of(&[(0, 0), (0, -1), (-1, -1), (-1, 0)], Direction::Left);
    // The new head lands where the tail just left, so no cell repeats.
    s.step();
    let body = s.body();
    assert_eq!(body, vec![c(-1, 0), c(0, 0), c(0, -1), c(-1, -1)]);
    for i in 0..body.len() {
        for j in 0..body.len() {
            if i != j {
                assert_ne!(body[i], body[j]);
            }
        }
    }
}

#[test]
fn grow_appends_tail() {
    let mut s = SnakeState::new();
    s.grow(c(7, 7));
    assert_eq!(s.len(), 4);
    assert_eq!(s.tail_cell(), c(7, 7));
    assert_eq!(s.head_cell(), c(0, 0));
}

#[test]
fn can_step_at_coordinate_limit() {
    let s = snake_of(&[(i32::MAX, 0)], Direction::Right);
    assert!(!s.can_step());
    let s = snake_of(&[(i32::MAX, 0)], Direction::Up);
    assert!(s.can_step());
    let s = snake_of(&[(0, i32::MIN)], Direction::Down);
    assert!(!s.can_step());
}

#[test]
fn contains_cell_finds_members() {
    let v = vec![c(1, 2), c(3, 4)];
    assert!(contains_cell(&v, c(3, 4)));
    assert!(!contains_cell(&v, c(4, 3)));
    assert!(!contains_cell(&[], c(0, 0)));
}

#[test]
fn spawn_never_on_snake() {
    let s = SnakeState::new();
    let occupied = s.body();
    for _ in 0..500 {
        let mut f = FoodSpawner::new(GRID_WIDTH, GRID_HEIGHT);
        let placed = f.maybe_spawn(&occupied).unwrap().unwrap();
        assert!(!occupied.contains(&placed));
        assert!(in_default_grid(placed));
        assert_eq!(f.food(), Some(placed));
    }
}

#[test]
fn spawn_draws_varied_cells() {
    let mut seen: Vec<Cell> = Vec::new();
    for _ in 0..50 {
        let mut f = FoodSpawner::new(GRID_WIDTH, GRID_HEIGHT);
        let placed = f.maybe_spawn(&[]).unwrap().unwrap();
        if !seen.contains(&placed) {
            seen.push(placed);
        }
    }
    assert!(seen.len() > 1);
}

#[test]
fn spawn_with_food_present_is_noop() {
    let mut f = FoodSpawner::new(GRID_WIDTH, GRID_HEIGHT);
    assert!(f.try_place(c(3, 3), &[]));
    assert_eq!(f.maybe_spawn(&[]), Ok(None));
    assert_eq!(f.food(), Some(c(3, 3)));
}

#[test]
fn spawn_on_full_board_reports_error() {
    let mut f = FoodSpawner::new(2, 2);
    let all = vec![c(-1, -1), c(-1, 0), c(0, -1), c(0, 0)];
    assert_eq!(f.maybe_spawn(&all), Err(SpawnError::BoardFull));
    assert_eq!(f.food(), None);
    let mut empty = FoodSpawner::new(0, 0);
    assert_eq!(empty.maybe_spawn(&[]), Err(SpawnError::BoardFull));
}

#[test]
fn spawn_finds_last_free_cell() {
    let mut f = FoodSpawner::new(2, 2);
    let three = vec![c(-1, -1), c(0, -1), c(0, 0)];
    assert_eq!(f.maybe_spawn(&three), Ok(Some(c(-1, 0))));
    assert_eq!(f.food(), Some(c(-1, 0)));
}

#[test]
fn first_free_cell_scans_in_order() {
    let f = FoodSpawner::new(4, 2);
    assert_eq!(f.first_free_cell(&[]), Some(c(-2, -1)));
    assert_eq!(f.first_free_cell(&[c(-2, -1)]), Some(c(-2, 0)));
    assert_eq!(f.first_free_cell(&[c(-2, -1), c(-2, 0)]), Some(c(-1, -1)));
    let g = FoodSpawner::new(1, 1);
    assert_eq!(g.first_free_cell(&[]), None);
}

#[test]
fn try_place_checks_grid_and_occupancy() {
    let mut f = FoodSpawner::new(4, 4);
    assert!(!f.try_place(c(2, 0), &[]));
    assert!(!f.try_place(c(0, -3), &[]));
    assert!(!f.try_place(c(1, 1), &[c(1, 1)]));
    assert_eq!(f.food(), None);
    assert!(f.try_place(c(-2, 1), &[c(1, 1)]));
    assert_eq!(f.food(), Some(c(-2, 1)));
    assert!(!f.try_place(c(0, 0), &[]));
    assert_eq!(f.food(), Some(c(-2, 1)));
}

#[test]
fn spawn_then_consume_round_trip() {
    let mut f = FoodSpawner::new(GRID_WIDTH, GRID_HEIGHT);
    let placed = f.maybe_spawn(&SnakeState::new().body()).unwrap().unwrap();
    assert_eq!(f.consume_if_hit(placed), Some(placed));
    assert_eq!(f.food(), None);
}

#[test]
fn consume_misses_elsewhere() {
    let mut f = FoodSpawner::new(GRID_WIDTH, GRID_HEIGHT);
    assert_eq!(f.consume_if_hit(c(0, 0)), None);
    assert!(f.try_place(c(1, 0), &[]));
    assert_eq!(f.consume_if_hit(c(0, 1)), None);
    assert_eq!(f.food(), Some(c(1, 0)));
}

#[test]
fn tick_without_move_only_turns() {
    let mut sim = SimulationState::new();
    let out = sim.tick(Some(Direction::Down), false);
    assert!(!out.moved);
    assert_eq!(out.eaten, None);
    assert_eq!(sim.snake().direction(), Direction::Down);
    assert_eq!(sim.snake().body(), vec![c(0, 0), c(-1, 0), c(-2, 0)]);
    assert_eq!(sim.last_tail().0, None);
    let food = out.spawned.unwrap().unwrap();
    assert_eq!(sim.spawner().food(), Some(food));
}

#[test]
fn tick_moves_and_eats() {
    let mut spawner = FoodSpawner::new(GRID_WIDTH, GRID_HEIGHT);
    assert!(spawner.try_place(c(1, 0), &[]));
    let mut sim = SimulationState::from_parts(SnakeState::new(), spawner);
    assert!(sim.can_advance(Some(Direction::Left)));
    let out = sim.tick(Some(Direction::Left), true);
    assert!(out.moved);
    assert_eq!(out.eaten, Some(c(1, 0)));
    assert_eq!(sim.snake().body(), vec![c(1, 0), c(0, 0), c(-1, 0), c(-2, 0)]);
    assert_eq!(sim.last_tail().0, Some(c(-2, 0)));
    let food = out.spawned.unwrap().unwrap();
    assert!(!sim.snake().body().contains(&food));
}

#[test]
fn tick_moves_without_food_on_path() {
    let mut spawner = FoodSpawner::new(GRID_WIDTH, GRID_HEIGHT);
    assert!(spawner.try_place(c(5, 5), &[]));
    let mut sim = SimulationState::from_parts(SnakeState::new(), spawner);
    let out = sim.tick(Some(Direction::Up), true);
    assert_eq!(out.eaten, None);
    assert_eq!(out.spawned, Ok(None));
    assert_eq!(sim.snake().body(), vec![c(0, 1), c(0, 0), c(-1, 0)]);
    assert_eq!(sim.last_tail().0, Some(c(-2, 0)));
    assert_eq!(sim.spawner().food(), Some(c(5, 5)));
}

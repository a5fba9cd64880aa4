use vstd::prelude::*;

use crate::cell::Cell;
use crate::direction::{can_move, heading_after, moved, reverse_of, Direction};

verus! {

/// The snake's head marker: the direction it is moving in.
#[derive(Clone, Copy, PartialEq, Eq, Debug)]
pub struct SnakeHead {
    pub direction: Direction,
}

/// The body chain, head first: index 0 is the head, the last is the tail.
#[derive(Debug)]
pub struct SnakeSegments(pub Vec<Cell>);

/// The tail's cell just before the latest step, where a new segment grows.
#[derive(Clone, Copy, PartialEq, Eq, Debug, Default)]
pub struct LastTailPosition(pub Option<Cell>);

/// A snake: its body chain and its heading.
#[derive(Debug)]
pub struct SnakeState {
    head: SnakeHead,
    segments: SnakeSegments,
}

/// The chain after one step in direction `d`: a new head next to the old
/// one, and every other segment on the cell its predecessor held.
pub open spec fn stepped(cells: Seq<Cell>, d: Direction) -> Seq<Cell>
    recommends
        cells.len() >= 1,
{
    seq![moved(cells[0], d)] + cells.drop_last()
}

/// Stepping keeps the chain free of repeated cells when it was so before and
/// the new head lands on none of the cells that stay occupied.
pub proof fn lemma_step_keeps_distinct(cells: Seq<Cell>, d: Direction)
    requires
        cells.len() >= 1,
        cells.no_duplicates(),
        !cells.drop_last().contains(moved(cells[0], d)),
    ensures
        stepped(cells, d).no_duplicates(),
        stepped(cells, d).len() == cells.len(),
{
    let s = stepped(cells, d);
    let rest = cells.drop_last();
    assert forall|i: int, j: int| 0 <= i < s.len() && 0 <= j < s.len() && i != j implies s[i]
        != s[j] by {
        if i == 0 {
            assert(s[j] == rest[j - 1]);
        } else if j == 0 {
            assert(s[i] == rest[i - 1]);
        } else {
            assert(s[i] == cells[i - 1]);
            assert(s[j] == cells[j - 1]);
        }
    }
}

/// The chain at the start of play: the center cell and the two to its left.
pub open spec fn start_cells() -> Seq<Cell> {
    seq![Cell { x: 0i32, y: 0i32 }, Cell { x: -1i32, y: 0i32 }, Cell { x: -2i32, y: 0i32 }]
}

impl SnakeState {
    /// The body chain, head first.
    pub closed spec fn cells(&self) -> Seq<Cell> {
        self.segments.0@
    }

    /// The heading the next step moves along.
    pub closed spec fn heading(&self) -> Direction {
        self.head.direction
    }

    pub closed spec fn wf(&self) -> bool {
        self.segments.0@.len() >= 1
    }

    /// The snake at the start of play: head at the center, two body cells
    /// trailing to its left, heading right.
    pub fn new() -> (r: SnakeState)
        ensures
            r.wf(),
            r.cells() == start_cells(),
            r.heading() == Direction::Right,
    {
        let mut v: Vec<Cell> = Vec::new();
        v.push(Cell { x: 0, y: 0 });
        v.push(Cell { x: -1, y: 0 });
        v.push(Cell { x: -2, y: 0 });
        proof {
            assert(v@ =~= start_cells());
        }
        SnakeState { head: SnakeHead { direction: Direction::Right }, segments: SnakeSegments(v) }
    }

    /// A snake on the given chain (head first) and heading; `None` for an
    /// empty chain.
    pub fn from_cells(cells: Vec<Cell>, direction: Direction) -> (r: Option<SnakeState>)
        ensures
            cells@.len() == 0 <==> r is None,
            r matches Some(s) ==> s.wf() && s.cells() == cells@ && s.heading() == direction,
    {
        if cells.len() == 0 {
            None
        } else {
            Some(SnakeState { head: SnakeHead { direction }, segments: SnakeSegments(cells) })
        }
    }

    pub fn direction(&self) -> (r: Direction)
        ensures
            r == self.heading(),
    {
        self.head.direction
    }

    pub fn len(&self) -> (r: usize)
        ensures
            r == self.cells().len(),
    {
        self.segments.0.len()
    }

    /// The head's cell.
    pub fn head_cell(&self) -> (r: Cell)
        requires
            self.wf(),
        ensures
            r == self.cells()[0],
    {
        self.segments.0[0]
    }

    /// The tail's cell.
    pub fn tail_cell(&self) -> (r: Cell)
        requires
            self.wf(),
        ensures
            r == self.cells().last(),
    {
        self.segments.0[self.segments.0.len() - 1]
    }

    /// A copy of the body chain, head first.
    pub fn body(&self) -> (r: Vec<Cell>)
        ensures
            r@ == self.cells(),
    {
        self.segments.0.clone()
    }

    /// Whether the next step's head cell has `i32` coordinates.
    pub fn can_step(&self) -> (r: bool)
        requires
            self.wf(),
        ensures
            r == can_move(self.cells()[0], self.heading()),
    {
        let c = self.segments.0[0];
        match self.head.direction {
            Direction::Up => c.y < i32::MAX,
            Direction::Down => c.y > i32::MIN,
            Direction::Left => c.x > i32::MIN,
            Direction::Right => c.x < i32::MAX,
        }
    }

    /// Offers a new heading: taken unless it exactly reverses the current one,
    /// in which case nothing changes.
    pub fn set_heading(&mut self, requested: Direction)
        requires
            old(self).wf(),
        ensures
            final(self).wf(),
            final(self).cells() == old(self).cells(),
            final(self).heading() == heading_after(old(self).heading(), requested),
            requested == reverse_of(old(self).heading()) ==> *final(self) == *old(self),
    {
        if requested != self.head.direction.opposite() {
            self.head.direction = requested;
        }
    }

    /// Moves the snake one cell along its heading and returns the tail's cell
    /// from before the move. Every segment after the head takes the cell its
    /// predecessor held, read from a snapshot taken before any write.
    pub fn step(&mut self) -> (r: Cell)
        requires
            old(self).wf(),
            can_move(old(self).cells()[0], old(self).heading()),
        ensures
            final(self).wf(),
            final(self).heading() == old(self).heading(),
            final(self).cells() == stepped(old(self).cells(), old(self).heading()),
            final(self).cells().len() == old(self).cells().len(),
            r == old(self).cells().last(),
            old(self).cells().no_duplicates() && !old(self).cells().drop_last().contains(
                moved(old(self).cells()[0], old(self).heading()),
            ) ==> final(self).cells().no_duplicates(),
    {
        let ghost before = self.segments.0@;
        let snapshot: Vec<Cell> = self.segments.0.clone();
        let n = snapshot.len();
        let new_head = self.head.direction.advance(snapshot[0]);
        let tail = snapshot[n - 1];
        let mut i: usize = 1;
        while i < n
            invariant
                1 <= i <= n,
                n == before.len(),
                snapshot@ == before,
                self.segments.0@.len() == n,
                self.head == old(self).head,
                forall|j: int| 1 <= j < i ==> self.segments.0@[j] == before[j - 1],
            decreases n - i,
        {
            self.segments.0.set(i, snapshot[i - 1]);
            i = i + 1;
        }
        self.segments.0.set(0, new_head);
        proof {
            assert(self.segments.0@ =~= stepped(before, self.head.direction));
            if before.no_duplicates() && !before.drop_last().contains(new_head) {
                lemma_step_keeps_distinct(before, self.head.direction);
            }
        }
        tail
    }

    /// Appends a segment at `at`, which becomes the new tail.
    pub fn grow(&mut self, at: Cell)
        requires
            old(self).wf(),
        ensures
            final(self).wf(),
            final(self).heading() == old(self).heading(),
            final(self).cells() == old(self).cells().push(at),
            final(self).cells().len() == old(self).cells().len() + 1,
            final(self).cells().last() == at,
    {
        self.segments.0.push(at);
    }
}

} // verus!

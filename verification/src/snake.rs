use vstd::prelude::*;

use crate::Direction;
use crate::cells::SnakeCell;
use crate::direction_code;
use crate::opposite;

verus! {

/// The snake: an ordered body of cells (head first, tail last), the
/// committed movement direction, and an input buffer holding at most one
/// requested direction change.
pub struct Snake {
    pub body: Vec<SnakeCell>,
    pub direction: Direction,
    pub pending_direction: Option<Direction>,
}

impl Snake {
    /// The body as a sequence of plain grid indices, head first.
    pub open spec fn body_seq(self) -> Seq<usize> {
        self.body@.map_values(|cell: SnakeCell| cell.0)
    }

    /// A snake always has at least a head.
    pub open spec fn wf(self) -> bool {
        self.body@.len() >= 1
    }

    /// The grid index the head sits on.
    pub open spec fn head_spec(self) -> usize {
        self.body@[0].0
    }

    /// True iff `position` appears anywhere in the body, head included.
    pub open spec fn occupies_spec(self, position: usize) -> bool {
        exists|i: int| 0 <= i < self.body@.len() && self.body@[i].0 == position
    }

    /// True iff `position` appears in the body behind the head. The head
    /// cell itself is excluded: it is about to vacate.
    pub open spec fn would_collide_spec(self, position: usize) -> bool {
        exists|i: int| 1 <= i < self.body@.len() && self.body@[i].0 == position
    }

    /// The direction the snake moves in once the buffered request is
    /// resolved: a request for the exact reverse is dropped, any other
    /// request replaces the committed direction.
    pub open spec fn effective_direction(self) -> Direction {
        match self.pending_direction {
            Option::Some(requested) => if requested == opposite(self.direction) {
                self.direction
            } else {
                requested
            },
            Option::None => self.direction,
        }
    }

    /// Seeds a snake of `size` cells ending at `spawn_index`: the head sits
    /// at `spawn_index` and each further segment one index before it. The
    /// spawn index must leave room for the whole run, or the tail would
    /// slip below index zero.
    pub fn new(spawn_index: usize, size: usize) -> (snake: Snake)
        requires
            1 <= size,
            size <= spawn_index + 1,
        ensures
            snake.body@.len() == size,
            forall|i: int| 0 <= i < size ==> snake.body@[i].0 == spawn_index - i,
            snake.direction == Direction::Right,
            snake.pending_direction is None,
    {
        let mut body: Vec<SnakeCell> = Vec::new();
        let mut i: usize = 0;
        while i < size
            invariant
                i <= size,
                size <= spawn_index + 1,
                body@.len() == i,
                forall|j: int| 0 <= j < i ==> body@[j].0 == spawn_index - j,
            decreases size - i,
        {
            body.push(SnakeCell(spawn_index - i));
            i = i + 1;
        }
        Snake { body, direction: Direction::Right, pending_direction: Option::None }
    }

    /// The grid index of the head.
    pub fn head_idx(&self) -> (idx: usize)
        requires
            self.wf(),
        ensures
            idx == self.head_spec(),
    {
        self.body[0].0
    }

    /// How many cells the body holds.
    pub fn len(&self) -> (n: usize)
        ensures
            n == self.body@.len(),
    {
        self.body.len()
    }

    /// Read-only snapshot of the body as plain indices, head first, for a
    /// rendering collaborator.
    pub fn body_cells(&self) -> (cells: Vec<usize>)
        ensures
            cells@ == self.body_seq(),
    {
        let mut cells: Vec<usize> = Vec::new();
        let mut i: usize = 0;
        while i < self.body.len()
            invariant
                i <= self.body@.len(),
                cells@.len() == i,
                forall|j: int| 0 <= j < i ==> cells@[j] == self.body@[j].0,
            decreases self.body@.len() - i,
        {
            cells.push(self.body[i].0);
            i = i + 1;
        }
        proof {
            assert(cells@ =~= self.body_seq());
        }
        cells
    }

    /// Buffers a direction change request to be applied on the next step.
    /// A second request before that step replaces the first: last writer
    /// wins, nothing queues.
    pub fn change_direction(&mut self, new_direction: Direction)
        ensures
            final(self).pending_direction == Option::Some(new_direction),
            final(self).body == old(self).body,
            final(self).direction == old(self).direction,
    {
        self.pending_direction = Option::Some(new_direction);
    }

    /// Resolves the buffered request: commits it unless it is the exact
    /// reverse of the current direction, and clears the buffer either way.
    pub fn update_direction(&mut self)
        ensures
            final(self).direction == old(self).effective_direction(),
            final(self).pending_direction is None,
            final(self).body == old(self).body,
    {
        match self.pending_direction {
            Option::Some(new_direction) => {
                let invalid_move = match (self.direction, new_direction) {
                    (Direction::Up, Direction::Down) => true,
                    (Direction::Down, Direction::Up) => true,
                    (Direction::Left, Direction::Right) => true,
                    (Direction::Right, Direction::Left) => true,
                    _ => false,
                };
                if !invalid_move {
                    self.direction = new_direction;
                }
                self.pending_direction = Option::None;
            },
            Option::None => {},
        }
    }

    /// One movement step: resolves the buffered direction, then the head
    /// moves to `next_cell` while every other segment takes the position of
    /// the segment in front of it. The length is unchanged.
    pub fn slither(&mut self, next_cell: SnakeCell)
        requires
            old(self).wf(),
        ensures
            final(self).direction == old(self).effective_direction(),
            final(self).pending_direction is None,
            final(self).body@.len() == old(self).body@.len(),
            final(self).body@[0] == next_cell,
            forall|i: int|
                1 <= i < final(self).body@.len() ==> final(self).body@[i] == old(self).body@[i - 1],
    {
        self.update_direction();
        let ghost body0 = self.body@;
        let ghost dir0 = self.direction;
        let mut i: usize = self.body.len() - 1;
        while i >= 1
            invariant
                self.body@.len() == body0.len(),
                body0.len() >= 1,
                i <= body0.len() - 1,
                self.direction == dir0,
                self.pending_direction is None,
                forall|j: int| 0 <= j <= i ==> self.body@[j] == body0[j],
                forall|j: int| i < j < body0.len() ==> self.body@[j] == body0[j - 1],
            decreases i,
        {
            let previous = self.body[i - 1];
            self.body[i] = previous;
            i = i - 1;
        }
        self.body[0] = next_cell;
    }

    /// Appends one tail segment at the position of the segment just behind
    /// the head; the twin cells separate again on the next step. A snake
    /// shorter than two segments does not grow.
    pub fn grow(&mut self)
        ensures
            old(self).body@.len() >= 2 ==> final(self).body@ == old(self).body@.push(
                old(self).body@[1],
            ),
            old(self).body@.len() < 2 ==> final(self).body == old(self).body,
            final(self).direction == old(self).direction,
            final(self).pending_direction == old(self).pending_direction,
    {
        if self.body.len() >= 2 {
            let cell = self.body[1];
            self.body.push(cell);
        }
    }

    /// Whether moving the head onto `position` would make the snake bite
    /// its own body.
    pub fn would_collide(&self, position: usize) -> (r: bool)
        ensures
            r == self.would_collide_spec(position),
    {
        let mut i: usize = 1;
        while i < self.body.len()
            invariant
                1 <= i,
                forall|j: int| 1 <= j < i ==> self.body@[j].0 != position,
            decreases self.body@.len() - i,
        {
            if self.body[i].0 == position {
                return true;
            }
            i = i + 1;
        }
        false
    }

    /// Whether any part of the snake, head included, sits on `position`.
    pub fn occupies(&self, position: usize) -> (r: bool)
        ensures
            r == self.occupies_spec(position),
    {
        let mut i: usize = 0;
        while i < self.body.len()
            invariant
                forall|j: int| 0 <= j < i ==> self.body@[j].0 != position,
            decreases self.body@.len() - i,
        {
            if self.body[i].0 == position {
                return true;
            }
            i = i + 1;
        }
        false
    }

    /// The committed direction as its integer code.
    pub fn direction_as_number(&self) -> (code: u8)
        ensures
            code == direction_code(self.direction),
    {
        match self.direction {
            Direction::Up => 0,
            Direction::Right => 1,
            Direction::Down => 2,
            Direction::Left => 3,
        }
    }
}

} // verus!

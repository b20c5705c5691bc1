//! Rules engine for a grid-based snake game: a toroidal `width x width`
//! grid, a snake whose body is an ordered run of cell indices, one buffered
//! direction change per step, self-collision detection, food placement that
//! avoids the body, growth, scoring, and the win/lose terminal states.

use vstd::prelude::*;

pub mod cells;
pub mod game;
pub mod random;
pub mod snake;
pub mod watch;

use crate::cells::SnakeCell;
use crate::game::GameEngine;
pub use crate::game::GameState;
use crate::random::DEFAULT_RNG_SEED;
use crate::random::RandomSource;
use crate::snake::Snake;

verus! {

/// A movement direction on the grid.
#[derive(Clone, Copy, PartialEq, Eq, Structural, Debug)]
pub enum Direction {
    Up,
    Down,
    Left,
    Right,
}

/// The exact reverse of a direction; a request for it is never honoured,
/// since it would fold the snake onto its own neck.
pub open spec fn opposite(direction: Direction) -> Direction {
    match direction {
        Direction::Up => Direction::Down,
        Direction::Down => Direction::Up,
        Direction::Left => Direction::Right,
        Direction::Right => Direction::Left,
    }
}

/// The small integer code for a direction, for a numeric front-end
/// protocol.
pub open spec fn direction_code(direction: Direction) -> u8 {
    match direction {
        Direction::Up => 0,
        Direction::Right => 1,
        Direction::Down => 2,
        Direction::Left => 3,
    }
}

/// How many cells a freshly spawned snake has.
pub const INITIAL_SNAKE_LENGTH: usize = 2;

/// How many random draws food placement makes before it falls back to a
/// plain scan for a free cell.
pub const MAX_PLACEMENT_DRAWS: usize = 64;

/// The body after a plain, non-growing move: the head sits on `next_head`
/// and every other segment has taken the position of the segment that was
/// in front of it.
pub open spec fn shifted_body(body: Seq<usize>, next_head: usize) -> Seq<usize> {
    seq![next_head] + body.drop_last()
}

/// The world grid: it owns the snake, the game-state machine, the food
/// cell, the score, and the random source, and resolves one simulation
/// step at a time.
pub struct World {
    pub width: usize,
    pub size: usize,
    pub snake: Snake,
    pub food_cell: Option<usize>,
    pub points: usize,
    pub game_engine: GameEngine,
    pub random: RandomSource,
}

impl World {
    /// The grid and the snake fit together: the grid is a square with room
    /// to spare, and the whole body lies inside it while leaving at least
    /// one cell free for food.
    pub open spec fn grid_wf(self) -> bool {
        &&& self.width >= 2
        &&& self.size == self.width * self.width
        &&& self.size >= 4
        &&& self.snake.body@.len() >= 2
        &&& self.snake.body@.len() <= self.size - 1
        &&& forall|i: int| 0 <= i < self.snake.body@.len() ==> self.snake.body@[i].0 < self.size
    }

    /// The food, when present, sits inside `[1, size)` on a cell the snake
    /// does not occupy, and only exists while the grid still has room.
    pub open spec fn food_ok(self) -> bool {
        match self.food_cell {
            Option::Some(food) => {
                &&& 1 <= food < self.size
                &&& !self.snake.occupies_spec(food)
                &&& self.snake.body@.len() < self.size - 1
            },
            Option::None => true,
        }
    }

    /// Well-formedness of a world: the grid invariants, the food
    /// invariant, and the score counting exactly the growth events.
    pub open spec fn wf(self) -> bool {
        &&& self.grid_wf()
        &&& self.food_ok()
        &&& self.points + INITIAL_SNAKE_LENGTH == self.snake.body@.len()
    }

    /// The cell the head moves onto this step: one row or column over in
    /// the effective direction, wrapping at each grid edge.
    pub open spec fn next_head_spec(self) -> int {
        let width = self.width as int;
        let head = self.snake.head_spec() as int;
        let row = head / width;
        let col = head % width;
        match self.snake.effective_direction() {
            Direction::Right => row * width + (if col == width - 1 {
                0int
            } else {
                col + 1
            }),
            Direction::Left => row * width + (if col == 0 {
                width - 1
            } else {
                col - 1
            }),
            Direction::Up => (if row == 0 {
                width - 1
            } else {
                row - 1
            }) * width + col,
            Direction::Down => (if row == width - 1 {
                0int
            } else {
                row + 1
            }) * width + col,
        }
    }

    /// What food placement leaves behind: on a grid the snake has filled up
    /// to the one cell the food itself would need, the game is won and no
    /// food exists; otherwise some free cell of `[1, size)` holds the food.
    pub open spec fn placement_outcome(post: World) -> bool {
        if post.snake.body@.len() >= post.size - 1 {
            &&& post.food_cell is None
            &&& post.game_engine.state == GameState::Won
        } else {
            match post.food_cell {
                Option::Some(food) => {
                    &&& 1 <= food < post.size
                    &&& !post.snake.occupies_spec(food)
                },
                Option::None => false,
            }
        }
    }

    /// Builds a world of `world_size * world_size` cells with the snake
    /// seeded at `snake_spawn_idx` and the game not yet started. A spawn
    /// index that does not leave room for the whole initial body inside the
    /// grid is rejected.
    pub fn new(world_size: usize, snake_spawn_idx: usize) -> (world: Option<World>)
        requires
            world_size * world_size <= usize::MAX,
        ensures
            match world {
                Option::Some(w) => {
                    &&& 1 <= snake_spawn_idx < world_size * world_size
                    &&& w.wf()
                    &&& w.width == world_size
                    &&& w.size == world_size * world_size
                    &&& w.snake.body@.len() == INITIAL_SNAKE_LENGTH
                    &&& forall|i: int|
                        0 <= i < INITIAL_SNAKE_LENGTH ==> w.snake.body@[i].0 == snake_spawn_idx
                            - i
                    &&& w.snake.head_spec() == snake_spawn_idx
                    &&& w.snake.direction == Direction::Right
                    &&& w.snake.pending_direction is None
                    &&& w.food_cell is None
                    &&& w.points == 0
                    &&& w.game_engine.state == GameState::Ready
                },
                Option::None => !(1 <= snake_spawn_idx < world_size * world_size),
            },
    {
        let size = world_size * world_size;
        if snake_spawn_idx < 1 || snake_spawn_idx >= size {
            return Option::None;
        }
        proof {
            assert(world_size >= 2) by (nonlinear_arith)
                requires
                    1 <= snake_spawn_idx,
                    snake_spawn_idx < world_size * world_size,
            ;
            assert(world_size * world_size >= 4) by (nonlinear_arith)
                requires
                    world_size >= 2,
            ;
        }
        let snake = Snake::new(snake_spawn_idx, INITIAL_SNAKE_LENGTH);
        Option::Some(
            World {
                width: world_size,
                size,
                snake,
                food_cell: Option::None,
                points: 0,
                game_engine: GameEngine::new(),
                random: RandomSource::new(DEFAULT_RNG_SEED),
            },
        )
    }

    /// The length of the snake.
    pub fn get_snake_len(&self) -> (n: usize)
        ensures
            n == self.snake.body@.len(),
    {
        self.snake.len()
    }

    /// Read-only snapshot of the snake's body as plain indices, head first,
    /// for a rendering collaborator.
    pub fn get_snake_body(&self) -> (body: Vec<usize>)
        ensures
            body@ == self.snake.body_seq(),
    {
        self.snake.body_cells()
    }

    /// The side length of the grid.
    pub fn get_width(&self) -> (width: usize)
        ensures
            width == self.width,
    {
        self.width
    }

    /// Buffers a direction change for the snake; it is resolved at the
    /// start of the next step, and a second request before that replaces
    /// the first.
    pub fn change_direction(&mut self, new_direction: Direction)
        ensures
            final(self).snake.pending_direction == Option::Some(new_direction),
            final(self).snake.body == old(self).snake.body,
            final(self).snake.direction == old(self).snake.direction,
            final(self).width == old(self).width,
            final(self).size == old(self).size,
            final(self).food_cell == old(self).food_cell,
            final(self).points == old(self).points,
            final(self).game_engine == old(self).game_engine,
            final(self).random == old(self).random,
            old(self).wf() ==> final(self).wf(),
    {
        self.snake.change_direction(new_direction);
    }

    /// Starts a ready game: moves the state machine to `Playing` and places
    /// the first food. From any other state this is a no-op, so a second
    /// start is harmless.
    pub fn game_start(&mut self)
        requires
            old(self).wf(),
        ensures
            final(self).wf(),
            !(old(self).game_engine.state is Ready) ==> *final(self) == *old(self),
            old(self).game_engine.state is Ready ==> {
                &&& World::placement_outcome(*final(self))
                &&& final(self).snake.body@.len() < final(self).size - 1 ==> final(
                    self).game_engine.state == GameState::Playing
                &&& final(self).snake == old(self).snake
                &&& final(self).points == old(self).points
                &&& final(self).width == old(self).width
                &&& final(self).size == old(self).size
            },
    {
        if self.game_engine.is_ready() {
            self.game_engine.set_state(GameState::Playing);
            self.place_food();
        }
    }

    /// The grid index of the snake's head.
    pub fn get_snake_head_idx(&self) -> (idx: usize)
        requires
            self.wf(),
        ensures
            idx == self.snake.head_spec(),
    {
        self.snake.head_idx()
    }

    /// The grid index of the food cell, if food is currently placed.
    pub fn get_food_idx(&self) -> (food: Option<usize>)
        ensures
            food == self.food_cell,
    {
        self.food_cell
    }

    /// How many food items the snake has eaten.
    pub fn get_point(&self) -> (points: usize)
        ensures
            points == self.points,
    {
        self.points
    }

    /// The current game state as its integer code.
    pub fn get_game_state(&self) -> (code: u8)
        ensures
            code == crate::game::state_code(self.game_engine.state),
    {
        self.game_engine.get_state_as_number()
    }

    /// The snake's committed direction as its integer code.
    pub fn get_direction(&self) -> (code: u8)
        ensures
            code == direction_code(self.snake.direction),
    {
        self.snake.direction_as_number()
    }

    /// Resolves the buffered direction, then computes the cell the head is
    /// about to move onto: one row or column over, wrapping at each grid
    /// edge so movement never leaves the grid.
    fn calculate_next_cell(&mut self) -> (next_cell: SnakeCell)
        requires
            old(self).grid_wf(),
        ensures
            final(self).snake.direction == old(self).snake.effective_direction(),
            final(self).snake.pending_direction is None,
            final(self).snake.body == old(self).snake.body,
            final(self).width == old(self).width,
            final(self).size == old(self).size,
            final(self).food_cell == old(self).food_cell,
            final(self).points == old(self).points,
            final(self).game_engine == old(self).game_engine,
            final(self).random == old(self).random,
            next_cell.0 == old(self).next_head_spec(),
            next_cell.0 < old(self).size,
    {
        self.snake.update_direction();
        let snake_idx = self.snake.head_idx();
        let row = snake_idx / self.width;
        let col = snake_idx % self.width;
        proof {
            assert(row < self.width && col < self.width) by (nonlinear_arith)
                requires
                    snake_idx < self.width * self.width,
                    self.width >= 2,
                    row == snake_idx as int / self.width as int,
                    col == snake_idx as int % self.width as int,
            ;
        }
        let new_row: usize;
        let new_col: usize;
        match self.snake.direction {
            Direction::Right => {
                new_row = row;
                new_col = if col == self.width - 1 {
                    0
                } else {
                    col + 1
                };
            },
            Direction::Left => {
                new_row = row;
                new_col = if col == 0 {
                    self.width - 1
                } else {
                    col - 1
                };
            },
            Direction::Up => {
                new_row = if row == 0 {
                    self.width - 1
                } else {
                    row - 1
                };
                new_col = col;
            },
            Direction::Down => {
                new_row = if row == self.width - 1 {
                    0
                } else {
                    row + 1
                };
                new_col = col;
            },
        }
        proof {
            assert(new_row * self.width + new_col < self.size) by (nonlinear_arith)
                requires
                    new_row < self.width,
                    new_col < self.width,
                    self.size == self.width * self.width,
            ;
        }
        SnakeCell(new_row * self.width + new_col)
    }

    /// Advances the game by one tick. Before the game starts and after it
    /// ends, a tick silently does nothing. Otherwise the buffered direction
    /// is committed and the head moves one cell in it, wrapping at the grid
    /// edges; moving onto the snake's own body ends the game with the board
    /// frozen, and landing on the food grows the snake by one segment,
    /// scores one point, and places new food.
    pub fn step(&mut self)
        requires
            old(self).wf(),
        ensures
            final(self).wf(),
            final(self).width == old(self).width,
            final(self).size == old(self).size,
            !(old(self).game_engine.state is Playing) ==> *final(self) == *old(self),
            old(self).game_engine.state is Playing ==> {
                let next_head = old(self).next_head_spec() as usize;
                &&& final(self).snake.direction == old(self).snake.effective_direction()
                &&& final(self).snake.pending_direction is None
                &&& if old(self).snake.would_collide_spec(next_head) {
                    // self-collision: the game is lost and the board freezes
                    &&& final(self).game_engine.state == GameState::GameOver
                    &&& final(self).snake.body == old(self).snake.body
                    &&& final(self).food_cell == old(self).food_cell
                    &&& final(self).points == old(self).points
                } else {
                    &&& final(self).snake.head_spec() == next_head
                    &&& if old(self).food_cell == Option::Some(next_head) {
                        // the head lands on the food: grow, score, replace
                        &&& final(self).snake.body_seq() == shifted_body(
                            old(self).snake.body_seq(),
                            next_head,
                        ).push(old(self).snake.head_spec())
                        &&& final(self).snake.body@.len() == old(self).snake.body@.len() + 1
                        &&& final(self).points == old(self).points + 1
                        &&& World::placement_outcome(*final(self))
                        &&& final(self).snake.body@.len() < final(self).size - 1 ==> final(
                            self).game_engine.state == GameState::Playing
                    } else {
                        // a plain move: same length, same score
                        &&& final(self).snake.body_seq() == shifted_body(
                            old(self).snake.body_seq(),
                            next_head,
                        )
                        &&& final(self).snake.body@.len() == old(self).snake.body@.len()
                        &&& final(self).points == old(self).points
                        &&& match old(self).food_cell {
                            Option::Some(_) => final(self).food_cell == old(self).food_cell
                                && final(self).game_engine.state == GameState::Playing,
                            Option::None => World::placement_outcome(*final(self)) && (final(
                                self).snake.body@.len() < final(self).size - 1 ==> final(
                                self).game_engine.state == GameState::Playing),
                        }
                    }
                }
            },
    {
        if !self.game_engine.is_playing() {
            return ;
        }
        let ghost pre = *self;
        let next_cell = self.calculate_next_cell();
        if self.snake.would_collide(next_cell.0) {
            self.game_engine.set_state(GameState::GameOver);
            return ;
        }
        self.snake.slither(next_cell);
        proof {
            assert(self.snake.body_seq() =~= shifted_body(pre.snake.body_seq(), next_cell.0));
            // every cell of the moved body is the new head or an old cell
            assert forall|p: usize| self.snake.occupies_spec(p) implies (p == next_cell.0
                || pre.snake.occupies_spec(p)) by {
                let i = choose|i: int|
                    0 <= i < self.snake.body@.len() && self.snake.body@[i].0 == p;
                if i >= 1 {
                    assert(pre.snake.body@[i - 1].0 == p);
                }
            };
        }
        match self.food_cell {
            Option::Some(food_idx) => {
                if self.snake.head_idx() == food_idx {
                    self.snake.grow();
                    proof {
                        assert(self.snake.body_seq() =~= shifted_body(
                            pre.snake.body_seq(),
                            next_cell.0,
                        ).push(pre.snake.head_spec()));
                        // growth adds a twin of an old cell, so the moved
                        // body still lies inside the grid
                        assert forall|i: int| 0 <= i < self.snake.body@.len() implies #[trigger]
                            self.snake.body@[i].0 < self.size by {
                            if i + 1 < self.snake.body@.len() && i >= 1 {
                                assert(self.snake.body@[i] == pre.snake.body@[i - 1]);
                            }
                        };
                    }
                    self.place_food();
                    self.points = self.points + 1;
                }
            },
            Option::None => {
                self.place_food();
            },
        }
    }

    /// Places the food on a randomly drawn free cell of `[1, size)` — cell
    /// zero is deliberately never chosen — or, once the snake has filled
    /// the grid up to the one cell the food itself would need, removes the
    /// food and declares the game won. After a bounded number of rejected
    /// draws the placement falls back to scanning for a free cell, which
    /// the counting argument in `lemma_free_cell_exists` guarantees to
    /// succeed.
    fn place_food(&mut self)
        requires
            old(self).grid_wf(),
        ensures
            final(self).grid_wf(),
            final(self).food_ok(),
            final(self).snake == old(self).snake,
            final(self).points == old(self).points,
            final(self).width == old(self).width,
            final(self).size == old(self).size,
            World::placement_outcome(*final(self)),
            old(self).snake.body@.len() < old(self).size - 1 ==> final(self).game_engine.state
                == old(self).game_engine.state,
    {
        if self.snake.len() >= self.size - 1 {
            self.food_cell = Option::None;
            self.game_engine.set_state(GameState::Won);
            return ;
        }
        let mut attempts: usize = 0;
        while attempts < MAX_PLACEMENT_DRAWS
            invariant
                self.grid_wf(),
                self.snake == old(self).snake,
                self.points == old(self).points,
                self.width == old(self).width,
                self.size == old(self).size,
                self.food_cell == old(self).food_cell,
                self.game_engine == old(self).game_engine,
                self.snake.body@.len() < self.size - 1,
            decreases MAX_PLACEMENT_DRAWS - attempts,
        {
            let candidate = self.random.next_in_range(1, self.size);
            if !self.snake.occupies(candidate) {
                self.food_cell = Option::Some(candidate);
                return ;
            }
            attempts = attempts + 1;
        }
        proof {
            lemma_free_cell_exists(self.snake, self.size);
        }
        let mut candidate: usize = 1;
        while candidate < self.size
            invariant
                self.grid_wf(),
                self.snake == old(self).snake,
                self.points == old(self).points,
                self.width == old(self).width,
                self.size == old(self).size,
                self.food_cell == old(self).food_cell,
                self.game_engine == old(self).game_engine,
                self.snake.body@.len() < self.size - 1,
                1 <= candidate <= self.size,
                forall|c: usize| 1 <= c < candidate ==> self.snake.occupies_spec(c),
                exists|c: usize| 1 <= c < self.size && !self.snake.occupies_spec(c),
            decreases self.size - candidate,
        {
            if !self.snake.occupies(candidate) {
                self.food_cell = Option::Some(candidate);
                return ;
            }
            candidate = candidate + 1;
        }
        proof {
            // every cell of [1, size) turned out occupied, against the
            // guarantee that one of them is free
            let c = choose|c: usize| 1 <= c < self.size && !self.snake.occupies_spec(c);
            assert(self.snake.occupies_spec(c));
            assert(false);
        }
    }
}

/// On a grid of `size` cells, a snake of at most `size - 2` segments
/// leaves at least one cell of `[1, size)` unoccupied: the body covers at
/// most `size - 2` distinct cells, while `[1, size)` holds `size - 1`.
proof fn lemma_free_cell_exists(snake: Snake, size: usize)
    requires
        snake.body@.len() + 2 <= size,
    ensures
        exists|c: usize| 1 <= c < size && !snake.occupies_spec(c),
{
    broadcast use vstd::set::group_set_axioms;
    broadcast use vstd::seq_lib::seq_to_set_is_finite;

    let positions = snake.body_seq().map_values(|p: usize| p as int);
    let occupied = positions.to_set();
    positions.lemma_cardinality_of_set();
    let range = vstd::set_lib::set_int_range(1, size as int);
    vstd::set_lib::lemma_int_range(1, size as int);
    let free = range.difference(occupied);
    assert(range.subset_of(free.union(occupied)));
    vstd::set_lib::lemma_len_subset(range, free.union(occupied));
    vstd::set_lib::lemma_len_union(free, occupied);
    assert(free.len() >= 1);
    let c = free.choose();
    assert(free.contains(c));
    let cu = c as usize;
    assert(!snake.occupies_spec(cu)) by {
        if snake.occupies_spec(cu) {
            let i = choose|i: int| 0 <= i < snake.body@.len() && snake.body@[i].0 == cu;
            assert(positions[i] == c);
            assert(positions.contains(c));
        }
    };
    assert(1 <= cu < size && !snake.occupies_spec(cu));
}

/// A buffered request for the exact reverse of the committed direction is
/// never honoured: resolving the buffer leaves the direction unchanged.
pub proof fn lemma_reversal_rejected(snake: Snake)
    requires
        snake.pending_direction == Option::Some(opposite(snake.direction)),
    ensures
        snake.effective_direction() == snake.direction,
{
}

/// Toroidal wraparound: a head that moves over a grid edge comes out on
/// the opposite edge of the same row or column.
pub proof fn lemma_wraparound(world: World)
    requires
        world.wf(),
    ensures
        ({
            let width = world.width as int;
            let head = world.snake.head_spec() as int;
            let row = head / width;
            let col = head % width;
            &&& world.snake.effective_direction() == Direction::Right && col == width - 1
                ==> world.next_head_spec() == row * width
            &&& world.snake.effective_direction() == Direction::Left && col == 0
                ==> world.next_head_spec() == row * width + width - 1
            &&& world.snake.effective_direction() == Direction::Up && row == 0
                ==> world.next_head_spec() == (width - 1) * width + col
            &&& world.snake.effective_direction() == Direction::Down && row == width - 1
                ==> world.next_head_spec() == col
        }),
{
}

} // verus!

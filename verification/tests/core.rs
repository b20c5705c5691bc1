use snake_world::Direction;
use snake_world::cells::SnakeCell;
use snake_world::game::{GameEngine, GameState};
use snake_world::random::{RandomSource, random_range};
use snake_world::snake::Snake;

#[test]
fn game_engine_starts_ready() {
    let engine = GameEngine::new();
    assert!(engine.is_ready());
    assert!(!engine.is_playing());
    assert_eq!(engine.get_state(), GameState::Ready);
    assert_eq!(engine.get_state_as_number(), 3);
}

#[test]
fn game_engine_set_state_transitions() {
    let mut engine = GameEngine::new();
    engine.set_state(GameState::Playing);
    assert!(engine.is_playing());
    assert_eq!(engine.get_state_as_number(), 0);
    engine.set_state(GameState::Won);
    assert_eq!(engine.get_state(), GameState::Won);
    assert_eq!(engine.get_state_as_number(), 1);
    engine.set_state(GameState::GameOver);
    assert_eq!(engine.get_state(), GameState::GameOver);
    assert_eq!(engine.get_state_as_number(), 2);
}

#[test]
fn snake_new_seeds_contiguous_body() {
    let snake = Snake::new(5, 2);
    assert_eq!(snake.head_idx(), 5);
    assert_eq!(snake.len(), 2);
    assert_eq!(snake.body_cells(), vec![5, 4]);
    assert_eq!(snake.direction_as_number(), 1); // Right
    let longer = Snake::new(10, 4);
    assert_eq!(longer.body_cells(), vec![10, 9, 8, 7]);
}

#[test]
fn snake_occupies_whole_body() {
    let snake = Snake::new(10, 3);
    assert!(snake.occupies(10));
    assert!(snake.occupies(9));
    assert!(snake.occupies(8));
    assert!(!snake.occupies(7));
    assert!(!snake.occupies(11));
}

#[test]
fn snake_would_collide_excludes_head() {
    let snake = Snake::new(10, 3);
    assert!(!snake.would_collide(10)); // the head itself is about to vacate
    assert!(snake.would_collide(9));
    assert!(snake.would_collide(8));
    assert!(!snake.would_collide(7));
}

#[test]
fn snake_slither_shifts_follow_the_leader() {
    let mut snake = Snake::new(10, 3);
    snake.slither(SnakeCell(11));
    assert_eq!(snake.body_cells(), vec![11, 10, 9]);
    assert_eq!(snake.len(), 3); // a plain move never changes the length
    snake.slither(SnakeCell(12));
    assert_eq!(snake.body_cells(), vec![12, 11, 10]);
}

#[test]
fn snake_grow_appends_twin_of_second_segment() {
    let mut snake = Snake::new(10, 2);
    snake.slither(SnakeCell(11));
    assert_eq!(snake.body_cells(), vec![11, 10]);
    snake.grow();
    assert_eq!(snake.body_cells(), vec![11, 10, 10]);
    snake.slither(SnakeCell(12));
    // the twin cells separate again on the next move
    assert_eq!(snake.body_cells(), vec![12, 11, 10]);
}

#[test]
fn snake_reversal_request_is_dropped() {
    let mut snake = Snake::new(10, 2); // moving Right
    snake.change_direction(Direction::Left);
    snake.update_direction();
    assert_eq!(snake.direction_as_number(), 1); // still Right
    // an invalid request is dropped, not retried on the next step
    snake.update_direction();
    assert_eq!(snake.direction_as_number(), 1);
}

#[test]
fn snake_second_request_replaces_first() {
    let mut snake = Snake::new(10, 2); // moving Right
    snake.change_direction(Direction::Up);
    snake.change_direction(Direction::Down);
    snake.update_direction();
    // last writer wins: Down replaced Up before anything was applied
    assert_eq!(snake.direction_as_number(), 2);
}

#[test]
fn snake_valid_turn_commits() {
    let mut snake = Snake::new(10, 2);
    snake.change_direction(Direction::Up);
    snake.update_direction();
    assert_eq!(snake.direction_as_number(), 0);
    snake.change_direction(Direction::Left);
    snake.update_direction();
    assert_eq!(snake.direction_as_number(), 3);
}

#[test]
fn random_range_stays_in_bounds() {
    let mut source = RandomSource::new(12345);
    for _ in 0..1000 {
        let v = random_range(&mut source, 1, 16);
        assert!((1..16).contains(&v));
    }
    let mut tight = RandomSource::new(0);
    for _ in 0..100 {
        assert_eq!(random_range(&mut tight, 7, 8), 7);
    }
}

#[test]
fn random_source_is_deterministic_per_seed() {
    let mut a = RandomSource::new(99);
    let mut b = RandomSource::new(99);
    for _ in 0..50 {
        assert_eq!(a.next_in_range(0, 1000), b.next_in_range(0, 1000));
    }
}

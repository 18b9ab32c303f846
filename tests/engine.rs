use snake_game::engine::{
    speed_for_score, Game, Tick, BASE_SPEED_US, MIN_SPEED_US, START_X, START_Y,
};
use snake_game::grid::{Direction, Position, GRID_SIZE};

fn pos(x: u32, y: u32) -> Position {
    Position { x, y }
}

fn fresh_with_food(x: u32, y: u32) -> Game {
    Game::with_start(0, pos(x, y))
}

#[test]
fn fresh_engine_state() {
    let g = fresh_with_food(3, 4);
    assert_eq!(g.snake, vec![pos(START_X, START_Y)]);
    assert_eq!(g.food, pos(3, 4));
    assert_eq!(g.direction, Direction::Right);
    assert!(!g.is_game_over);
    assert_eq!(g.score, 0);
    assert_eq!(g.speed_us, BASE_SPEED_US);
    assert_eq!(g.last_update_us, 0);
}

#[test]
fn new_engine_has_food_on_grid() {
    for _ in 0..200 {
        let g = Game::new();
        assert!(g.food.x < GRID_SIZE && g.food.y < GRID_SIZE);
        assert_eq!(g.snake, vec![pos(10, 10)]);
        assert!(g.stats.start_ms > 0);
    }
}

#[test]
fn step_then_eat_scenario() {
    let mut g = fresh_with_food(0, 0);
    let r = g.step();
    assert!(matches!(r, Tick::Moved));
    assert_eq!(g.snake, vec![pos(11, 10)]);
    assert_eq!(g.score, 0);
    g.food = pos(12, 10);
    let r = g.step();
    assert!(matches!(r, Tick::Moved));
    assert_eq!(g.snake, vec![pos(12, 10), pos(11, 10)]);
    assert_eq!(g.score, 1);
    assert_eq!(g.stats.food_eaten, 1);
    assert_eq!(g.speed_us, 98_000);
    assert!(!g.snake.contains(&g.food));
}

#[test]
fn reverse_request_is_rejected() {
    let mut g = fresh_with_food(0, 0);
    g.change_direction(Direction::Left);
    assert_eq!(g.direction, Direction::Right);
    assert_eq!(g.stats.left_turns, 0);
    assert_eq!(g.stats.up_turns + g.stats.down_turns + g.stats.right_turns, 0);
}

#[test]
fn accepted_turn_is_counted() {
    let mut g = fresh_with_food(0, 0);
    g.change_direction(Direction::Up);
    assert_eq!(g.direction, Direction::Up);
    assert_eq!(g.stats.up_turns, 1);
    g.change_direction(Direction::Up);
    assert_eq!(g.stats.up_turns, 2);
    g.change_direction(Direction::Down);
    assert_eq!(g.direction, Direction::Up);
    assert_eq!(g.stats.down_turns, 0);
    g.change_direction(Direction::Right);
    assert_eq!(g.stats.right_turns, 1);
    g.change_direction(Direction::Left);
    assert_eq!(g.direction, Direction::Right);
    let r = g.step();
    assert!(matches!(r, Tick::Moved));
    assert_eq!(g.snake, vec![pos(11, 10)]);
}

#[test]
fn plain_step_keeps_length() {
    let mut g = fresh_with_food(0, 0);
    g.snake = vec![pos(10, 10), pos(9, 10), pos(8, 10)];
    g.score = 2;
    g.stats.food_eaten = 2;
    g.speed_us = speed_for_score(2);
    g.step();
    assert_eq!(g.snake, vec![pos(11, 10), pos(10, 10), pos(9, 10)]);
    assert_eq!(g.score, 2);
    assert_eq!(g.stats.food_eaten, 2);
}

#[test]
fn step_wraps_around_edge() {
    let mut g = fresh_with_food(5, 5);
    g.snake = vec![pos(19, 3)];
    g.step();
    assert_eq!(g.snake, vec![pos(0, 3)]);
    g.change_direction(Direction::Up);
    g.snake = vec![pos(0, 0)];
    g.step();
    assert_eq!(g.snake, vec![pos(0, 19)]);
}

#[test]
fn self_collision_ends_game_and_keeps_snake() {
    let mut g = fresh_with_food(0, 0);
    // A coiled snake whose head, moving Down, runs into its own body.
    let body = vec![pos(5, 5), pos(6, 5), pos(6, 6), pos(5, 6), pos(4, 6)];
    g.snake = body.clone();
    g.score = 4;
    g.stats.food_eaten = 4;
    g.speed_us = speed_for_score(4);
    g.direction = Direction::Down;
    let r = g.step();
    assert!(g.is_game_over);
    assert_eq!(g.snake, body);
    assert_eq!(g.score, 4);
    match r {
        Tick::Ended(report) => {
            assert!(report.text.contains("Final score: 4\n"));
            assert!(report.file_name.ends_with("_snake_game_stats.txt"));
        }
        _ => panic!("expected the game to end"),
    }
}

#[test]
fn moving_onto_tail_counts_as_collision() {
    let mut g = fresh_with_food(0, 0);
    let body = vec![pos(5, 5), pos(5, 6), pos(6, 6), pos(6, 5)];
    g.snake = body.clone();
    g.score = 3;
    g.stats.food_eaten = 3;
    g.speed_us = speed_for_score(3);
    let r = g.step();
    assert!(matches!(r, Tick::Ended(_)));
    assert_eq!(g.snake, body);
}

#[test]
fn food_is_placed_off_the_snake() {
    for _ in 0..50 {
        let mut g = fresh_with_food(11, 10);
        g.step();
        assert_eq!(g.snake.len(), 2);
        assert!(!g.snake.contains(&g.food));
        assert!(g.food.x < GRID_SIZE && g.food.y < GRID_SIZE);
    }
}

#[test]
fn spawn_food_finds_last_free_cell() {
    let mut g = fresh_with_food(0, 0);
    let mut cells = Vec::new();
    for y in 0..GRID_SIZE {
        for x in 0..GRID_SIZE {
            if (x, y) != (7, 13) {
                cells.push(pos(x, y));
            }
        }
    }
    g.score = cells.len() as u32 - 1;
    g.stats.food_eaten = g.score;
    g.speed_us = speed_for_score(g.score);
    g.snake = cells;
    assert!(g.spawn_food());
    assert_eq!(g.food, pos(7, 13));
}

#[test]
fn spawn_food_on_full_grid_leaves_food() {
    let mut g = fresh_with_food(2, 2);
    let mut cells = Vec::new();
    for y in 0..GRID_SIZE {
        for x in 0..GRID_SIZE {
            cells.push(pos(x, y));
        }
    }
    g.score = cells.len() as u32 - 1;
    g.stats.food_eaten = g.score;
    g.speed_us = speed_for_score(g.score);
    g.snake = cells;
    assert!(!g.spawn_food());
    assert_eq!(g.food, pos(2, 2));
}

#[test]
fn speed_follows_score_down_to_floor() {
    assert_eq!(speed_for_score(0), 100_000);
    assert_eq!(speed_for_score(1), 98_000);
    assert_eq!(speed_for_score(10), 80_000);
    assert_eq!(speed_for_score(24), 52_000);
    assert_eq!(speed_for_score(25), MIN_SPEED_US);
    assert_eq!(speed_for_score(26), MIN_SPEED_US);
    assert_eq!(speed_for_score(399), MIN_SPEED_US);
    assert_eq!(speed_for_score(u32::MAX), MIN_SPEED_US);
}

#[test]
fn tick_gathers_time_until_speed() {
    let mut g = fresh_with_food(0, 0);
    assert!(matches!(g.tick(40_000), Tick::Idle));
    assert_eq!(g.last_update_us, 40_000);
    assert_eq!(g.snake, vec![pos(10, 10)]);
    assert!(matches!(g.tick(59_999), Tick::Idle));
    assert_eq!(g.last_update_us, 99_999);
    assert!(matches!(g.tick(1), Tick::Moved));
    assert_eq!(g.last_update_us, 0);
    assert_eq!(g.snake, vec![pos(11, 10)]);
    assert!(matches!(g.tick(u64::MAX), Tick::Moved));
    assert_eq!(g.snake, vec![pos(12, 10)]);
}

#[test]
fn update_steps_once_speed_is_reached() {
    let mut g = Game::new();
    g.food = pos(0, 0);
    assert!(matches!(g.update(50_000), Tick::Idle));
    assert!(matches!(g.update(50_000), Tick::Moved));
    assert_eq!(g.snake, vec![pos(11, 10)]);
}

#[test]
fn game_over_ignores_time() {
    let mut g = fresh_with_food(0, 0);
    g.is_game_over = true;
    assert!(matches!(g.tick(1_000_000), Tick::Idle));
    assert!(matches!(g.update(1_000_000), Tick::Idle));
    assert_eq!(g.snake, vec![pos(10, 10)]);
    assert_eq!(g.last_update_us, 0);
}

#[test]
fn reset_after_game_over_reports_and_restarts() {
    let mut g = fresh_with_food(0, 0);
    g.snake = vec![pos(10, 10), pos(9, 10), pos(8, 10), pos(7, 10), pos(6, 10), pos(5, 10)];
    g.score = 5;
    g.stats.food_eaten = 5;
    g.speed_us = speed_for_score(5);
    g.is_game_over = true;
    let report = g.reset();
    assert!(report.text.contains("Final score: 5\n"));
    assert!(report.text.contains("Food eaten: 5\n"));
    assert_eq!(g.score, 0);
    assert_eq!(g.snake.len(), 1);
    assert!(!g.is_game_over);
    assert_eq!(g.speed_us, BASE_SPEED_US);
    assert_eq!(g.stats.food_eaten, 0);
}

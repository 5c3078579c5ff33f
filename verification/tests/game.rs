use snake_rs::game::snake::{Block, Direction};
use snake_rs::game::RESTART_TIME;
use snake_rs::{AppData, Environment, Snake};

fn b(x: i64, y: i64) -> Block {
    Block { x, y }
}

fn game_with(snake: Snake) -> AppData {
    AppData { environment: Environment::new(600, 600), snake, food_exist: false, game_over: false }
}

#[test]
fn new_game_starts_at_spawn_without_food() {
    let g = AppData::new(600, 600);
    assert_eq!(g.snake.to_vec(), vec![b(100, 50), b(75, 50), b(50, 50)]);
    assert_eq!(g.snake.head_direction(), Direction::Right);
    assert!(!g.food_exist);
    assert!(!g.game_over);
    assert!(!g.is_game_over());
    assert_eq!((g.environment.width, g.environment.height), (600, 600));
}

#[test]
fn iter_interval_is_a_tenth_of_a_second() {
    assert_eq!(AppData::new(600, 600).iter_interval(), 100);
}

#[test]
fn eating_apple_restores_tail_and_clears_food() {
    let mut g = AppData::new(600, 600);
    g.environment.put_food(5, 2);
    g.food_exist = true;
    g.snake.move_forward(None);
    assert_eq!(g.snake.tail, Some(b(50, 50)));
    g.eating_apple();
    assert_eq!(g.snake.to_vec(), vec![b(125, 50), b(100, 50), b(75, 50), b(50, 50)]);
    assert!(!g.food_exist);
}

#[test]
fn eating_apple_needs_food_to_be_present() {
    let mut g = AppData::new(600, 600);
    g.environment.put_food(5, 2);
    g.snake.move_forward(None);
    g.eating_apple();
    assert_eq!(g.snake.to_vec(), vec![b(125, 50), b(100, 50), b(75, 50)]);
    assert!(!g.food_exist);
}

#[test]
fn eating_apple_needs_the_head_on_the_food() {
    let mut g = AppData::new(600, 600);
    g.environment.put_food(5, 3);
    g.food_exist = true;
    g.snake.move_forward(None);
    g.eating_apple();
    assert_eq!(g.snake.to_vec(), vec![b(125, 50), b(100, 50), b(75, 50)]);
    assert!(g.food_exist);
    assert_eq!(g.snake.tail, Some(b(50, 50)));
}

#[test]
fn update_snake_moves_and_eats() {
    let mut g = AppData::new(600, 600);
    g.environment.put_food(5, 2);
    g.food_exist = true;
    g.update_snake(None);
    assert_eq!(g.snake.to_vec(), vec![b(125, 50), b(100, 50), b(75, 50), b(50, 50)]);
    assert!(!g.food_exist);
    assert!(!g.game_over);
}

#[test]
fn update_snake_moves_without_growth_off_the_food() {
    let mut g = AppData::new(600, 600);
    g.environment.put_food(10, 10);
    g.food_exist = true;
    g.update_snake(Some(Direction::Down));
    assert_eq!(g.snake.to_vec(), vec![b(100, 75), b(100, 50), b(75, 50)]);
    assert_eq!(g.snake.head_direction(), Direction::Down);
    assert!(g.food_exist);
    assert!(!g.game_over);
}

#[test]
fn update_snake_out_of_bounds_ends_game_and_keeps_body() {
    let mut g = game_with(Snake::new(525, 50));
    assert_eq!(g.snake.head_position(), (575, 50));
    assert!(!g.check_bounds(None));
    g.update_snake(None);
    assert!(g.game_over);
    assert!(g.is_game_over());
    assert_eq!(g.snake.to_vec(), vec![b(575, 50), b(550, 50), b(525, 50)]);
    assert_eq!(g.snake.tail, None);
    assert_eq!(g.snake.head_direction(), Direction::Right);
}

#[test]
fn update_snake_into_own_body_ends_game() {
    let mut g = AppData::new(600, 600);
    assert!(!g.check_bounds(Some(Direction::Left)));
    g.update_snake(Some(Direction::Left));
    assert!(g.game_over);
    assert_eq!(g.snake.to_vec(), vec![b(100, 50), b(75, 50), b(50, 50)]);
    assert_eq!(g.snake.head_direction(), Direction::Right);
}

#[test]
fn check_bounds_upper_edge_follows_the_strict_rule() {
    let g = game_with(Snake::new(549, 50));
    assert_eq!(g.snake.head_next(None), (624, 50));
    assert!(!g.check_bounds(None));

    let g = game_with(Snake::new(524, 50));
    assert_eq!(g.snake.head_next(None), (599, 50));
    assert!(g.check_bounds(None));

    let g = game_with(Snake::new(525, 50));
    assert_eq!(g.snake.head_next(None), (600, 50));
    assert!(!g.check_bounds(None));
}

#[test]
fn check_bounds_lower_edge_follows_the_strict_rule() {
    let mut s = Snake::new(-50, 50);
    s.move_forward(Some(Direction::Up));
    s.move_forward(Some(Direction::Left));
    assert_eq!(s.head_position(), (-25, 25));
    let g = game_with(s);
    assert_eq!(g.snake.head_next(Some(Direction::Left)), (-50, 25));
    assert!(!g.check_bounds(Some(Direction::Left)));
    assert!(!g.check_bounds(None));

    let mut s = Snake::new(-50, 50);
    s.move_forward(Some(Direction::Up));
    let g = game_with(s);
    assert_eq!(g.snake.head_next(Some(Direction::Left)), (-25, 25));
    assert!(!g.check_bounds(Some(Direction::Left)));

    let mut s = Snake::new(-49, 50);
    s.move_forward(Some(Direction::Up));
    let g = game_with(s);
    assert_eq!(g.snake.head_next(Some(Direction::Left)), (-24, 25));
    assert!(g.check_bounds(Some(Direction::Left)));
}

#[test]
fn check_bounds_vertical_edges() {
    let mut s = Snake::new(50, 0);
    let g = game_with(Snake::new(50, 0));
    assert!(!g.check_bounds(Some(Direction::Up)));
    s.move_forward(Some(Direction::Down));
    let g = game_with(s);
    assert!(g.check_bounds(Some(Direction::Right)));

    let g = game_with(Snake::new(50, 575));
    assert!(!g.check_bounds(Some(Direction::Down)));
    assert!(g.check_bounds(Some(Direction::Up)));
}

#[test]
fn check_bounds_allows_the_block_the_tail_is_leaving() {
    let mut g = AppData::new(600, 600);
    g.snake.move_forward(None);
    g.snake.restore_tail();
    g.snake.move_forward(Some(Direction::Down));
    g.snake.move_forward(Some(Direction::Left));
    assert_eq!(g.snake.to_vec(), vec![b(100, 75), b(125, 75), b(125, 50), b(100, 50)]);
    assert!(g.check_bounds(Some(Direction::Up)));
    g.update_snake(Some(Direction::Up));
    assert!(!g.game_over);
    assert_eq!(g.snake.to_vec(), vec![b(100, 50), b(100, 75), b(125, 75), b(125, 50)]);
}

#[test]
fn direction_change_rejects_reversal_and_accepts_a_turn() {
    let mut g = AppData::new(600, 600);
    g.request_direction_change(Direction::Left);
    assert_eq!(g.snake.head_direction(), Direction::Right);
    g.request_direction_change(Direction::Up);
    assert_eq!(g.snake.head_direction(), Direction::Up);
    assert_eq!(g.snake.to_vec(), vec![b(100, 50), b(75, 50), b(50, 50)]);
    g.request_direction_change(Direction::Down);
    assert_eq!(g.snake.head_direction(), Direction::Up);
    g.request_direction_change(Direction::Up);
    assert_eq!(g.snake.head_direction(), Direction::Up);
}

#[test]
fn direction_change_is_dropped_when_game_is_over() {
    let mut g = AppData::new(600, 600);
    g.game_over = true;
    g.request_direction_change(Direction::Up);
    assert_eq!(g.snake.head_direction(), Direction::Right);
}

#[test]
fn direction_change_waits_for_the_next_tick() {
    let mut g = AppData::new(600, 600);
    g.environment.put_food(0, 0);
    g.food_exist = true;
    g.request_direction_change(Direction::Down);
    assert_eq!(g.snake.head_position(), (100, 50));
    assert!(g.tick(None));
    assert_eq!(g.snake.head_position(), (100, 75));
}

#[test]
fn restart_gives_a_fresh_game_in_the_same_area() {
    let mut g = AppData::new(600, 400);
    g.environment.put_food(3, 3);
    g.food_exist = true;
    g.update_snake(Some(Direction::Down));
    g.game_over = true;
    g.restart();
    assert_eq!(g.snake.to_vec(), vec![b(100, 50), b(75, 50), b(50, 50)]);
    assert_eq!(g.snake.head_direction(), Direction::Right);
    assert_eq!(g.snake.tail, None);
    assert!(!g.food_exist);
    assert!(!g.game_over);
    assert_eq!(g.environment, Environment::new(600, 400));
}

#[test]
fn restart_if_ready_waits_for_the_delay() {
    let mut g = AppData::new(600, 600);
    g.update_snake(Some(Direction::Down));
    assert!(!g.restart_if_ready(RESTART_TIME + 1));
    assert_eq!(g.snake.head_position(), (100, 75));

    g.game_over = true;
    assert!(!g.restart_if_ready(0));
    assert!(!g.restart_if_ready(RESTART_TIME));
    assert!(g.game_over);
    assert_eq!(g.snake.head_position(), (100, 75));

    assert!(g.restart_if_ready(RESTART_TIME + 1));
    assert!(!g.game_over);
    assert_eq!(g.snake.to_vec(), vec![b(100, 50), b(75, 50), b(50, 50)]);
}

#[test]
fn maintain_food_keeps_food_that_is_there() {
    let mut g = AppData::new(600, 600);
    g.environment.put_food(7, 9);
    g.food_exist = true;
    g.maintain_food();
    assert!(g.food_exist);
    assert_eq!((g.environment.food_x, g.environment.food_y), (175, 225));
}

#[test]
fn maintain_food_places_food_clear_of_the_snake() {
    for _ in 0..200 {
        let mut g = AppData {
            environment: Environment::new(100, 25),
            snake: Snake::new(0, 0),
            food_exist: false,
            game_over: false,
        };
        assert_eq!(g.snake.to_vec(), vec![b(50, 0), b(25, 0), b(0, 0)]);
        g.maintain_food();
        assert!(g.food_exist);
        assert_eq!(g.environment.food_y, 0);
        assert!(g.environment.food_x == 0 || g.environment.food_x == 75);
        assert!(!g.snake.overlap_tail(g.environment.food_x, g.environment.food_y));
        assert_eq!(g.snake.to_vec(), vec![b(50, 0), b(25, 0), b(0, 0)]);
    }
}

#[test]
fn maintain_food_gives_up_when_the_snake_covers_the_grid() {
    let mut g = AppData {
        environment: Environment::new(25, 25),
        snake: Snake::new(-25, 0),
        food_exist: false,
        game_over: false,
    };
    g.maintain_food();
    assert!(!g.food_exist);
    assert_eq!((g.environment.food_x, g.environment.food_y), (0, 0));
    assert_eq!(g.snake.to_vec(), vec![b(25, 0), b(0, 0), b(-25, 0)]);
}

#[test]
fn tick_places_food_then_moves() {
    let mut g = AppData::new(600, 600);
    assert!(g.tick(None));
    assert!(!g.game_over);
    let body = g.snake.to_vec();
    assert_eq!(body[0], b(125, 50));
    assert_eq!(g.environment.food_x % 25, 0);
    assert_eq!(g.environment.food_y % 25, 0);
    if body.len() == 4 {
        assert_eq!((g.environment.food_x, g.environment.food_y), (125, 50));
        assert!(!g.food_exist);
        assert_eq!(body, vec![b(125, 50), b(100, 50), b(75, 50), b(50, 50)]);
    } else {
        assert!(g.food_exist);
        assert_eq!(body, vec![b(125, 50), b(100, 50), b(75, 50)]);
    }
}

#[test]
fn tick_does_nothing_when_game_is_over() {
    let mut g = AppData::new(600, 600);
    g.game_over = true;
    assert!(!g.tick(None));
    assert!(!g.food_exist);
    assert_eq!(g.snake.to_vec(), vec![b(100, 50), b(75, 50), b(50, 50)]);
    assert_eq!((g.environment.food_x, g.environment.food_y), (0, 0));
}

#[test]
fn tick_runs_into_the_wall_in_the_end() {
    let mut g = AppData::new(600, 600);
    let mut steps = 0;
    let mut longest = 3;
    while g.tick(None) {
        steps += 1;
        let len = g.snake.len();
        assert!(len >= 3);
        assert!(len == longest || len == longest + 1);
        longest = len;
        assert!(steps <= 20);
    }
    assert_eq!(steps, 20);
    assert!(g.game_over);
    assert_eq!(g.snake.head_position(), (575, 50));
}

#[test]
fn length_grows_only_when_food_is_eaten() {
    let mut g = AppData::new(600, 600);
    g.environment.put_food(6, 2);
    g.food_exist = true;
    g.update_snake(None);
    assert_eq!(g.snake.len(), 3);
    assert!(g.food_exist);
    g.update_snake(None);
    assert_eq!(g.snake.len(), 4);
    assert!(!g.food_exist);
    g.update_snake(None);
    assert_eq!(g.snake.len(), 4);
    g.update_snake(Some(Direction::Left));
    assert!(g.game_over);
    assert_eq!(g.snake.len(), 4);
}

#[test]
fn snapshot_shows_body_food_and_state() {
    let mut g = AppData::new(600, 600);
    let shot = g.snapshot();
    assert_eq!(shot.body, vec![b(100, 50), b(75, 50), b(50, 50)]);
    assert_eq!(shot.food, None);
    assert!(!shot.game_over);

    g.environment.put_food(4, 8);
    g.food_exist = true;
    g.game_over = true;
    let shot = g.snapshot();
    assert_eq!(shot.food, Some(b(100, 200)));
    assert!(shot.game_over);
}

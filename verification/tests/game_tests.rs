use snake::food::Food;
use snake::game::EndReason;
use snake::game::Game;
use snake::game::GameStatus;
use snake::game::KeyPress;
use snake::grid::Direction;
use snake::grid::HEIGHT;
use snake::grid::WIDTH;
use snake::snake::Snake;

#[test]
fn food_new_lies_inside_the_grid() {
    for _ in 0..100 {
        let f = Food::new();
        assert!(f.position.0 < WIDTH);
        assert!(f.position.1 < HEIGHT);
    }
}

#[test]
fn food_spawn_lies_inside_the_grid() {
    let mut f = Food::new();
    for _ in 0..100 {
        f.spawn();
        assert!(f.position.0 < WIDTH);
        assert!(f.position.1 < HEIGHT);
    }
}

#[test]
fn tick_moves_the_snake_and_keeps_the_food() {
    let mut g = Game { snake: Snake::new(), food: Food { position: (0, 0) } };
    let status = g.tick(None);
    assert_eq!(status, GameStatus::Running);
    assert_eq!(g.snake.body, vec![(6, 5), (5, 5), (5, 4)]);
    assert_eq!(g.food.position, (0, 0));
}

#[test]
fn tick_on_food_grows_and_respawns() {
    let mut g = Game { snake: Snake::new(), food: Food { position: (6, 5) } };
    let status = g.tick(None);
    assert_eq!(status, GameStatus::Running);
    assert_eq!(g.snake.body, vec![(6, 5), (5, 5), (5, 4), (5, 4)]);
    assert!(g.food.position.0 < WIDTH);
    assert!(g.food.position.1 < HEIGHT);
}

#[test]
fn tick_quit_stops_the_game_untouched() {
    let mut g = Game { snake: Snake::new(), food: Food { position: (0, 0) } };
    let status = g.tick(Some(KeyPress::Quit));
    assert_eq!(status, GameStatus::Terminated(EndReason::Quit));
    assert_eq!(g.snake.body, vec![(5, 5), (5, 4), (5, 3)]);
    assert_eq!(g.snake.direction, Direction::Right);
    assert_eq!(g.food.position, (0, 0));
}

#[test]
fn tick_applies_an_accepted_turn() {
    let mut g = Game { snake: Snake::new(), food: Food { position: (0, 0) } };
    let status = g.tick(Some(KeyPress::Arrow(Direction::Down)));
    assert_eq!(status, GameStatus::Running);
    assert_eq!(g.snake.direction, Direction::Down);
    assert_eq!(g.snake.body, vec![(5, 6), (5, 5), (5, 4)]);
}

#[test]
fn tick_ignores_a_reversal() {
    let mut g = Game { snake: Snake::new(), food: Food { position: (0, 0) } };
    let status = g.tick(Some(KeyPress::Arrow(Direction::Left)));
    assert_eq!(status, GameStatus::Running);
    assert_eq!(g.snake.direction, Direction::Right);
    assert_eq!(g.snake.body, vec![(6, 5), (5, 5), (5, 4)]);
}

#[test]
fn tick_into_the_right_wall_terminates() {
    let snake = Snake { body: vec![(WIDTH - 1, 5), (WIDTH - 2, 5)], direction: Direction::Right };
    let mut g = Game { snake, food: Food { position: (0, 0) } };
    let status = g.tick(None);
    assert_eq!(status, GameStatus::Terminated(EndReason::Collision));
    assert_eq!(g.snake.body[0], (WIDTH, 5));
}

#[test]
fn tick_underflowing_at_the_left_wall_terminates() {
    let snake = Snake { body: vec![(0, 5), (1, 5)], direction: Direction::Left };
    let mut g = Game { snake, food: Food { position: (9, 9) } };
    let status = g.tick(None);
    assert_eq!(status, GameStatus::Terminated(EndReason::Collision));
    assert_eq!(g.snake.body, vec![(0, 5), (1, 5)]);
}

#[test]
fn tick_into_the_own_body_terminates() {
    let snake = Snake {
        body: vec![(5, 5), (6, 5), (6, 6), (5, 6), (4, 6)],
        direction: Direction::Down,
    };
    let mut g = Game { snake, food: Food { position: (0, 0) } };
    let status = g.tick(None);
    assert_eq!(status, GameStatus::Terminated(EndReason::Collision));
    assert_eq!(g.snake.body[0], (5, 6));
}

#[test]
fn body_length_never_decreases_over_ticks() {
    let mut g = Game::new();
    let mut len = g.snake.body.len();
    for _ in 0..20 {
        let status = g.tick(None);
        assert!(g.snake.body.len() >= len);
        len = g.snake.body.len();
        if status != GameStatus::Running {
            break;
        }
    }
}

#[test]
fn game_new_starts_on_the_fixed_body() {
    let g = Game::new();
    assert_eq!(g.snake.body, vec![(5, 5), (5, 4), (5, 3)]);
    assert_eq!(g.snake.direction, Direction::Right);
    assert!(g.food.position.0 < WIDTH);
    assert!(g.food.position.1 < HEIGHT);
}

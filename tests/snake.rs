use rusty_snake::food::Food;
use rusty_snake::snake::{Snake, SnakeDirection};

fn head(s: &Snake) -> (u16, u16) {
    (s.get_head_x(), s.get_head_y())
}

#[test]
fn test_collision_wall() {
    let mut snake = Snake::with_head(1, 1);
    assert_eq!(false, snake.has_collided_with_any_wall());
    snake.set_direction(SnakeDirection::Left);
    snake.walk(false);
    assert_eq!(true, snake.has_collided_with_any_wall());
}

#[test]
fn test_snake_direction() {
    let mut snake = Snake::new();
    snake.set_direction(SnakeDirection::Up);
    assert_eq!(SnakeDirection::Up, snake.direction());
    // Down reverses Up along the same axis, so the request is ignored.
    snake.set_direction(SnakeDirection::Down);
    assert_eq!(SnakeDirection::Up, snake.direction());
}

#[test]
fn spawn_then_step_up() {
    let mut snake = Snake::new();
    assert_eq!(SnakeDirection::Initial, snake.direction());
    snake.walk(false);
    assert_eq!((20, 20), head(&snake));
    snake.set_direction(SnakeDirection::Up);
    snake.walk(false);
    assert_eq!((20, 19), head(&snake));
    assert_eq!(1, snake.len());
}

#[test]
fn left_edge_is_caught_before_underflow() {
    let mut snake = Snake::with_head(1, 1);
    snake.set_direction(SnakeDirection::Left);
    snake.walk(false);
    assert_eq!((0, 1), head(&snake));
    assert!(snake.has_collided_with_any_wall());
}

#[test]
fn eating_grows_behind_new_head() {
    let mut snake = Snake::new();
    let food = Food::new(20, 20);
    assert!(snake.can_eat(&food));
    snake.set_direction(SnakeDirection::Right);
    snake.walk(true);
    assert_eq!(2, snake.len());
    assert_eq!((21, 20), head(&snake));
    assert!(snake.body()[1].equal(20, 20));
}

#[test]
fn step_displacement_each_heading() {
    let cases = [
        (SnakeDirection::Left, false, (9, 10)),
        (SnakeDirection::Right, false, (11, 10)),
        (SnakeDirection::Up, false, (10, 9)),
        (SnakeDirection::Down, false, (10, 11)),
        (SnakeDirection::Left, true, (8, 10)),
        (SnakeDirection::Right, true, (12, 10)),
        (SnakeDirection::Up, true, (10, 8)),
        (SnakeDirection::Down, true, (10, 12)),
        (SnakeDirection::Initial, true, (10, 10)),
    ];
    for (d, boost, expected) in cases {
        let mut snake = Snake::with_head(10, 10);
        snake.set_direction(d);
        if boost {
            snake.toggle_acceleration();
        }
        snake.walk(false);
        assert_eq!(expected, head(&snake));
    }
}

#[test]
fn boost_toggles_back() {
    let mut snake = Snake::new();
    assert!(!snake.is_accelerating());
    snake.toggle_acceleration();
    assert!(snake.is_accelerating());
    snake.toggle_acceleration();
    assert!(!snake.is_accelerating());
}

#[test]
fn length_kept_or_grown_by_one() {
    let mut snake = Snake::new();
    snake.set_direction(SnakeDirection::Down);
    snake.walk(true);
    snake.walk(true);
    assert_eq!(3, snake.len());
    snake.walk(false);
    assert_eq!(3, snake.len());
    assert_eq!((20, 23), head(&snake));
    assert!(snake.body()[2].equal(20, 21));
}

#[test]
fn reversal_ignored_other_turns_taken() {
    let mut snake = Snake::new();
    snake.set_direction(SnakeDirection::Left);
    assert_eq!(SnakeDirection::Left, snake.direction());
    snake.set_direction(SnakeDirection::Right);
    assert_eq!(SnakeDirection::Left, snake.direction());
    snake.set_direction(SnakeDirection::Down);
    assert_eq!(SnakeDirection::Down, snake.direction());
    snake.set_direction(SnakeDirection::Up);
    assert_eq!(SnakeDirection::Down, snake.direction());
    snake.set_direction(SnakeDirection::Right);
    assert_eq!(SnakeDirection::Right, snake.direction());
}

#[test]
fn wall_margin_on_each_side() {
    assert!(!Snake::with_head(1, 1).has_collided_with_any_wall());
    assert!(!Snake::with_head(39, 39).has_collided_with_any_wall());
    assert!(!Snake::with_head(20, 20).has_collided_with_any_wall());
    assert!(Snake::with_head(0, 20).has_collided_with_any_wall());
    assert!(Snake::with_head(20, 0).has_collided_with_any_wall());
    assert!(Snake::with_head(40, 20).has_collided_with_any_wall());
    assert!(Snake::with_head(20, 40).has_collided_with_any_wall());
    assert!(Snake::with_head(u16::MAX, 20).has_collided_with_any_wall());
}

#[test]
fn coordinate_wraps_past_zero() {
    let mut snake = Snake::with_head(0, 5);
    snake.set_direction(SnakeDirection::Left);
    snake.walk(false);
    assert_eq!((u16::MAX, 5), head(&snake));
    assert!(snake.has_collided_with_any_wall());
}

#[test]
fn single_segment_has_not_bitten_itself() {
    assert!(!Snake::new().ate_itself());
}

#[test]
fn snake_bites_itself_after_loop() {
    let mut snake = Snake::with_head(10, 10);
    snake.set_direction(SnakeDirection::Right);
    for _ in 0..4 {
        snake.walk(true);
    }
    assert!(!snake.ate_itself());
    snake.set_direction(SnakeDirection::Down);
    snake.walk(false);
    snake.set_direction(SnakeDirection::Left);
    snake.walk(false);
    assert!(!snake.ate_itself());
    snake.set_direction(SnakeDirection::Up);
    snake.walk(false);
    assert_eq!((13, 10), head(&snake));
    assert!(snake.ate_itself());
}

#[test]
fn cannot_eat_elsewhere_or_blank() {
    let snake = Snake::new();
    assert!(!snake.can_eat(&Food::new(20, 21)));
    assert!(!snake.can_eat(&Food::new(21, 20)));
    assert!(!snake.can_eat(&Food::blank()));
}

#[test]
fn occupies_body_cells_only() {
    let mut snake = Snake::new();
    snake.set_direction(SnakeDirection::Up);
    snake.walk(true);
    assert!(snake.occupies(20, 20));
    assert!(snake.occupies(20, 19));
    assert!(!snake.occupies(20, 21));
}

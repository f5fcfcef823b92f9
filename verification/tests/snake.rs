use snake::direction::Direction;
use snake::grid::GridElem;
use snake::snake::{Food, Snake};
use std::collections::VecDeque;

fn cell(x: i32, y: i32) -> GridElem {
    GridElem { x, y }
}

fn food_at(x: i32, y: i32) -> Food {
    Food { elem: cell(x, y) }
}

fn snake_of(head: GridElem, body: &[GridElem], direction: Direction) -> Snake {
    Snake {
        head,
        body: body.iter().copied().collect::<VecDeque<GridElem>>(),
        ate: false,
        self_ate: false,
        direction,
    }
}

fn body_of(snake: &Snake) -> Vec<GridElem> {
    snake.body.iter().copied().collect()
}

#[test]
fn a_new_snake_has_one_segment_left_of_its_head() {
    let snake = Snake::new(cell(15, 10));
    assert_eq!(snake.head, cell(15, 10));
    assert_eq!(body_of(&snake), vec![cell(14, 10)]);
    assert_eq!(snake.direction, Direction::Right);
    assert!(!snake.ate);
    assert!(!snake.self_ate);
}

#[test]
fn a_new_snake_in_the_first_column_has_its_segment_off_the_field() {
    let snake = Snake::new(cell(0, 4));
    assert_eq!(snake.head, cell(0, 4));
    assert_eq!(body_of(&snake), vec![cell(-1, 4)]);
}

#[test]
fn next_head_is_one_step_in_the_direction() {
    let snake = snake_of(cell(29, 0), &[cell(28, 0)], Direction::Right);
    assert_eq!(snake.next_head(), cell(0, 0));
    let snake = snake_of(cell(4, 0), &[cell(4, 1)], Direction::Up);
    assert_eq!(snake.next_head(), cell(4, 19));
}

#[test]
fn a_move_without_food_shifts_the_snake() {
    let mut snake = Snake::new(cell(15, 10));
    snake.update(&food_at(5, 5));
    assert_eq!(snake.head, cell(16, 10));
    assert_eq!(body_of(&snake), vec![cell(15, 10)]);
    assert!(!snake.ate);
    assert!(!snake.self_ate);
    assert_eq!(snake.direction, Direction::Right);
}

#[test]
fn a_move_onto_the_food_grows_the_snake_by_one() {
    let mut snake = Snake::new(cell(15, 10));
    let before = 1 + snake.body.len();
    snake.update(&food_at(16, 10));
    assert!(snake.ate);
    assert!(!snake.self_ate);
    assert_eq!(snake.head, cell(16, 10));
    assert_eq!(body_of(&snake), vec![cell(15, 10), cell(14, 10)]);
    assert_eq!(1 + snake.body.len(), before + 1);
}

#[test]
fn a_move_that_misses_the_food_keeps_the_length() {
    let mut snake = snake_of(
        cell(10, 10),
        &[cell(9, 10), cell(8, 10), cell(7, 10)],
        Direction::Down,
    );
    let before = 1 + snake.body.len();
    snake.update(&food_at(0, 0));
    assert!(!snake.ate);
    assert_eq!(1 + snake.body.len(), before);
    assert_eq!(snake.head, cell(10, 11));
    assert_eq!(body_of(&snake), vec![cell(10, 10), cell(9, 10), cell(8, 10)]);
}

#[test]
fn ate_is_cleared_by_the_next_move() {
    let mut snake = Snake::new(cell(15, 10));
    snake.update(&food_at(16, 10));
    assert!(snake.ate);
    snake.update(&food_at(16, 10));
    assert!(!snake.ate);
    assert_eq!(snake.head, cell(17, 10));
    assert_eq!(body_of(&snake), vec![cell(16, 10), cell(15, 10)]);
}

#[test]
fn running_into_a_body_segment_is_a_collision() {
    let mut snake = snake_of(
        cell(5, 5),
        &[cell(5, 6), cell(4, 6), cell(4, 5), cell(4, 4), cell(5, 4), cell(6, 4)],
        Direction::Up,
    );
    snake.update(&food_at(0, 0));
    assert!(snake.self_ate);
    assert_eq!(snake.head, cell(5, 4));
}

#[test]
fn moving_onto_the_tail_cell_is_a_collision() {
    let mut snake = snake_of(cell(5, 5), &[cell(6, 5), cell(6, 4), cell(5, 4)], Direction::Up);
    snake.update(&food_at(0, 0));
    assert!(snake.self_ate);
    assert_eq!(snake.head, cell(5, 4));
    assert_eq!(body_of(&snake), vec![cell(5, 5), cell(6, 5), cell(6, 4)]);
}

#[test]
fn reversing_into_the_neck_is_a_collision() {
    let mut snake = snake_of(cell(15, 10), &[cell(14, 10)], Direction::Left);
    snake.update(&food_at(5, 5));
    assert!(snake.self_ate);
    assert_eq!(snake.head, cell(14, 10));
    assert_eq!(body_of(&snake), vec![cell(15, 10)]);
}

#[test]
fn a_collision_while_eating_still_grows_the_snake() {
    let mut snake = snake_of(cell(15, 10), &[cell(14, 10)], Direction::Left);
    snake.update(&food_at(14, 10));
    assert!(snake.self_ate);
    assert!(snake.ate);
    assert_eq!(body_of(&snake), vec![cell(15, 10), cell(14, 10)]);
}

#[test]
fn a_free_cell_ahead_is_no_collision() {
    let mut snake = snake_of(cell(5, 5), &[cell(5, 6), cell(4, 6), cell(4, 5)], Direction::Up);
    snake.update(&food_at(0, 0));
    assert!(!snake.self_ate);
}

#[test]
fn self_ate_is_cleared_by_the_next_free_move() {
    let mut snake = snake_of(cell(15, 10), &[cell(14, 10)], Direction::Left);
    snake.update(&food_at(5, 5));
    assert!(snake.self_ate);
    snake.update(&food_at(5, 5));
    assert!(!snake.self_ate);
    assert_eq!(snake.head, cell(13, 10));
}

#[test]
fn a_snake_without_a_body_never_collides() {
    for direction in [Direction::Up, Direction::Down, Direction::Left, Direction::Right] {
        let mut snake = snake_of(cell(0, 0), &[], direction);
        snake.update(&food_at(5, 5));
        assert!(!snake.self_ate);
        assert!(snake.body.is_empty());
    }
}

#[test]
fn a_snake_without_a_body_gets_one_by_eating() {
    let mut snake = snake_of(cell(3, 3), &[], Direction::Right);
    snake.update(&food_at(4, 3));
    assert!(snake.ate);
    assert!(!snake.self_ate);
    assert_eq!(snake.head, cell(4, 3));
    assert_eq!(body_of(&snake), vec![cell(3, 3)]);
}

#[test]
fn the_snake_crosses_the_edge_of_the_field() {
    let mut snake = snake_of(cell(29, 3), &[cell(28, 3)], Direction::Right);
    snake.update(&food_at(0, 3));
    assert_eq!(snake.head, cell(0, 3));
    assert!(snake.ate);
    assert_eq!(body_of(&snake), vec![cell(29, 3), cell(28, 3)]);
}

#[test]
fn a_snake_on_the_field_stays_on_it() {
    let mut snake = Snake::new(cell(15, 10));
    snake.direction = Direction::Down;
    for _ in 0..100 {
        snake.update(&food_at(15, 0));
        assert!(0 <= snake.head.x && snake.head.x < 30);
        assert!(0 <= snake.head.y && snake.head.y < 20);
        for segment in snake.body.iter() {
            assert!(0 <= segment.x && segment.x < 30);
            assert!(0 <= segment.y && segment.y < 20);
        }
    }
}

#[test]
fn update_keeps_the_direction() {
    for direction in [Direction::Up, Direction::Down, Direction::Left, Direction::Right] {
        let mut snake = snake_of(cell(10, 10), &[], direction);
        snake.update(&food_at(0, 0));
        assert_eq!(snake.direction, direction);
    }
}

#[test]
fn a_cloned_snake_is_equal_and_independent() {
    let snake = snake_of(cell(5, 5), &[cell(5, 6), cell(4, 6)], Direction::Up);
    let mut twin = snake.clone();
    assert_eq!(twin, snake);
    twin.update(&food_at(0, 0));
    assert_eq!(snake.head, cell(5, 5));
    assert_eq!(body_of(&snake), vec![cell(5, 6), cell(4, 6)]);
    assert_eq!(twin.head, cell(5, 4));
}

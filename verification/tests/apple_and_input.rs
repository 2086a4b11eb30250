use snake::{Point, Direction, UserInput};
use snake::snake::Snake;
use snake::model::{Model, GameModel};
use snake::view::input_from_char;
use snake::controller::resolve_direction;

#[test]
fn generated_apples_stay_strictly_inside_the_border() {
    let mut model = Model::new();
    for _ in 0..200 {
        model.generate_new_apple_point(40, 30);
        let apple = model.get_apple();
        assert!(1 <= apple.x && apple.x <= 38, "apple x out of range: {:?}", apple);
        assert!(1 <= apple.y && apple.y <= 28, "apple y out of range: {:?}", apple);
    }
}

#[test]
fn smallest_arena_pins_the_apple() {
    // with a 4x4 arena the only admissible cell is (1, 1)
    let mut model = Model::new();
    model.generate_new_apple_point(4, 4);
    assert_eq!(model.get_apple(), Point { x: 1, y: 1 });
}

#[test]
fn generate_replaces_the_placeholder_apple() {
    let model = Model::new();
    assert_eq!(model.get_apple(), Point { x: 0, y: 0 });
    let mut model = model;
    model.generate_new_apple_point(4, 4);
    assert_ne!(model.get_apple(), Point { x: 0, y: 0 });
}

#[test]
fn fresh_session_state() {
    let model = Model::new();
    assert_eq!(model.get_score(), 0);
    assert_eq!(
        model.get_snake().body,
        vec![
            Point { x: 10, y: 10 },
            Point { x: 9, y: 10 },
            Point { x: 8, y: 10 }
        ]
    );
}

#[test]
fn reverse_requests_are_ignored_for_all_four_pairs() {
    for (current, requested) in [
        (Direction::Up, Direction::Down),
        (Direction::Down, Direction::Up),
        (Direction::Left, Direction::Right),
        (Direction::Right, Direction::Left),
    ] {
        assert_eq!(
            resolve_direction(current, Some(UserInput::Direction(requested))),
            current
        );
    }
}

#[test]
fn other_requests_are_adopted() {
    assert_eq!(
        resolve_direction(Direction::Right, Some(UserInput::Direction(Direction::Up))),
        Direction::Up
    );
    assert_eq!(
        resolve_direction(Direction::Up, Some(UserInput::Direction(Direction::Up))),
        Direction::Up
    );
}

#[test]
fn absent_or_ignored_input_keeps_the_heading() {
    assert_eq!(resolve_direction(Direction::Down, None), Direction::Down);
    assert_eq!(
        resolve_direction(Direction::Down, Some(UserInput::Other)),
        Direction::Down
    );
    assert_eq!(
        resolve_direction(Direction::Down, Some(UserInput::Abort)),
        Direction::Down
    );
}

#[test]
fn arrow_codes_map_to_headings() {
    assert_eq!(input_from_char('D'), UserInput::Direction(Direction::Left));
    assert_eq!(input_from_char('C'), UserInput::Direction(Direction::Right));
    assert_eq!(input_from_char('A'), UserInput::Direction(Direction::Up));
    assert_eq!(input_from_char('B'), UserInput::Direction(Direction::Down));
    assert_eq!(input_from_char('q'), UserInput::Abort);
    assert_eq!(input_from_char('z'), UserInput::Other);
    assert_eq!(input_from_char(' '), UserInput::Other);
}

#[test]
fn moving_model_leaves_apple_and_score_alone() {
    let mut model = Model::new();
    let vacated = model.move_in_direction(Direction::Up, false);
    assert_eq!(vacated, Some(Point { x: 8, y: 10 }));
    assert_eq!(model.get_apple(), Point { x: 0, y: 0 });
    assert_eq!(model.get_score(), 0);
    model.update_score(1);
    assert_eq!(model.get_score(), 1);
    let vacated = model.move_in_direction(Direction::Up, true);
    assert_eq!(vacated, None);
    assert_eq!(model.get_snake().body.len(), 4);
    assert_eq!(model.get_score(), 1);
}

#[test]
fn snake_is_shared_between_model_and_session() {
    let snake = Snake::new(Point { x: 3, y: 3 }, 2);
    let model = Model::new_from_snake_apple_and_score(snake, Point { x: 1, y: 1 }, 7);
    assert_eq!(model.get_score(), 7);
    assert_eq!(model.get_apple(), Point { x: 1, y: 1 });
    assert_eq!(model.get_snake().body[0], Point { x: 3, y: 3 });
}

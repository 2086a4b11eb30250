use std::collections::VecDeque;

use snake::{Point, Direction, UserInput};
use snake::snake::Snake;
use snake::model::{FixedAppleModel, GameModel};
use snake::view::{RecordingView, SnakePaint};
use snake::controller::{Controller, GameStatus};

#[test]
fn test_controller() {
    let snake = Snake::new(Point { x: 4, y: 4 }, 3);
    let apple = Point { x: 4, y: 2 };
    let model = FixedAppleModel::new(snake, apple, 0);
    let mut user_inputs: VecDeque<UserInput> = VecDeque::new();
    user_inputs.push_back(UserInput::Direction(Direction::Up));
    let view = RecordingView::new(user_inputs, 40, 40);
    let mut controller = Controller { view, model };
    let result = controller.run(1000);
    match result {
        GameStatus::GameOver(res) => {
            assert_eq!(controller.model.get_score(), 1);
            assert_eq!(controller.model.get_snake().body.len(), 4);
            assert_eq!(
                controller.view.snake_paints,
                vec![
                    SnakePaint::Remove(Point { x: 2, y: 4 }),
                    SnakePaint::Add(Point { x: 4, y: 3 }),
                    SnakePaint::Remove(Point { x: 3, y: 4 }),
                    SnakePaint::Add(Point { x: 4, y: 2 }),
                    SnakePaint::Add(Point { x: 4, y: 1 }),
                    SnakePaint::Remove(Point { x: 4, y: 4 }),
                    SnakePaint::Add(Point { x: 4, y: 0 }),
                ]
            );
            assert_eq!(res, 1);
        }
        other => panic!("Got result: {:?}", other),
    }
}

#[test]
fn eaten_apple_is_repainted_and_score_shown_once() {
    let snake = Snake::new(Point { x: 4, y: 4 }, 3);
    let apple = Point { x: 4, y: 2 };
    let model = FixedAppleModel::new(snake, apple, 0);
    let mut user_inputs: VecDeque<UserInput> = VecDeque::new();
    user_inputs.push_back(UserInput::Direction(Direction::Up));
    let view = RecordingView::new(user_inputs, 40, 40);
    let mut controller = Controller { view, model };
    let result = controller.run(1000);
    assert_eq!(result, GameStatus::GameOver(1));
    // one paint when the run starts, one when the apple is eaten and replaced
    assert_eq!(
        controller.view.apple_paints,
        vec![Point { x: 4, y: 2 }, Point { x: 4, y: 2 }]
    );
    assert_eq!(controller.view.scores, vec![1]);
}

#[test]
fn snake_that_loops_back_collides_with_itself() {
    // A hook-shaped body heading right: the cell one move ahead of the head
    // is the body cell (6, 4), not the tail, so the move lands on the body
    // and the following tick ends the game.
    let mut body = VecDeque::new();
    for p in [
        Point { x: 5, y: 4 },
        Point { x: 4, y: 4 },
        Point { x: 4, y: 5 },
        Point { x: 5, y: 5 },
        Point { x: 6, y: 5 },
        Point { x: 6, y: 4 },
        Point { x: 7, y: 4 },
    ] {
        body.push_back(p);
    }
    // the apple sits on the starting head, so one reward lands strictly
    // before the fatal tick
    let model = FixedAppleModel::new(Snake { body }, Point { x: 5, y: 4 }, 0);
    let view = RecordingView::new(VecDeque::new(), 40, 40);
    let mut controller = Controller { view, model };
    let result = controller.run(1000);
    assert_eq!(result, GameStatus::GameOver(1));
    assert_eq!(controller.model.get_score(), 1);
    // the head really sits on a non-head body cell
    let final_body = &controller.model.get_snake().body;
    let head = final_body[0];
    assert!(final_body.iter().skip(1).any(|part| *part == head));
}

#[test]
fn straight_run_ends_at_the_border() {
    // no input: the snake keeps heading right from (4, 4) in a 10x10 arena;
    // the head steps onto the border cell x == 10 and the next tick ends
    // the run
    let snake = Snake::new(Point { x: 4, y: 4 }, 3);
    let model = FixedAppleModel::new(snake, Point { x: 8, y: 8 }, 0);
    let view = RecordingView::new(VecDeque::new(), 10, 10);
    let mut controller = Controller { view, model };
    let result = controller.run(1000);
    assert_eq!(result, GameStatus::GameOver(0));
    assert_eq!(controller.model.get_snake().body[0], Point { x: 10, y: 4 });
}

#[test]
fn abort_key_ends_the_session_with_the_score_so_far() {
    let snake = Snake::new(Point { x: 4, y: 4 }, 3);
    let model = FixedAppleModel::new(snake, Point { x: 8, y: 8 }, 0);
    let mut user_inputs: VecDeque<UserInput> = VecDeque::new();
    user_inputs.push_back(UserInput::Abort);
    let view = RecordingView::new(user_inputs, 40, 40);
    let mut controller = Controller { view, model };
    let result = controller.run(1000);
    assert_eq!(result, GameStatus::Aborted(0));
    // the abort came before any move: the body still stands where it began
    assert_eq!(
        controller.model.get_snake().body,
        vec![Point { x: 4, y: 4 }, Point { x: 3, y: 4 }, Point { x: 2, y: 4 }]
    );
}

#[test]
fn run_without_budget_reports_still_running() {
    let snake = Snake::new(Point { x: 4, y: 4 }, 3);
    let model = FixedAppleModel::new(snake, Point { x: 8, y: 8 }, 0);
    let view = RecordingView::new(VecDeque::new(), 40, 40);
    let mut controller = Controller { view, model };
    assert_eq!(controller.run(0), GameStatus::Running);
    // two ticks of budget move the snake two cells and no further
    assert_eq!(controller.run(2), GameStatus::Running);
    assert_eq!(controller.model.get_snake().body[0], Point { x: 6, y: 4 });
}

#[test]
fn ignored_keys_do_not_steer() {
    let snake = Snake::new(Point { x: 4, y: 4 }, 3);
    let model = FixedAppleModel::new(snake, Point { x: 8, y: 8 }, 0);
    let mut user_inputs: VecDeque<UserInput> = VecDeque::new();
    user_inputs.push_back(UserInput::Other);
    user_inputs.push_back(UserInput::Direction(Direction::Left));
    let view = RecordingView::new(user_inputs, 40, 40);
    let mut controller = Controller { view, model };
    assert_eq!(controller.run(2), GameStatus::Running);
    // the unknown key kept the heading, the reverse request was ignored too
    assert_eq!(controller.model.get_snake().body[0], Point { x: 6, y: 4 });
}

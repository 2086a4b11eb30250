//! The session state: the snake, the apple and the score, behind a small
//! capability contract so the controller can also be driven by a scripted
//! double with no randomness in it.

use vstd::prelude::*;
use crate::{Point, Direction, can_shift};
use crate::snake::{Snake, moved_body, new_body};

verus! {

/// The state capability consumed by the controller. An implementor owns the
/// snake body, the apple and the score; the contracts say which of the three
/// each operation may touch, and how.
pub trait GameModel: Sized {
    /// The snake body, head first.
    spec fn body(&self) -> Seq<Point>;

    /// The apple's cell.
    spec fn apple(&self) -> Point;

    /// The score so far.
    spec fn score(&self) -> i32;

    /// Replaces the apple, leaving body and score alone. Where the apple
    /// lands is the implementor's business: the live model draws it at
    /// random strictly inside the border, a scripted double may leave it
    /// in place.
    fn generate_new_apple_point(&mut self, max_x: i32, max_y: i32)
        requires
            4 <= max_x,
            4 <= max_y,
        ensures
            final(self).body() == old(self).body(),
            final(self).score() == old(self).score(),
    ;

    /// Reads the apple's cell.
    fn get_apple(&self) -> (apple: Point)
        ensures
            apple == self.apple(),
    ;

    /// Borrows the snake.
    fn get_snake(&self) -> (snake: &Snake)
        ensures
            snake@ == self.body(),
    ;

    /// Reads the score.
    fn get_score(&self) -> (score: i32)
        ensures
            score == self.score(),
    ;

    /// Adds `amount` to the score, leaving body and apple alone.
    fn update_score(&mut self, amount: i32)
        requires
            i32::MIN <= old(self).score() + amount <= i32::MAX,
        ensures
            final(self).score() == old(self).score() + amount,
            final(self).body() == old(self).body(),
            final(self).apple() == old(self).apple(),
    ;

    /// Moves the snake one cell, exactly as [`Snake::move_in_direction`]
    /// does, leaving apple and score alone.
    fn move_in_direction(&mut self, direction: Direction, grow: bool) -> (vacated: Option<Point>)
        requires
            old(self).body().len() >= 1,
            can_shift(old(self).body()[0], direction),
        ensures
            final(self).body() == moved_body(old(self).body(), direction, grow),
            final(self).apple() == old(self).apple(),
            final(self).score() == old(self).score(),
            vacated == (if grow {
                Option::<Point>::None
            } else {
                Some(old(self).body().last())
            }),
    ;
}

/// Relies on `rand::random_range`: a draw from the half-open range
/// `lo..hi` on the thread-local generator. Nothing more is assumed of the
/// draw than that it lies in the range; the call panics only on an empty
/// range, which the precondition rules out.
#[verifier::external_body]
fn random_in_range(lo: i32, hi: i32) -> (r: i32)
    requires
        lo < hi,
    ensures
        lo <= r < hi,
{
    rand::random_range(lo..hi)
}

/// The live session state: a snake, an apple and a score, with apples drawn
/// from the thread-local random generator.
pub struct Model {
    pub snake: Snake,
    pub apple: Point,
    pub score: i32,
}

impl Model {
    /// The starting state of a session: a three-cell snake heading right
    /// from (10, 10), no score, and a placeholder apple that the controller
    /// replaces before the first tick.
    pub fn new() -> (m: Model)
        ensures
            m.snake@ == new_body(Point { x: 10, y: 10 }, 3),
            m.apple == (Point { x: 0, y: 0 }),
            m.score == 0,
    {
        let snake = Snake::new(Point { x: 10, y: 10 }, 3);
        let apple = Point { x: 0, y: 0 };
        let score: i32 = 0;
        Model { snake, apple, score }
    }

    /// Builds a session state from given parts, for scripted runs.
    pub fn new_from_snake_apple_and_score(snake: Snake, apple: Point, score: i32) -> (m: Model)
        ensures
            m.snake == snake,
            m.apple == apple,
            m.score == score,
    {
        Model { snake, apple, score }
    }
}

impl GameModel for Model {
    open spec fn body(&self) -> Seq<Point> {
        self.snake@
    }

    open spec fn apple(&self) -> Point {
        self.apple
    }

    open spec fn score(&self) -> i32 {
        self.score
    }

    /// Draws a fresh apple uniformly from the cells strictly inside the
    /// border: `1 <= x <= max_x - 2` and `1 <= y <= max_y - 2`. Nothing
    /// keeps the apple off the snake body: a spawn on an occupied cell is a
    /// known gap, deliberately left open.
    fn generate_new_apple_point(&mut self, max_x: i32, max_y: i32)
        ensures
            1 <= final(self).apple.x <= max_x - 2,
            1 <= final(self).apple.y <= max_y - 2,
    {
        let x = random_in_range(1, max_x - 2);
        let y = random_in_range(1, max_y - 2);
        self.apple = Point { x, y };
    }

    fn get_apple(&self) -> (apple: Point) {
        self.apple
    }

    fn get_snake(&self) -> (snake: &Snake) {
        &self.snake
    }

    fn get_score(&self) -> (score: i32) {
        self.score
    }

    fn update_score(&mut self, amount: i32) {
        self.score = self.score + amount;
    }

    fn move_in_direction(&mut self, direction: Direction, grow: bool) -> (vacated: Option<Point>) {
        self.snake.move_in_direction(direction, grow)
    }
}

/// A scripted double of the session state: the same snake, apple and score,
/// but regenerating the apple leaves it exactly where it is. With it a run
/// of the controller is deterministic, so a recorded game can be replayed
/// and checked cell by cell.
pub struct FixedAppleModel {
    pub model: Model,
}

impl FixedAppleModel {
    /// Builds the double from given parts.
    pub fn new(snake: Snake, apple: Point, score: i32) -> (m: FixedAppleModel)
        ensures
            m.model.snake == snake,
            m.model.apple == apple,
            m.model.score == score,
    {
        FixedAppleModel { model: Model::new_from_snake_apple_and_score(snake, apple, score) }
    }
}

impl GameModel for FixedAppleModel {
    open spec fn body(&self) -> Seq<Point> {
        self.model.snake@
    }

    open spec fn apple(&self) -> Point {
        self.model.apple
    }

    open spec fn score(&self) -> i32 {
        self.model.score
    }

    /// The double never moves the apple.
    fn generate_new_apple_point(&mut self, max_x: i32, max_y: i32)
        ensures
            final(self).apple() == old(self).apple(),
    {
    }

    fn get_apple(&self) -> (apple: Point) {
        self.model.apple
    }

    fn get_snake(&self) -> (snake: &Snake) {
        &self.model.snake
    }

    fn get_score(&self) -> (score: i32) {
        self.model.score
    }

    fn update_score(&mut self, amount: i32) {
        self.model.update_score(amount)
    }

    fn move_in_direction(&mut self, direction: Direction, grow: bool) -> (vacated: Option<Point>) {
        self.model.move_in_direction(direction, grow)
    }
}

} // verus!

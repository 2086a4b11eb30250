//! The presentation boundary: a small capability contract for painting the
//! game and polling the keyboard, plus a recording double that buffers both
//! directions, so the engine runs without a terminal.

use vstd::prelude::*;
use std::collections::VecDeque;
use crate::{Point, Direction, UserInput};

verus! {

/// One paint request seen at the presentation boundary, in the order the
/// engine issued it. The events are the contract-level vocabulary for what
/// the engine asks a renderer to do; a renderer's own state is its business.
#[derive(PartialEq, Eq, Structural, Debug, Clone, Copy)]
pub enum ViewEvent {
    AppleAt(Point),
    HeadAt(Point),
    TailGone(Point),
    ScoreShown(i32),
}

/// The presentation capability consumed by the controller. The arena bounds
/// are fixed for the session's lifetime; painting and polling may change the
/// implementor's state but never the bounds. Each paint request appends
/// exactly one event to the implementor's event history, so the engine's
/// contracts can speak of what was painted, and in what order.
pub trait GameView: Sized {
    /// The playable width: cells have `0 <= x <= max_x`, the border included.
    spec fn max_x_spec(&self) -> i32;

    /// The playable height: cells have `0 <= y <= max_y`, the border included.
    spec fn max_y_spec(&self) -> i32;

    /// Every paint request this view has received, oldest first.
    spec fn events(&self) -> Seq<ViewEvent>;

    /// Paints the apple's cell.
    fn display_apple(&mut self, apple: &Point)
        ensures
            final(self).max_x_spec() == old(self).max_x_spec(),
            final(self).max_y_spec() == old(self).max_y_spec(),
            final(self).events() == old(self).events().push(ViewEvent::AppleAt(*apple)),
    ;

    /// Paints the snake's new head cell.
    fn display_snake_head(&mut self, snake_head: &Point)
        ensures
            final(self).max_x_spec() == old(self).max_x_spec(),
            final(self).max_y_spec() == old(self).max_y_spec(),
            final(self).events() == old(self).events().push(ViewEvent::HeadAt(*snake_head)),
    ;

    /// Erases a vacated tail cell.
    fn delete_snake_tail(&mut self, snake_tail: &Point)
        ensures
            final(self).max_x_spec() == old(self).max_x_spec(),
            final(self).max_y_spec() == old(self).max_y_spec(),
            final(self).events() == old(self).events().push(ViewEvent::TailGone(*snake_tail)),
    ;

    /// Shows the current score.
    fn display_score(&mut self, score: i32)
        ensures
            final(self).max_x_spec() == old(self).max_x_spec(),
            final(self).max_y_spec() == old(self).max_y_spec(),
            final(self).events() == old(self).events().push(ViewEvent::ScoreShown(score)),
    ;

    /// Polls for one decoded key, without blocking beyond the tick budget;
    /// `None` when no key was pressed in time. Polling paints nothing.
    fn get_input_from_user(&mut self) -> (input: Option<UserInput>)
        ensures
            final(self).max_x_spec() == old(self).max_x_spec(),
            final(self).max_y_spec() == old(self).max_y_spec(),
            final(self).events() == old(self).events(),
    ;

    /// Reads the playable width.
    fn get_max_x(&self) -> (r: i32)
        ensures
            r == self.max_x_spec(),
    ;

    /// Reads the playable height.
    fn get_max_y(&self) -> (r: i32)
        ensures
            r == self.max_y_spec(),
    ;
}

/// One recorded paint request for a snake cell: painted in or erased.
#[derive(PartialEq, Eq, Structural, Debug, Clone, Copy)]
pub enum SnakePaint {
    Add(Point),
    Remove(Point),
}

/// Decodes one key, exactly as [`input_from_char`] does: the tail bytes of
/// the four ANSI arrow-key sequences steer, `q` aborts, and every other key
/// is ignored.
pub open spec fn input_from_char_spec(c: char) -> UserInput {
    if c == 'D' {
        UserInput::Direction(Direction::Left)
    } else if c == 'C' {
        UserInput::Direction(Direction::Right)
    } else if c == 'A' {
        UserInput::Direction(Direction::Up)
    } else if c == 'B' {
        UserInput::Direction(Direction::Down)
    } else if c == 'q' {
        UserInput::Abort
    } else {
        UserInput::Other
    }
}

/// Decodes one key read from the terminal into a [`UserInput`].
pub fn input_from_char(c: char) -> (input: UserInput)
    ensures
        input == input_from_char_spec(c),
{
    if c == 'D' {
        UserInput::Direction(Direction::Left)
    } else if c == 'C' {
        UserInput::Direction(Direction::Right)
    } else if c == 'A' {
        UserInput::Direction(Direction::Up)
    } else if c == 'B' {
        UserInput::Direction(Direction::Down)
    } else if c == 'q' {
        UserInput::Abort
    } else {
        UserInput::Other
    }
}

/// A recording double of the presentation boundary. Paint requests pile up
/// in order, each kind in its own list, and polling pops scripted inputs
/// from a queue. A driver may also use it as a mailbox: push live inputs at
/// the back, drain the paint lists after every tick.
pub struct RecordingView {
    pub snake_paints: Vec<SnakePaint>,
    pub apple_paints: Vec<Point>,
    pub scores: Vec<i32>,
    pub user_inputs: VecDeque<UserInput>,
    pub max_x: i32,
    pub max_y: i32,
    pub history: Ghost<Seq<ViewEvent>>,
}

impl RecordingView {
    /// Builds the double over a script of inputs and fixed arena bounds.
    pub fn new(user_inputs: VecDeque<UserInput>, max_x: i32, max_y: i32) -> (v: RecordingView)
        ensures
            v.snake_paints@ == Seq::<SnakePaint>::empty(),
            v.apple_paints@ == Seq::<Point>::empty(),
            v.scores@ == Seq::<i32>::empty(),
            v.user_inputs == user_inputs,
            v.max_x == max_x,
            v.max_y == max_y,
            v.events() == Seq::<ViewEvent>::empty(),
    {
        RecordingView {
            snake_paints: Vec::new(),
            apple_paints: Vec::new(),
            scores: Vec::new(),
            user_inputs,
            max_x,
            max_y,
            history: Ghost(Seq::empty()),
        }
    }
}

impl GameView for RecordingView {
    open spec fn max_x_spec(&self) -> i32 {
        self.max_x
    }

    open spec fn max_y_spec(&self) -> i32 {
        self.max_y
    }

    open spec fn events(&self) -> Seq<ViewEvent> {
        self.history@
    }

    fn display_apple(&mut self, apple: &Point)
        ensures
            *final(self) == (RecordingView {
                apple_paints: final(self).apple_paints,
                history: final(self).history,
                ..*old(self)
            }),
            final(self).apple_paints@ == old(self).apple_paints@.push(*apple),
    {
        self.apple_paints.push(*apple);
        proof {
            self.history@ = self.history@.push(ViewEvent::AppleAt(*apple));
        }
    }

    fn display_snake_head(&mut self, snake_head: &Point)
        ensures
            *final(self) == (RecordingView {
                snake_paints: final(self).snake_paints,
                history: final(self).history,
                ..*old(self)
            }),
            final(self).snake_paints@ == old(self).snake_paints@.push(
                SnakePaint::Add(*snake_head),
            ),
    {
        self.snake_paints.push(SnakePaint::Add(*snake_head));
        proof {
            self.history@ = self.history@.push(ViewEvent::HeadAt(*snake_head));
        }
    }

    fn delete_snake_tail(&mut self, snake_tail: &Point)
        ensures
            *final(self) == (RecordingView {
                snake_paints: final(self).snake_paints,
                history: final(self).history,
                ..*old(self)
            }),
            final(self).snake_paints@ == old(self).snake_paints@.push(
                SnakePaint::Remove(*snake_tail),
            ),
    {
        self.snake_paints.push(SnakePaint::Remove(*snake_tail));
        proof {
            self.history@ = self.history@.push(ViewEvent::TailGone(*snake_tail));
        }
    }

    fn display_score(&mut self, score: i32)
        ensures
            *final(self) == (RecordingView {
                scores: final(self).scores,
                history: final(self).history,
                ..*old(self)
            }),
            final(self).scores@ == old(self).scores@.push(score),
    {
        self.scores.push(score);
        proof {
            self.history@ = self.history@.push(ViewEvent::ScoreShown(score));
        }
    }

    fn get_input_from_user(&mut self) -> (input: Option<UserInput>)
        ensures
            *final(self) == (RecordingView { user_inputs: final(self).user_inputs, ..*old(self) }),
            old(self).user_inputs@.len() == 0 ==> input == Option::<UserInput>::None
                && final(self).user_inputs@ == old(self).user_inputs@,
            old(self).user_inputs@.len() > 0 ==> input == Some(old(self).user_inputs@[0])
                && final(self).user_inputs@ == old(self).user_inputs@.subrange(
                    1,
                    old(self).user_inputs@.len() as int,
                ),
    {
        self.user_inputs.pop_front()
    }

    fn get_max_x(&self) -> (r: i32) {
        self.max_x
    }

    fn get_max_y(&self) -> (r: i32) {
        self.max_y
    }
}

} // verus!

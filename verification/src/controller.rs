//! The game loop's brain: one tick at a time it handles apple consumption,
//! detects the end of the game, resolves the requested heading against the
//! reverse guard, moves the snake and requests the paints.

use vstd::prelude::*;
use crate::{Point, Direction, UserInput, opposite, adjacent, can_shift, shifted};
use crate::snake::{body_wf, direction_between, moved_body};
use crate::model::GameModel;
use crate::view::{GameView, ViewEvent};

verus! {

/// The state of the session after a tick. `Running` is the only
/// re-enterable state; the other two are terminal and carry the final
/// score. A bounded driver also answers `Running` when its tick budget ran
/// out mid-game.
#[derive(PartialEq, Eq, Structural, Debug, Clone, Copy)]
pub enum GameStatus {
    Running,
    GameOver(i32),
    Aborted(i32),
}

/// Whether `head` lies on or beyond the arena border.
pub open spec fn border_hit(head: Point, max_x: i32, max_y: i32) -> bool {
    head.x <= 0 || head.x >= max_x || head.y <= 0 || head.y >= max_y
}

/// Whether the head lies on some non-head body cell.
pub open spec fn self_hit(body: Seq<Point>) -> bool {
    exists|i: int| 1 <= i < body.len() && #[trigger] body[i] == body[0]
}

/// Whether the state ends the game: the head hit the border or the body.
pub open spec fn collided(body: Seq<Point>, max_x: i32, max_y: i32) -> bool {
    border_hit(body[0], max_x, max_y) || self_hit(body)
}

/// The reverse guard: a requested heading exactly opposite to the current
/// one is ignored, any other requested heading is adopted, and with no
/// heading requested the current one is kept.
pub open spec fn resolve_direction_spec(current: Direction, requested: Option<UserInput>) -> Direction {
    match requested {
        Some(UserInput::Direction(d)) => if d == opposite(current) {
            current
        } else {
            d
        },
        _ => current,
    }
}

/// Resolves the requested heading against the current one, per the reverse
/// guard. A pure function of its two inputs.
pub fn resolve_direction(current: Direction, requested: Option<UserInput>) -> (resolved: Direction)
    ensures
        resolved == resolve_direction_spec(current, requested),
{
    match requested {
        Some(UserInput::Direction(direction_from_key)) => {
            match (direction_from_key, current) {
                (Direction::Left, Direction::Right) => Direction::Right,
                (Direction::Right, Direction::Left) => Direction::Left,
                (Direction::Up, Direction::Down) => Direction::Down,
                (Direction::Down, Direction::Up) => Direction::Up,
                (a, _) => a,
            }
        },
        _ => current,
    }
}

/// Reverse-guard law: resolving a requested heading exactly opposite to the
/// current heading always yields the current heading unchanged, whichever
/// of the four headings is current.
pub proof fn lemma_reverse_guard(current: Direction)
    ensures
        resolve_direction_spec(
            current,
            Some(UserInput::Direction(opposite(current))),
        ) == current,
{
}

/// The resolved heading is never the exact opposite of the current one, so
/// a snake can never reverse into its own neck.
pub proof fn lemma_resolved_never_opposite(current: Direction, requested: Option<UserInput>)
    ensures
        resolve_direction_spec(current, requested) != opposite(current),
{
}

/// How one tick relates the state before it (`b0`, `a0`, `s0`: body, apple,
/// score) to the state after it (`b1`, `a1`, `s1`) and to its outcome `st`,
/// in the fixed order of the state machine: consume the apple, then test
/// for collisions against the head established by the previous tick, then
/// resolve the heading and move. The moved-to heading is existentially
/// bound because it depends on what the player pressed; whatever that was,
/// it is never the opposite of the current heading.
pub open spec fn tick_rel(
    b0: Seq<Point>,
    a0: Point,
    s0: i32,
    b1: Seq<Point>,
    a1: Point,
    s1: i32,
    max_x: i32,
    max_y: i32,
    st: GameStatus,
) -> bool {
    let ate = b0[0] == a0;
    &&& s1 == (if ate {
        s0 + 1
    } else {
        s0 as int
    })
    &&& (!ate ==> a1 == a0)
    &&& (if collided(b0, max_x, max_y) {
        st == GameStatus::GameOver(s1) && b1 == b0
    } else {
        ||| (st == GameStatus::Aborted(s1) && b1 == b0)
        ||| (st == GameStatus::Running && (exists|d: Direction|
            d != opposite(direction_between(b0[1], b0[0])) && b1 == moved_body(b0, d, ate)))
    })
}

/// The paint requests one tick issues, in order. An eating tick first
/// repaints the replaced apple and shows the new score; a tick that moves
/// then erases the vacated tail, if one was vacated, and always paints the
/// new head last. A tick that ends the session paints nothing beyond the
/// eating phase.
pub open spec fn tick_events(
    b0: Seq<Point>,
    a0: Point,
    b1: Seq<Point>,
    a1: Point,
    s1: i32,
    st: GameStatus,
) -> Seq<ViewEvent> {
    let ate = b0[0] == a0;
    let eat_events: Seq<ViewEvent> = if ate {
        seq![ViewEvent::AppleAt(a1), ViewEvent::ScoreShown(s1)]
    } else {
        Seq::empty()
    };
    if st is Running {
        let erase_events: Seq<ViewEvent> = if ate {
            Seq::empty()
        } else {
            seq![ViewEvent::TailGone(b0.last())]
        };
        eat_events + erase_events + seq![ViewEvent::HeadAt(b1[0])]
    } else {
        eat_events
    }
}

/// One move of a well-formed body yields a well-formed body: the new head
/// is one axis-aligned step from the old one, and every other neighboring
/// pair was already adjacent.
pub proof fn lemma_moved_body_wf(body: Seq<Point>, d: Direction, grow: bool)
    requires
        body_wf(body),
        can_shift(body[0], d),
    ensures
        body_wf(moved_body(body, d, grow)),
{
    let moved = moved_body(body, d, grow);
    assert forall|i: int| 0 <= i < moved.len() - 1 implies adjacent(
        #[trigger] moved[i],
        moved[i + 1],
    ) by {
        if i == 0 {
            assert(moved[1] == body[0]);
            assert(moved[0].x == shifted(body[0], d).0 && moved[0].y == shifted(body[0], d).1);
        } else {
            assert(moved[i] == body[i - 1]);
            assert(moved[i + 1] == body[i]);
            assert(adjacent(body[i - 1], body[i]));
        }
    }
}

/// A snapshot of the session between ticks: the state triple, and every
/// paint request issued up to that moment.
pub struct TickState {
    pub body: Seq<Point>,
    pub apple: Point,
    pub score: i32,
    pub painted: Seq<ViewEvent>,
}

/// One legal non-terminal tick between two snapshots: the state triples
/// are related by [`tick_rel`] with outcome `Running`, and the paint
/// history grows by exactly that tick's requests.
pub open spec fn step_ok(pre: TickState, post: TickState, max_x: i32, max_y: i32) -> bool {
    &&& tick_rel(
        pre.body,
        pre.apple,
        pre.score,
        post.body,
        post.apple,
        post.score,
        max_x,
        max_y,
        GameStatus::Running,
    )
    &&& post.painted == pre.painted + tick_events(
        pre.body,
        pre.apple,
        post.body,
        post.apple,
        post.score,
        GameStatus::Running,
    )
}

/// A chain of snapshots, each reached from the previous one by one legal
/// non-terminal tick.
pub open spec fn running_trace(trace: Seq<TickState>, max_x: i32, max_y: i32) -> bool {
    &&& trace.len() >= 1
    &&& forall|i: int|
        0 <= i < trace.len() - 1 ==> #[trigger] step_ok(trace[i], trace[i + 1], max_x, max_y)
}

/// How one driver call relates its starting state (body `b0`, score `s0`,
/// paints `e0`) to its final state (`b1`, `a1`, `s1`, `e1`) and outcome
/// `r`: first one apple is placed and painted, then a chain of legal ticks
/// runs. With outcome `Running` the chain is exactly `max_ticks` ticks
/// long, the budget spent mid-game; a terminal outcome cuts the chain
/// short, its last tick related by [`tick_rel`] with that outcome. The
/// apple placed before the first tick, like each tick's own draw and
/// input, is existentially bound: it came from outside.
pub open spec fn run_rel(
    b0: Seq<Point>,
    s0: i32,
    e0: Seq<ViewEvent>,
    b1: Seq<Point>,
    a1: Point,
    s1: i32,
    e1: Seq<ViewEvent>,
    max_x: i32,
    max_y: i32,
    max_ticks: int,
    r: GameStatus,
) -> bool {
    exists|trace: Seq<TickState>|
        {
            &&& #[trigger] running_trace(trace, max_x, max_y)
            &&& trace[0].body == b0
            &&& trace[0].score == s0
            &&& trace[0].painted == e0.push(ViewEvent::AppleAt(trace[0].apple))
            &&& if r is Running {
                &&& trace.len() == max_ticks + 1
                &&& trace.last() == (TickState { body: b1, apple: a1, score: s1, painted: e1 })
            } else {
                &&& trace.len() <= max_ticks
                &&& tick_rel(
                    trace.last().body,
                    trace.last().apple,
                    trace.last().score,
                    b1,
                    a1,
                    s1,
                    max_x,
                    max_y,
                    r,
                )
                &&& e1 == trace.last().painted + tick_events(
                    trace.last().body,
                    trace.last().apple,
                    b1,
                    a1,
                    s1,
                    r,
                )
            }
        }
}

/// The controller: a presentation capability and a session state, advanced
/// in lock step.
pub struct Controller<V: GameView, M: GameModel> {
    pub view: V,
    pub model: M,
}

impl<V: GameView, M: GameModel> Controller<V, M> {
    /// Pairs a presentation capability with a session state.
    pub fn new(view: V, model: M) -> (c: Controller<V, M>)
        ensures
            c.view == view,
            c.model == model,
    {
        Controller { view, model }
    }

    /// A state the controller can advance: a well-formed snake body, and an
    /// arena wide and tall enough to hold a border and a playable inside
    /// for the apple.
    pub open spec fn wf(&self) -> bool {
        &&& body_wf(self.model.body())
        &&& self.view.max_x_spec() >= 4
        &&& self.view.max_y_spec() >= 4
    }

    /// Replaces the apple and paints its new cell.
    pub fn _generate_new_apple_point(&mut self)
        requires
            old(self).view.max_x_spec() >= 4,
            old(self).view.max_y_spec() >= 4,
        ensures
            final(self).model.body() == old(self).model.body(),
            final(self).model.score() == old(self).model.score(),
            final(self).view.max_x_spec() == old(self).view.max_x_spec(),
            final(self).view.max_y_spec() == old(self).view.max_y_spec(),
            final(self).view.events() == old(self).view.events().push(
                ViewEvent::AppleAt(final(self).model.apple()),
            ),
    {
        let max_x = self.view.get_max_x();
        let max_y = self.view.get_max_y();
        self.model.generate_new_apple_point(max_x, max_y);
        let apple = self.model.get_apple();
        self.view.display_apple(&apple);
    }

    /// Awards `amount` to the score and shows the new total.
    pub fn _update_score(&mut self, amount: i32)
        requires
            i32::MIN <= old(self).model.score() + amount <= i32::MAX,
        ensures
            final(self).model.score() == old(self).model.score() + amount,
            final(self).model.body() == old(self).model.body(),
            final(self).model.apple() == old(self).model.apple(),
            final(self).view.max_x_spec() == old(self).view.max_x_spec(),
            final(self).view.max_y_spec() == old(self).view.max_y_spec(),
            final(self).view.events() == old(self).view.events().push(
                ViewEvent::ScoreShown(final(self).model.score()),
            ),
    {
        self.model.update_score(amount);
        let score = self.model.get_score();
        self.view.display_score(score);
    }

    /// Whether the head lies on or beyond the arena border.
    pub fn _collided_with_borders(&self) -> (r: bool)
        requires
            self.model.body().len() >= 1,
        ensures
            r == border_hit(self.model.body()[0], self.view.max_x_spec(), self.view.max_y_spec()),
    {
        let snake = self.model.get_snake();
        let head = snake.body[0];
        head.x <= 0 || head.x >= self.view.get_max_x() || head.y <= 0 || head.y
            >= self.view.get_max_y()
    }

    /// Whether the head lies on some non-head body cell.
    pub fn _collided_with_self(&self) -> (r: bool)
        requires
            self.model.body().len() >= 1,
        ensures
            r == self_hit(self.model.body()),
    {
        let snake = self.model.get_snake();
        let head = snake.body[0];
        let n = snake.body.len();
        let mut i: usize = 1;
        while i < n
            invariant
                1 <= i <= n,
                n == snake.body@.len(),
                head == snake.body@[0],
                snake@ == self.model.body(),
                forall|j: int| 1 <= j < i ==> #[trigger] snake.body@[j] != snake.body@[0],
            decreases n - i,
        {
            if snake.body[i] == head {
                proof {
                    assert(self.model.body()[i as int] == self.model.body()[0]);
                    assert(self_hit(self.model.body()));
                }
                return true;
            }
            i = i + 1;
        }
        false
    }

    /// Whether the head occupies the apple's cell.
    pub fn _ate_apple(&self) -> (r: bool)
        requires
            self.model.body().len() >= 1,
        ensures
            r == (self.model.body()[0] == self.model.apple()),
    {
        let snake = self.model.get_snake();
        let head = snake.body[0];
        let apple = self.model.get_apple();
        head.x == apple.x && head.y == apple.y
    }

    /// Resolves this tick's heading from the current heading, inferred from
    /// the body, and the polled input, per the reverse guard.
    pub fn _get_new_direction(&self, input: Option<UserInput>) -> (d: Direction)
        requires
            self.model.body().len() >= 2,
            adjacent(self.model.body()[0], self.model.body()[1]),
        ensures
            d == resolve_direction_spec(
                direction_between(self.model.body()[1], self.model.body()[0]),
                input,
            ),
    {
        let snake = self.model.get_snake();
        let current_direction = snake.get_current_direction();
        resolve_direction(current_direction, input)
    }

    /// One tick of the state machine, in fixed order: consume the apple and
    /// regenerate it, test the head established by the previous tick
    /// against border and body, poll one input, resolve the heading, move,
    /// and request the paints for the new head and any vacated tail cell.
    pub fn tick(&mut self) -> (st: GameStatus)
        requires
            old(self).wf(),
            old(self).model.score() < i32::MAX,
        ensures
            final(self).wf(),
            final(self).view.max_x_spec() == old(self).view.max_x_spec(),
            final(self).view.max_y_spec() == old(self).view.max_y_spec(),
            final(self).model.score() >= old(self).model.score(),
            tick_rel(
                old(self).model.body(),
                old(self).model.apple(),
                old(self).model.score(),
                final(self).model.body(),
                final(self).model.apple(),
                final(self).model.score(),
                old(self).view.max_x_spec(),
                old(self).view.max_y_spec(),
                st,
            ),
            final(self).view.events() == old(self).view.events() + tick_events(
                old(self).model.body(),
                old(self).model.apple(),
                final(self).model.body(),
                final(self).model.apple(),
                final(self).model.score(),
                st,
            ),
    {
        let grow = if self._ate_apple() {
            self._generate_new_apple_point();
            self._update_score(1);
            true
        } else {
            false
        };
        if self._collided_with_borders() || self._collided_with_self() {
            let score = self.model.get_score();
            proof {
                assert(self.view.events() =~= old(self).view.events() + tick_events(
                    old(self).model.body(),
                    old(self).model.apple(),
                    self.model.body(),
                    self.model.apple(),
                    self.model.score(),
                    GameStatus::GameOver(score),
                ));
            }
            return GameStatus::GameOver(score);
        }
        let input = self.view.get_input_from_user();
        if let Some(UserInput::Abort) = input {
            let score = self.model.get_score();
            proof {
                assert(self.view.events() =~= old(self).view.events() + tick_events(
                    old(self).model.body(),
                    old(self).model.apple(),
                    self.model.body(),
                    self.model.apple(),
                    self.model.score(),
                    GameStatus::Aborted(score),
                ));
            }
            return GameStatus::Aborted(score);
        }
        let new_direction = self._get_new_direction(input);
        proof {
            lemma_resolved_never_opposite(
                direction_between(self.model.body()[1], self.model.body()[0]),
                input,
            );
            lemma_moved_body_wf(self.model.body(), new_direction, grow);
        }
        let vacated = self.model.move_in_direction(new_direction, grow);
        match vacated {
            Some(tail) => self.view.delete_snake_tail(&tail),
            None => (),
        }
        let snake = self.model.get_snake();
        let head = snake.body[0];
        self.view.display_snake_head(&head);
        proof {
            assert(self.view.events() =~= old(self).view.events() + tick_events(
                old(self).model.body(),
                old(self).model.apple(),
                self.model.body(),
                self.model.apple(),
                self.model.score(),
                GameStatus::Running,
            ));
        }
        GameStatus::Running
    }

    /// Drives the session: places the first apple, then ticks until the
    /// game ends, the player aborts, or `max_ticks` ticks have run. The
    /// budget is what makes the loop provably finite: a session against a
    /// live keyboard need not ever end, so an unbounded driver instead
    /// places the first apple itself and calls [`Self::tick`] as long as it
    /// pleases.
    pub fn run(&mut self, max_ticks: usize) -> (r: GameStatus)
        requires
            old(self).wf(),
            old(self).model.score() + max_ticks <= i32::MAX,
        ensures
            final(self).wf(),
            final(self).view.max_x_spec() == old(self).view.max_x_spec(),
            final(self).view.max_y_spec() == old(self).view.max_y_spec(),
            final(self).model.score() >= old(self).model.score(),
            r matches GameStatus::GameOver(s) ==> s == final(self).model.score() && collided(
                final(self).model.body(),
                final(self).view.max_x_spec(),
                final(self).view.max_y_spec(),
            ),
            r matches GameStatus::Aborted(s) ==> s == final(self).model.score(),
            max_ticks == 0 ==> r == GameStatus::Running && final(self).model.body() == old(
                self,
            ).model.body() && final(self).model.score() == old(self).model.score(),
            max_ticks >= 1 && collided(
                old(self).model.body(),
                old(self).view.max_x_spec(),
                old(self).view.max_y_spec(),
            ) ==> r is GameOver,
            run_rel(
                old(self).model.body(),
                old(self).model.score(),
                old(self).view.events(),
                final(self).model.body(),
                final(self).model.apple(),
                final(self).model.score(),
                final(self).view.events(),
                old(self).view.max_x_spec(),
                old(self).view.max_y_spec(),
                max_ticks as int,
                r,
            ),
    {
        self._generate_new_apple_point();
        let ghost mut trace: Seq<TickState> = seq![
            TickState {
                body: self.model.body(),
                apple: self.model.apple(),
                score: self.model.score(),
                painted: self.view.events(),
            },
        ];
        let mut ticks_left: usize = max_ticks;
        while ticks_left > 0
            invariant
                self.wf(),
                self.view.max_x_spec() == old(self).view.max_x_spec(),
                self.view.max_y_spec() == old(self).view.max_y_spec(),
                old(self).model.score() <= self.model.score(),
                self.model.score() + ticks_left <= i32::MAX,
                running_trace(trace, old(self).view.max_x_spec(), old(self).view.max_y_spec()),
                trace.len() == max_ticks - ticks_left + 1,
                trace[0].body == old(self).model.body(),
                trace[0].score == old(self).model.score(),
                trace[0].painted == old(self).view.events().push(
                    ViewEvent::AppleAt(trace[0].apple),
                ),
                trace.last() == (TickState {
                    body: self.model.body(),
                    apple: self.model.apple(),
                    score: self.model.score(),
                    painted: self.view.events(),
                }),
            decreases ticks_left,
        {
            let st = self.tick();
            match st {
                GameStatus::Running => {
                    proof {
                        let post = TickState {
                            body: self.model.body(),
                            apple: self.model.apple(),
                            score: self.model.score(),
                            painted: self.view.events(),
                        };
                        let prev = trace;
                        assert(step_ok(
                            prev.last(),
                            post,
                            old(self).view.max_x_spec(),
                            old(self).view.max_y_spec(),
                        ));
                        trace = trace.push(post);
                        assert forall|i: int| 0 <= i < trace.len() - 1 implies #[trigger] step_ok(
                            trace[i],
                            trace[i + 1],
                            old(self).view.max_x_spec(),
                            old(self).view.max_y_spec(),
                        ) by {
                            if i < prev.len() - 1 {
                                assert(step_ok(
                                    prev[i],
                                    prev[i + 1],
                                    old(self).view.max_x_spec(),
                                    old(self).view.max_y_spec(),
                                ));
                            } else {
                                assert(trace[i] == prev.last() && trace[i + 1] == post);
                            }
                        }
                    }
                    ticks_left = ticks_left - 1;
                },
                GameStatus::GameOver(s) => {
                    proof {
                        assert(running_trace(
                            trace,
                            old(self).view.max_x_spec(),
                            old(self).view.max_y_spec(),
                        ));
                    }
                    return GameStatus::GameOver(s);
                },
                GameStatus::Aborted(s) => {
                    proof {
                        // this tick answered `Aborted`, so its starting
                        // state had not collided; neither, then, had the
                        // starting body, by the first chain step if one ran
                        if trace.len() >= 2 {
                            assert(step_ok(
                                trace[0],
                                trace[1],
                                old(self).view.max_x_spec(),
                                old(self).view.max_y_spec(),
                            ));
                        }
                        assert(running_trace(
                            trace,
                            old(self).view.max_x_spec(),
                            old(self).view.max_y_spec(),
                        ));
                    }
                    return GameStatus::Aborted(s);
                },
            }
        }
        proof {
            if max_ticks >= 1 {
                assert(step_ok(
                    trace[0],
                    trace[1],
                    old(self).view.max_x_spec(),
                    old(self).view.max_y_spec(),
                ));
            }
            assert(running_trace(
                trace,
                old(self).view.max_x_spec(),
                old(self).view.max_y_spec(),
            ));
        }
        GameStatus::Running
    }
}

} // verus!

//! The snake itself: an ordered body of cells, head first, that moves one
//! cell per tick and grows when it eats.

use vstd::prelude::*;
use std::collections::VecDeque;
use crate::{Point, Direction, adjacent, can_shift, shifted, direction_delta};

verus! {

/// The snake's body, head first. Insertion order is body order from head to
/// tail. A body fit for direction inference has at least two cells (head and
/// neck) and keeps consecutive cells exactly one axis-aligned step apart;
/// [`body_wf`] states that shape.
pub struct Snake {
    pub body: VecDeque<Point>,
}

impl View for Snake {
    type V = Seq<Point>;

    open spec fn view(&self) -> Seq<Point> {
        self.body@
    }
}

/// The body that [`Snake::new`] builds: `n` cells extending from `head`
/// along the negative `x` axis.
pub open spec fn new_body(head: Point, n: nat) -> Seq<Point> {
    Seq::new(n, |i: int| Point { x: (head.x - i) as i32, y: head.y })
}

/// A well-formed body: at least head and neck, and consecutive cells
/// adjacent. Every move preserves this shape by construction.
pub open spec fn body_wf(body: Seq<Point>) -> bool {
    &&& body.len() >= 2
    &&& forall|i: int| 0 <= i < body.len() - 1 ==> adjacent(#[trigger] body[i], body[i + 1])
}

/// The heading read off two consecutive cells, the cell nearer the head
/// second. Meaningful only when the two cells are adjacent.
pub open spec fn direction_between(second: Point, head: Point) -> Direction {
    if head.x - second.x == 1 {
        Direction::Right
    } else if head.x - second.x == -1 {
        Direction::Left
    } else if head.y - second.y == 1 {
        Direction::Down
    } else {
        Direction::Up
    }
}

/// The body after one move along `d`: a new head one cell along `d`, and,
/// unless the snake grows, the tail cell gone.
pub open spec fn moved_body(body: Seq<Point>, d: Direction, grow: bool) -> Seq<Point> {
    let new_head = Point { x: shifted(body[0], d).0 as i32, y: shifted(body[0], d).1 as i32 };
    if grow {
        seq![new_head] + body
    } else {
        seq![new_head] + body.drop_last()
    }
}

impl Snake {
    /// Builds a body of `n` cells extending from `head` along the negative
    /// `x` axis. Construction tolerates `n < 2`, but only a body of at least
    /// two cells supports direction inference later.
    pub fn new(head: Point, n: usize) -> (s: Snake)
        requires
            n <= i32::MAX,
            n >= 1 ==> head.x - (n - 1) >= i32::MIN,
        ensures
            s@ == new_body(head, n as nat),
    {
        let mut body: VecDeque<Point> = VecDeque::new();
        let mut i: usize = 0;
        while i < n
            invariant
                i <= n,
                n <= i32::MAX,
                n >= 1 ==> head.x - (n - 1) >= i32::MIN,
                body@ == new_body(head, i as nat),
            decreases n - i,
        {
            body.push_back(Point { x: head.x - (i as i32), y: head.y });
            i = i + 1;
            proof {
                assert(body@ =~= new_body(head, i as nat));
            }
        }
        Snake { body }
    }

    /// Infers the current heading strictly from the displacement between the
    /// head and the cell behind it. The displacement of a well-formed body is
    /// always one axis-aligned step, so the heading is always defined.
    pub fn get_current_direction(&self) -> (d: Direction)
        requires
            self@.len() >= 2,
            adjacent(self@[0], self@[1]),
        ensures
            d == direction_between(self@[1], self@[0]),
            direction_delta(d).0 == self@[0].x - self@[1].x,
            direction_delta(d).1 == self@[0].y - self@[1].y,
    {
        let head = self.body[0];
        let second = self.body[1];
        if head.x - second.x == 1 {
            Direction::Right
        } else if head.x - second.x == -1 {
            Direction::Left
        } else if head.y - second.y == 1 {
            Direction::Down
        } else {
            Direction::Up
        }
    }

    /// Pushes a new head one cell along `direction`. If `grow` is false the
    /// tail cell is vacated and returned, for the renderer to erase; if
    /// `grow` is true the body lengthens by one and nothing is returned.
    pub fn move_in_direction(&mut self, direction: Direction, grow: bool) -> (vacated: Option<
        Point,
    >)
        requires
            old(self)@.len() >= 1,
            can_shift(old(self)@[0], direction),
        ensures
            final(self)@ == moved_body(old(self)@, direction, grow),
            grow ==> final(self)@.len() == old(self)@.len() + 1,
            !grow ==> final(self)@.len() == old(self)@.len(),
            vacated == (if grow {
                Option::<Point>::None
            } else {
                Some(old(self)@.last())
            }),
    {
        let head = self.body[0];
        let new_head = match direction {
            Direction::Up => Point { x: head.x, y: head.y - 1 },
            Direction::Down => Point { x: head.x, y: head.y + 1 },
            Direction::Left => Point { x: head.x - 1, y: head.y },
            Direction::Right => Point { x: head.x + 1, y: head.y },
        };
        self.body.push_front(new_head);
        if grow {
            None
        } else {
            let vacated = self.body.pop_back();
            proof {
                assert(self@ =~= moved_body(old(self)@, direction, grow));
            }
            vacated
        }
    }
}

/// Every construction of `n >= 2` cells yields a well-formed body: `n` cells
/// long, with consecutive cells exactly one axis-aligned step apart.
pub proof fn lemma_new_body_wf(head: Point, n: nat)
    requires
        2 <= n <= i32::MAX,
        head.x - (n - 1) >= i32::MIN,
    ensures
        new_body(head, n).len() == n,
        body_wf(new_body(head, n)),
{
    let body = new_body(head, n);
    assert forall|i: int| 0 <= i < body.len() - 1 implies adjacent(#[trigger] body[i], body[i + 1])
    by {
        assert(body[i].x == head.x - i);
        assert(body[i + 1].x == head.x - (i + 1));
    }
}

/// A fresh body extends from its head along the negative `x` axis, so the
/// inferred heading is always `Right`.
pub proof fn lemma_new_body_heads_right(head: Point, n: nat)
    requires
        2 <= n <= i32::MAX,
        head.x - (n - 1) >= i32::MIN,
    ensures
        direction_between(new_body(head, n)[1], new_body(head, n)[0]) == Direction::Right,
{
}

} // verus!

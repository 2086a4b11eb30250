//! A verified core for a terminal snake game.
//!
//! The engine owns the snake body, the apple and the score, and advances the
//! game one tick at a time. Rendering and keyboard input stay outside, behind
//! two small capability interfaces ([`model::GameModel`] and
//! [`view::GameView`]), so the engine can be driven by a real terminal or by
//! the scripted doubles this crate provides.

use vstd::prelude::*;

pub mod snake;
pub mod model;
pub mod view;
pub mod controller;

verus! {

/// A cell of the arena, in integer coordinates. The `y` axis grows
/// downwards, as on a terminal.
#[derive(PartialEq, Eq, Structural, Debug, Clone, Copy)]
pub struct Point {
    pub x: i32,
    pub y: i32,
}

/// A heading of the snake. There is no neutral value: a snake always moves.
#[derive(PartialEq, Eq, Structural, Debug, Clone, Copy)]
pub enum Direction {
    Up,
    Down,
    Left,
    Right,
}

/// One decoded keyboard event: a requested heading, a request to abort the
/// session, or any other key, which the engine ignores.
#[derive(PartialEq, Eq, Structural, Debug, Clone, Copy)]
pub enum UserInput {
    Direction(Direction),
    Abort,
    Other,
}

/// The one-cell displacement that one move along `d` adds to the head,
/// as `(dx, dy)`.
pub open spec fn direction_delta(d: Direction) -> (int, int) {
    match d {
        Direction::Up => (0, -1),
        Direction::Down => (0, 1),
        Direction::Left => (-1, 0),
        Direction::Right => (1, 0),
    }
}

/// The exact opposite heading; moving there would reverse the snake into
/// its own neck.
pub open spec fn opposite(d: Direction) -> Direction {
    match d {
        Direction::Up => Direction::Down,
        Direction::Down => Direction::Up,
        Direction::Left => Direction::Right,
        Direction::Right => Direction::Left,
    }
}

/// Two cells are adjacent when they differ by exactly one cell along
/// exactly one axis.
pub open spec fn adjacent(a: Point, b: Point) -> bool {
    ||| (b.x - a.x == 1 && b.y == a.y)
    ||| (b.x - a.x == -1 && b.y == a.y)
    ||| (b.x == a.x && b.y - a.y == 1)
    ||| (b.x == a.x && b.y - a.y == -1)
}

/// The cell one move along `d` away from `p`, as unbounded integers.
pub open spec fn shifted(p: Point, d: Direction) -> (int, int) {
    (p.x + direction_delta(d).0, p.y + direction_delta(d).1)
}

/// Whether the cell one move along `d` away from `p` still fits in `i32`
/// coordinates, so that the move can be computed without overflow.
pub open spec fn can_shift(p: Point, d: Direction) -> bool {
    &&& i32::MIN <= shifted(p, d).0 <= i32::MAX
    &&& i32::MIN <= shifted(p, d).1 <= i32::MAX
}

} // verus!

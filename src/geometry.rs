//! Positions, directions, teams and the fixed extents of the playing field.

use vstd::prelude::*;

verus! {

/// Width of the display, in pixels.
pub const DISPLAY_SIZE_X: i32 = 128;

/// Height of the display, in pixels.
pub const DISPLAY_SIZE_Y: i32 = 64;

/// Distance beyond the display within which bullets are still tracked.
pub const DISPLAY_MARGIN: i32 = 8;

/// Largest Manhattan distance at which two entities collide.
pub const HIT_DISTANCE: i32 = 1;

/// One of the two sides of a duel.
#[derive(Clone, Copy, Debug, PartialEq, Eq, Structural)]
pub enum Team {
    Mono,
    Di,
}

impl Team {
    pub open spec fn opponent_spec(self) -> Team {
        match self {
            Team::Mono => Team::Di,
            Team::Di => Team::Mono,
        }
    }

    /// The other team.
    pub fn opponent(self) -> (r: Team)
        ensures
            r == self.opponent_spec(),
            r != self,
    {
        match self {
            Team::Mono => Team::Di,
            Team::Di => Team::Mono,
        }
    }
}

/// A direction in world coordinates.
#[derive(Clone, Copy, Debug, PartialEq, Eq, Structural)]
pub enum AbsoluteDirection {
    XPlus,
    XMinus,
    YPlus,
    YMinus,
}

impl AbsoluteDirection {
    /// Unit step along x of one movement in this direction.
    pub open spec fn step_x(self) -> int {
        match self {
            AbsoluteDirection::XPlus => 1,
            AbsoluteDirection::XMinus => -1,
            _ => 0,
        }
    }

    /// Unit step along y of one movement in this direction.
    pub open spec fn step_y(self) -> int {
        match self {
            AbsoluteDirection::YPlus => 1,
            AbsoluteDirection::YMinus => -1,
            _ => 0,
        }
    }
}

/// A direction relative to the way an actor faces.
#[derive(Clone, Copy, Debug, PartialEq, Eq, Structural)]
pub enum RelativeDirection {
    Forward,
    Backward,
    Left,
    Right,
}

/// Which relative directions are currently requested.
#[derive(Clone, Copy, Debug, PartialEq, Eq, Structural)]
pub struct RelativeDirections {
    pub forward: bool,
    pub backward: bool,
    pub left: bool,
    pub right: bool,
}

impl RelativeDirections {
    /// No direction requested.
    pub fn new() -> (r: RelativeDirections)
        ensures
            !r.forward && !r.backward && !r.left && !r.right,
    {
        RelativeDirections { forward: false, backward: false, left: false, right: false }
    }
}

/// An integer point in world coordinates.
#[derive(Clone, Copy, Debug, PartialEq, Eq, Structural)]
pub struct Position {
    pub x: i32,
    pub y: i32,
}

/// Manhattan distance between two points.
pub open spec fn manhattan(a: Position, b: Position) -> int {
    let dx = a.x - b.x;
    let dy = a.y - b.y;
    (if dx < 0 { -dx } else { dx }) + (if dy < 0 { -dy } else { dy })
}

/// Whether two points are close enough to collide.
pub open spec fn within_hit(a: Position, b: Position) -> bool {
    manhattan(a, b) <= HIT_DISTANCE
}

/// Whether a point lies on the display, edges included.
pub open spec fn on_display(x: int, y: int) -> bool {
    0 <= x <= DISPLAY_SIZE_X && 0 <= y <= DISPLAY_SIZE_Y
}

/// Whether a point lies strictly inside the display extended by the margin.
pub open spec fn in_tracked_region(x: int, y: int) -> bool {
    -DISPLAY_MARGIN < x < DISPLAY_SIZE_X + DISPLAY_MARGIN
        && -DISPLAY_MARGIN < y < DISPLAY_SIZE_Y + DISPLAY_MARGIN
}

impl Position {
    pub fn new(x: i32, y: i32) -> (r: Position)
        ensures
            r.x == x,
            r.y == y,
    {
        Position { x, y }
    }
}

fn abs_i64(v: i64) -> (r: i64)
    requires
        v > i64::MIN,
    ensures
        r == (if v < 0 { -v } else { v as int }),
{
    if v < 0 {
        -v
    } else {
        v
    }
}

/// Whether two points are within the hit distance of each other.
pub fn is_hit(a: Position, b: Position) -> (r: bool)
    ensures
        r == within_hit(a, b),
{
    let dx = abs_i64(a.x as i64 - b.x as i64);
    let dy = abs_i64(a.y as i64 - b.y as i64);
    dx + dy <= HIT_DISTANCE as i64
}

/// Whether a point lies strictly inside the display extended by the margin.
pub fn is_in_tracked_region(p: Position) -> (r: bool)
    ensures
        r == in_tracked_region(p.x as int, p.y as int),
{
    -DISPLAY_MARGIN < p.x && p.x < DISPLAY_SIZE_X + DISPLAY_MARGIN && -DISPLAY_MARGIN < p.y
        && p.y < DISPLAY_SIZE_Y + DISPLAY_MARGIN
}

} // verus!

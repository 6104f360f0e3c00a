//! The four cardinal directions, in screen coordinates (y grows downward).
use vstd::prelude::*;

verus! {

#[derive(Clone, Copy, Debug, PartialEq, Eq, Structural)]
pub enum Direction {
    Right,
    Left,
    Up,
    Down,
}

/// Horizontal unit step of a direction.
pub open spec fn spec_dx(d: Direction) -> int {
    match d {
        Direction::Right => 1,
        Direction::Left => -1,
        _ => 0,
    }
}

/// Vertical unit step of a direction (screen coordinates: up is negative).
pub open spec fn spec_dy(d: Direction) -> int {
    match d {
        Direction::Up => -1,
        Direction::Down => 1,
        _ => 0,
    }
}

pub open spec fn spec_opposite(d: Direction) -> Direction {
    match d {
        Direction::Right => Direction::Left,
        Direction::Left => Direction::Right,
        Direction::Up => Direction::Down,
        Direction::Down => Direction::Up,
    }
}

pub open spec fn spec_is_horizontal(d: Direction) -> bool {
    d == Direction::Right || d == Direction::Left
}

/// A change of direction is a turn exactly when it switches axis.
pub open spec fn spec_can_change_to(from: Direction, to: Direction) -> bool {
    spec_is_horizontal(from) != spec_is_horizontal(to)
}

/// The direction chosen from the keys held this frame: right wins over left,
/// left over up, up over down.
pub open spec fn spec_pick_direction(right: bool, left: bool, up: bool, down: bool) -> Option<
    Direction,
> {
    if right {
        Some(Direction::Right)
    } else if left {
        Some(Direction::Left)
    } else if up {
        Some(Direction::Up)
    } else if down {
        Some(Direction::Down)
    } else {
        None
    }
}

impl Direction {
    pub fn dx(self) -> (r: i64)
        ensures
            r == spec_dx(self),
    {
        match self {
            Direction::Right => 1,
            Direction::Left => -1,
            _ => 0,
        }
    }

    pub fn dy(self) -> (r: i64)
        ensures
            r == spec_dy(self),
    {
        match self {
            Direction::Up => -1,
            Direction::Down => 1,
            _ => 0,
        }
    }

    pub fn opposite(self) -> (r: Direction)
        ensures
            r == spec_opposite(self),
            spec_dx(r) == -spec_dx(self),
            spec_dy(r) == -spec_dy(self),
    {
        match self {
            Direction::Right => Direction::Left,
            Direction::Left => Direction::Right,
            Direction::Up => Direction::Down,
            Direction::Down => Direction::Up,
        }
    }

    pub fn is_horizontal(self) -> (r: bool)
        ensures
            r == spec_is_horizontal(self),
    {
        match self {
            Direction::Right | Direction::Left => true,
            _ => false,
        }
    }

    /// Only a change to the other axis is allowed: staying on course and
    /// reversing are both refused.
    pub fn can_change_to(self, other: Direction) -> (r: bool)
        ensures
            r == spec_can_change_to(self, other),
            r ==> other != self && other != spec_opposite(self),
    {
        self.is_horizontal() != other.is_horizontal()
    }
}

/// Picks the requested direction from the direction keys pressed this frame.
pub fn pick_direction(right: bool, left: bool, up: bool, down: bool) -> (r: Option<Direction>)
    ensures
        r == spec_pick_direction(right, left, up, down),
{
    if right {
        Some(Direction::Right)
    } else if left {
        Some(Direction::Left)
    } else if up {
        Some(Direction::Up)
    } else if down {
        Some(Direction::Down)
    } else {
        None
    }
}

} // verus!

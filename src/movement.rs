//! Directional input flags and their resolution into a velocity.
use vstd::prelude::*;

verus! {

/// One of the four directional controls.
#[derive(Clone, Copy, Debug, PartialEq, Eq, Structural)]
pub enum Direction {
    Up,
    Down,
    Left,
    Right,
}

/// Which directional controls are currently held.
#[derive(Clone, Copy, Debug, PartialEq, Eq, Structural)]
pub struct MoveStates {
    pub up: bool,
    pub down: bool,
    pub right: bool,
    pub left: bool,
}

/// A velocity in whole units per second, one component per axis.
/// Positive `y` points down the screen.
#[derive(Clone, Copy, Debug, PartialEq, Eq, Structural)]
pub struct Velocity {
    pub x: i64,
    pub y: i64,
}

/// A per-axis speed cap in whole units per second.
#[derive(Clone, Copy, Debug, PartialEq, Eq, Structural)]
pub struct Speed {
    pub x: u32,
    pub y: u32,
}

impl MoveStates {
    /// The flags with `d` set to `held` and the other three unchanged.
    pub open spec fn with(self, d: Direction, held: bool) -> MoveStates {
        match d {
            Direction::Up => MoveStates { up: held, ..self },
            Direction::Down => MoveStates { down: held, ..self },
            Direction::Left => MoveStates { left: held, ..self },
            Direction::Right => MoveStates { right: held, ..self },
        }
    }

    /// No direction is held.
    pub open spec fn idle(self) -> bool {
        !self.up && !self.down && !self.left && !self.right
    }

    /// All four flags cleared.
    pub fn new() -> (r: MoveStates)
        ensures
            r.idle(),
    {
        MoveStates { up: false, down: false, right: false, left: false }
    }

    /// Marks `d` as held. Pressing a held direction again changes nothing.
    pub fn press(&mut self, d: Direction)
        ensures
            *final(self) == old(self).with(d, true),
    {
        match d {
            Direction::Up => self.up = true,
            Direction::Down => self.down = true,
            Direction::Left => self.left = true,
            Direction::Right => self.right = true,
        }
    }

    /// Marks `d` as no longer held.
    pub fn release(&mut self, d: Direction)
        ensures
            *final(self) == old(self).with(d, false),
    {
        match d {
            Direction::Up => self.up = false,
            Direction::Down => self.down = false,
            Direction::Left => self.left = false,
            Direction::Right => self.right = false,
        }
    }

    /// Whether no direction is held.
    pub fn is_idle(&self) -> (r: bool)
        ensures
            r == self.idle(),
    {
        !self.up && !self.down && !self.left && !self.right
    }
}

/// One axis of the resolution: both controls held cancel out, one held gives
/// the capped speed in its direction, none held keeps the previous value.
pub open spec fn axis_velocity(negative: bool, positive: bool, max: int, previous: int) -> int {
    if negative && positive {
        0
    } else if negative {
        -max
    } else if positive {
        max
    } else {
        previous
    }
}

/// The velocity for held flags `s`, cap `max` and previous velocity `prev`:
/// with nothing held it is zero on both axes, otherwise each axis is resolved
/// from its own two controls (left and up are the negative directions).
pub open spec fn resolved(s: MoveStates, max: Speed, prev: Velocity) -> (int, int) {
    if s.idle() {
        (0, 0)
    } else {
        (
            axis_velocity(s.left, s.right, max.x as int, prev.x as int),
            axis_velocity(s.up, s.down, max.y as int, prev.y as int),
        )
    }
}

/// Each component of `v` is the negative cap, zero, or the cap of its axis.
pub open spec fn within_caps(v: Velocity, max: Speed) -> bool {
    &&& (v.x == 0 || v.x == max.x as int || v.x == -(max.x as int))
    &&& (v.y == 0 || v.y == max.y as int || v.y == -(max.y as int))
}

fn resolve_axis(negative: bool, positive: bool, max: u32, previous: i64) -> (r: i64)
    ensures
        r == axis_velocity(negative, positive, max as int, previous as int),
{
    if negative && positive {
        0
    } else if negative {
        -(max as i64)
    } else if positive {
        max as i64
    } else {
        previous
    }
}

/// Resolves the held flags into a velocity, recomputed from scratch but for
/// an axis whose two controls are both released while another is held: that
/// axis keeps its previous component.
pub fn resolve(s: &MoveStates, max: Speed, prev: Velocity) -> (r: Velocity)
    ensures
        (r.x as int, r.y as int) == resolved(*s, max, prev),
        within_caps(prev, max) ==> within_caps(r, max),
{
    if s.is_idle() {
        Velocity { x: 0, y: 0 }
    } else {
        Velocity {
            x: resolve_axis(s.left, s.right, max.x, prev.x),
            y: resolve_axis(s.up, s.down, max.y, prev.y),
        }
    }
}

} // verus!

verus! {

/// Releasing all four controls, whatever was held before and whatever the
/// previous velocity, brings the velocity to zero on the next resolution.
pub proof fn lemma_release_all_stops(s: MoveStates, max: Speed, prev: Velocity)
    ensures
        resolved(
            s.with(Direction::Up, false).with(Direction::Down, false).with(
                Direction::Left,
                false,
            ).with(Direction::Right, false),
            max,
            prev,
        ) == (0int, 0int),
{
}

/// Opposite controls held together cancel: up with down gives no vertical
/// velocity and left with right no horizontal velocity, whatever else is held.
pub proof fn lemma_opposites_cancel(s: MoveStates, max: Speed, prev: Velocity)
    ensures
        s.up && s.down ==> resolved(s, max, prev).1 == 0,
        s.left && s.right ==> resolved(s, max, prev).0 == 0,
{
}

/// The order in which two controls are pressed does not matter.
pub proof fn lemma_press_order(s: MoveStates, a: Direction, b: Direction)
    ensures
        s.with(a, true).with(b, true) == s.with(b, true).with(a, true),
{
}

/// A resolved velocity stays within the caps when the previous one was.
pub proof fn lemma_resolved_within_caps(s: MoveStates, max: Speed, prev: Velocity)
    requires
        within_caps(prev, max),
    ensures
        ({
            let (x, y) = resolved(s, max, prev);
            &&& (x == 0 || x == max.x as int || x == -(max.x as int))
            &&& (y == 0 || y == max.y as int || y == -(max.y as int))
        }),
{
}

} // verus!

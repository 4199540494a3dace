//! The game's state between frames.
use vstd::prelude::*;
use crate::movement::{Speed, Velocity};
use crate::player::{Player, Point};

verus! {

/// Simulation ticks per second.
pub const UPDATE_FPS: u32 = 60;

/// The player's speed cap on each axis, in units per second.
pub const PLAYER_SPEED: u32 = 500;

/// Everything the game keeps from one frame to the next.
pub struct MainState<D, P> {
    pub player: Player<D, P>,
}

impl<D, P: Point> MainState<D, P> {
    /// A resting player at the origin, capped at [`PLAYER_SPEED`] per axis.
    pub fn new() -> (r: Self)
        ensures
            r.player.wf(),
            r.player.move_states().idle(),
            r.player.velocity() == (Velocity { x: 0, y: 0 }),
            r.player.max_velocity() == (Speed { x: PLAYER_SPEED, y: PLAYER_SPEED }),
            r.player.entity().shape() is None,
            r.player.entity().position() == P::spec_origin(),
            r.player.entity().dest() == P::spec_origin(),
    {
        MainState { player: Player::new(PLAYER_SPEED, PLAYER_SPEED) }
    }
}

} // verus!

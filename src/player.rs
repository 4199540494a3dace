//! The player-controlled actor: held directions, velocity and integration.
use vstd::prelude::*;
use crate::entity::Entity;
use crate::movement::{resolve, resolved, within_caps, Direction, MoveStates, Speed, Velocity};

verus! {

/// A point of the coordinate space an actor moves in. `origin` and
/// `advanced` return exactly what `spec_origin` and `spec_advanced` describe;
/// an implementation written outside verified code defines the latter two as
/// plain functions that return the same values.
pub trait Point: Copy {
    /// The length of one time step.
    type Step;

    /// The origin of the space.
    spec fn spec_origin() -> Self;

    /// This point moved by velocity `(vx, vy)` for time `dt`.
    spec fn spec_advanced(self, vx: i64, vy: i64, dt: Self::Step) -> Self;

    /// The origin of the space.
    fn origin() -> (r: Self)
        ensures
            r == Self::spec_origin(),
    ;

    /// This point moved by velocity `(vx, vy)` for time `dt`.
    fn advanced(self, vx: i64, vy: i64, dt: Self::Step) -> (r: Self)
        ensures
            r == self.spec_advanced(vx, vy, dt),
    ;
}

/// Something steered by the four directional controls.
pub trait Moveable {
    /// The controls currently held.
    spec fn controls(&self) -> MoveStates;

    /// Holds the up control.
    fn up(&mut self)
        ensures
            final(self).controls() == old(self).controls().with(Direction::Up, true),
    ;

    /// Holds the down control.
    fn down(&mut self)
        ensures
            final(self).controls() == old(self).controls().with(Direction::Down, true),
    ;

    /// Holds the right control.
    fn right(&mut self)
        ensures
            final(self).controls() == old(self).controls().with(Direction::Right, true),
    ;

    /// Holds the left control.
    fn left(&mut self)
        ensures
            final(self).controls() == old(self).controls().with(Direction::Left, true),
    ;

    /// Releases the up control.
    fn stop_up(&mut self)
        ensures
            final(self).controls() == old(self).controls().with(Direction::Up, false),
    ;

    /// Releases the down control.
    fn stop_down(&mut self)
        ensures
            final(self).controls() == old(self).controls().with(Direction::Down, false),
    ;

    /// Releases the right control.
    fn stop_right(&mut self)
        ensures
            final(self).controls() == old(self).controls().with(Direction::Right, false),
    ;

    /// Releases the left control.
    fn stop_left(&mut self)
        ensures
            final(self).controls() == old(self).controls().with(Direction::Left, false),
    ;
}

/// An actor steered by four directional controls. Its velocity has one of
/// three values per axis, the negative cap, zero or the cap, set each tick from
/// the held controls.
pub struct Player<D, P> {
    pub e: Entity<D, P>,
    move_states: MoveStates,
    velocity: Velocity,
    max_velocity: Speed,
}

impl<D, P: Point> Player<D, P> {
    /// The owned entity.
    pub closed spec fn entity(&self) -> Entity<D, P> {
        self.e
    }

    /// The held controls.
    pub closed spec fn move_states(&self) -> MoveStates {
        self.move_states
    }

    /// The current velocity.
    pub closed spec fn velocity(&self) -> Velocity {
        self.velocity
    }

    /// The per-axis speed cap, fixed at construction.
    pub closed spec fn max_velocity(&self) -> Speed {
        self.max_velocity
    }

    /// The velocity has one of its three allowed values on each axis.
    pub open spec fn wf(&self) -> bool {
        within_caps(self.velocity(), self.max_velocity())
    }

    /// A resting player at the origin with speed caps `accel_x` and `accel_y`.
    pub fn new(accel_x: u32, accel_y: u32) -> (r: Self)
        ensures
            r.wf(),
            r.move_states().idle(),
            r.velocity() == (Velocity { x: 0, y: 0 }),
            r.max_velocity() == (Speed { x: accel_x, y: accel_y }),
            r.entity().shape() is None,
            r.entity().position() == P::spec_origin(),
            r.entity().dest() == P::spec_origin(),
    {
        Player {
            e: Entity::new(P::origin()),
            move_states: MoveStates::new(),
            velocity: Velocity { x: 0, y: 0 },
            max_velocity: Speed { x: accel_x, y: accel_y },
        }
    }

    /// One tick: resolves the velocity from the held controls, moves the
    /// entity by it for `dt`, and flushes the new position for drawing.
    pub fn update(&mut self, dt: P::Step)
        requires
            old(self).wf(),
        ensures
            final(self).wf(),
            (final(self).velocity().x as int, final(self).velocity().y as int) == resolved(
                old(self).move_states(),
                old(self).max_velocity(),
                old(self).velocity(),
            ),
            final(self).move_states() == old(self).move_states(),
            final(self).max_velocity() == old(self).max_velocity(),
            final(self).entity().position() == old(self).entity().position().spec_advanced(
                final(self).velocity().x,
                final(self).velocity().y,
                dt,
            ),
            final(self).entity().dest() == final(self).entity().position(),
            final(self).entity().shape() == old(self).entity().shape(),
    {
        self.velocity = resolve(&self.move_states, self.max_velocity, self.velocity);
        self.integrate(dt);
        self.e.update();
    }

    /// The current velocity.
    pub fn view_velocity(&self) -> (r: Velocity)
        ensures
            r == self.velocity(),
    {
        self.velocity
    }

    /// Moves the simulation position by the current velocity for `dt`.
    fn integrate(&mut self, dt: P::Step)
        ensures
            final(self).move_states() == old(self).move_states(),
            final(self).velocity() == old(self).velocity(),
            final(self).max_velocity() == old(self).max_velocity(),
            final(self).entity().position() == old(self).entity().position().spec_advanced(
                old(self).velocity().x,
                old(self).velocity().y,
                dt,
            ),
            final(self).entity().dest() == old(self).entity().dest(),
            final(self).entity().shape() == old(self).entity().shape(),
    {
        let p = self.e.view_position().advanced(self.velocity.x, self.velocity.y, dt);
        self.e.place(p);
    }

    /// Marks direction `d` as held.
    pub fn press(&mut self, d: Direction)
        ensures
            final(self).move_states() == old(self).move_states().with(d, true),
            final(self).velocity() == old(self).velocity(),
            final(self).max_velocity() == old(self).max_velocity(),
            final(self).entity() == old(self).entity(),
    {
        self.move_states.press(d);
    }

    /// Marks direction `d` as no longer held.
    pub fn release(&mut self, d: Direction)
        ensures
            final(self).move_states() == old(self).move_states().with(d, false),
            final(self).velocity() == old(self).velocity(),
            final(self).max_velocity() == old(self).max_velocity(),
            final(self).entity() == old(self).entity(),
    {
        self.move_states.release(d);
    }
}

impl<D, P: Point> Moveable for Player<D, P> {
    open spec fn controls(&self) -> MoveStates {
        self.move_states()
    }

    fn up(&mut self)
        ensures
            final(self).velocity() == old(self).velocity(),
            final(self).max_velocity() == old(self).max_velocity(),
            final(self).entity() == old(self).entity(),
    {
        self.press(Direction::Up);
    }

    fn down(&mut self)
        ensures
            final(self).velocity() == old(self).velocity(),
            final(self).max_velocity() == old(self).max_velocity(),
            final(self).entity() == old(self).entity(),
    {
        self.press(Direction::Down);
    }

    fn right(&mut self)
        ensures
            final(self).velocity() == old(self).velocity(),
            final(self).max_velocity() == old(self).max_velocity(),
            final(self).entity() == old(self).entity(),
    {
        self.press(Direction::Right);
    }

    fn left(&mut self)
        ensures
            final(self).velocity() == old(self).velocity(),
            final(self).max_velocity() == old(self).max_velocity(),
            final(self).entity() == old(self).entity(),
    {
        self.press(Direction::Left);
    }

    fn stop_up(&mut self)
        ensures
            final(self).velocity() == old(self).velocity(),
            final(self).max_velocity() == old(self).max_velocity(),
            final(self).entity() == old(self).entity(),
    {
        self.release(Direction::Up);
    }

    fn stop_down(&mut self)
        ensures
            final(self).velocity() == old(self).velocity(),
            final(self).max_velocity() == old(self).max_velocity(),
            final(self).entity() == old(self).entity(),
    {
        self.release(Direction::Down);
    }

    fn stop_right(&mut self)
        ensures
            final(self).velocity() == old(self).velocity(),
            final(self).max_velocity() == old(self).max_velocity(),
            final(self).entity() == old(self).entity(),
    {
        self.release(Direction::Right);
    }

    fn stop_left(&mut self)
        ensures
            final(self).velocity() == old(self).velocity(),
            final(self).max_velocity() == old(self).max_velocity(),
            final(self).entity() == old(self).entity(),
    {
        self.release(Direction::Left);
    }
}

} // verus!

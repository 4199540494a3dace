//! A drawable thing with a simulation position and the position it is drawn at.
use vstd::prelude::*;

verus! {

/// Holds where a thing is in simulation space and where the renderer is told
/// to draw it. The two may differ until [`Entity::update`] copies the first
/// into the second; the owner moves the simulation position and then flushes
/// it once per tick.
pub struct Entity<D, P> {
    /// Shape handed to the renderer; `None` draws nothing.
    pub drawable: Option<D>,
    /// Authoritative simulation position.
    position: P,
    /// Destination handed to the renderer.
    dest: P,
}

impl<D, P: Copy> Entity<D, P> {
    /// The simulation position.
    pub closed spec fn position(&self) -> P {
        self.position
    }

    /// What is handed to the renderer.
    pub closed spec fn shape(&self) -> Option<D> {
        self.drawable
    }

    /// The destination the renderer draws at.
    pub closed spec fn dest(&self) -> P {
        self.dest
    }

    /// An entity at `origin`, drawn there too, with nothing to draw.
    pub fn new(origin: P) -> (r: Self)
        ensures
            r.position() == origin,
            r.dest() == origin,
            r.shape() is None,
    {
        Entity { drawable: None, position: origin, dest: origin }
    }

    /// Flushes the simulation position into the render destination.
    pub fn update(&mut self)
        ensures
            final(self).dest() == old(self).position(),
            final(self).position() == old(self).position(),
            final(self).shape() == old(self).shape(),
    {
        let new_position = self.position;
        let flush_cords = self.get_mut_flush_cords();
        *flush_cords = new_position;
    }

    /// The simulation position.
    pub fn view_position(&self) -> (r: P)
        ensures
            r == self.position(),
    {
        self.position
    }

    /// The destination the renderer draws at.
    pub fn view_dest(&self) -> (r: P)
        ensures
            r == self.dest(),
    {
        self.dest
    }

    /// Moves the simulation position to `p`; the render destination stays
    /// until the next flush.
    pub(crate) fn place(&mut self, p: P)
        ensures
            final(self).position() == p,
            final(self).dest() == old(self).dest(),
            final(self).shape() == old(self).shape(),
    {
        self.position = p;
    }

    fn get_mut_flush_cords(&mut self) -> (r: &mut P)
        ensures
            *r == old(self).dest(),
            final(self).dest() == *final(r),
            final(self).position() == old(self).position(),
            final(self).shape() == old(self).shape(),
    {
        &mut self.dest
    }
}

} // verus!

//! Movement core of a small 2D game: directional input flags, their
//! resolution into a per-axis velocity, and the split between an entity's
//! simulation position and the position it is drawn at.
pub mod bounds;
pub mod entity;
pub mod game;
pub mod movement;
pub mod player;

//! A falling-sand automaton: a fixed grid of particles, a gravity rule applied
//! once per frame, and a square brush that paints the grid.

pub mod brush;
pub mod gravity;
pub mod laws;
pub mod particle;
pub mod render;
pub mod state;
pub mod world;

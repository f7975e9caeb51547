//! Simulation core of a grid-based snake game.
//!
//! The library covers the deterministic game rules: toroidal grid
//! coordinates, the snake's body with its movement, growth and
//! self-collision rules, apple placement on a free cell, and the
//! tick-level event/state machine. Rendering, input decoding and
//! scheduling are left to the host program.

pub mod apple;
pub mod magic_numbers;
pub mod snake;
pub mod state_events;
mod rng;

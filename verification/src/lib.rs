//! A deterministic, tick-driven snake game on a fixed-size toroidal grid.
//!
//! The library holds the whole game-state machine: snake movement and
//! growth with wrap-around arithmetic, self-collision detection, fruit
//! placement avoiding occupied cells, scoring, and the
//! ongoing/paused/finished lifecycle. Rendering and input polling are the
//! host's business: each tick takes the input bitmask as a plain value and
//! returns the frame as a list of rectangle draw commands.

pub mod fruit;
pub mod game;
pub mod game_status;
pub mod palette;
pub mod point;
pub mod random;
pub mod snake;

//! A verified core for a terminal snake game: the snake's movement, growth
//! and collision rules, food placement, and the per-tick state transition.
//! Terminal drawing and key polling live outside the library and hand it
//! plain values.
pub mod food;

pub mod game;

pub mod grid;

pub mod snake;

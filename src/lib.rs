//! Rules of a side-scrolling flying game: a player sprite that falls and is
//! lifted, obstacles that scroll towards it and wrap around, box collision,
//! and a score that counts the seconds of the current round.
mod chance;
pub mod game;
pub mod geometry;
pub mod motion;

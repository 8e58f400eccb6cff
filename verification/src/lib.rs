//! Core of a terminal snake game: a tick-based simulation in which a head
//! moves across a bounded grid, grows a trailing body by consuming powerups,
//! and stops when it hits the wall ring or its own body.
//!
//! The modules here hold the verified game logic; screen drawing, keyboard
//! polling and high-score persistence live outside the library and talk to it
//! through plain values.

pub mod app;
pub mod game;
pub mod player;
pub mod welcome;

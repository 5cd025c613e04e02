//! A small grid snake game.
//!
//! The snake lives on a 10 x 10 playfield of 1-based cells. Each simulation
//! step moves the head one cell in the current travel direction; eating the
//! coin makes the body grow by one cell on the following step and respawns
//! the coin at a random in-bounds cell. The game ends when the head leaves
//! the grid. Rendering, windowing and input belong to the driving program,
//! which feeds direction events to [`game::Game::set_direction`] and calls
//! [`game::Game::tick`] at a fixed cadence.

pub mod direction;
pub mod game;
mod random;

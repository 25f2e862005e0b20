//! A grid simulation of a growing eel on a wrap-around board.
//!
//! The eel moves one cell per tick, dies when it runs into itself, and grows
//! when it eats. Food appears on a random free cell. Every rule of the
//! simulation is stated over a mathematical model of the game and proved of
//! the executable code.

pub mod dice;
pub mod direction;
pub mod palette;
pub mod food;
pub mod board;
pub mod spawner;
pub mod game;
pub mod laws;
pub mod scheduler;
pub mod session;

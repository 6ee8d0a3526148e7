//! A two-player board game played over line-oriented text connections.
//!
//! `board` holds the grid and its one mutation, `notation` reads moves,
//! `display` draws the board for either side, `rooms` pairs a waiting
//! creator with a joining player by room code, and `session` holds the
//! protocol's decisions and the turn loop's state.
pub mod board;
pub mod display;
pub mod notation;
pub mod rooms;
pub mod session;

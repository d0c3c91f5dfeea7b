//! A two-player gravity-drop game on a four-by-four board.
pub mod game;
pub mod grid;
pub mod laws;
pub mod tile;

//! A move-legality engine for a two-player game on an 8x8 board.
//!
//! The crate models squares, pieces and the occupancy grid, and decides
//! whether a single move is legal on a given board. Every executable
//! function carries a contract stated over the spec functions of its module.

pub mod board;
pub mod moves;
pub mod piece;
pub mod position;
pub mod render;
pub mod rules;

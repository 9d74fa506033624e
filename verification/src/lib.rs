//! An interactive binary-grid puzzle board.
//!
//! The library holds the board state machine for one puzzle-solving session:
//! the square grid of cells, the cyclic per-cell transition triggered by a
//! user interaction, the completion detector, and the controller that runs
//! the completion protocol against the external rule checker. The session
//! host asks the external generator for the initial arrangement and hands
//! it in as plain values; `board::Board::new` derives each cell's kind
//! from it.

pub mod board;
pub mod controller;
pub mod puzzle;

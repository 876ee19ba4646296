//! A falling-block puzzle engine: a fixed-size board, the seven tetrominoes
//! with their rotations, collision, locking, line clearing, scoring, the
//! hold mechanic and the screen state machine.

pub mod board;
pub mod tetromino;
pub mod rules;
pub mod game;

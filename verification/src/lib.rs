//! A tic-tac-toe engine: a 3×3 board, turn alternation, and win/draw detection.

pub mod board;
pub mod game;
pub mod lemmas;

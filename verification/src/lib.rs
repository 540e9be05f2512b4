//! Tic-tac-toe on a fixed 3x3 grid: the playing field, the rule that decides a
//! win, the turn-by-turn state of one game, and the reading of a typed move.

pub mod board;
pub mod game;
pub mod input;
pub mod theorems;

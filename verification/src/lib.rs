//! A two-player tic-tac-toe board state machine.
//!
//! The library owns the 3x3 grid, the active player and the winner, and
//! exposes the three operations a game driver needs: apply a move
//! ([`board::Board::place`]), evaluate the outcome
//! ([`board::Board::evaluate`]) and pass the turn
//! ([`board::Board::toggle_turn`]). Text rendering of the grid and of the
//! players lives in [`text`] and [`player`]; prompting, reading input and
//! printing are left to the caller.

pub mod board;
pub mod player;
pub mod text;

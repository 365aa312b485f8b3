//! Core logic of a 3x3 tic-tac-toe game against a heuristic AI: the board
//! model, win/draw/near-win detection, the AI's move selection, and the
//! turn-sequencing orchestrator. Rendering and input belong to a front-end
//! that calls into this crate.

pub mod ai;
pub mod board;
pub mod checks;
pub mod game;
mod rng;

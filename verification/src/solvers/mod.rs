//! Solvers of the puzzles that the lie detector poses.

pub mod angles;
pub mod laws;
pub mod shape;

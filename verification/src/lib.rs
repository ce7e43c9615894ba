//! A falling-sand cellular automaton: a 3x3 grid of 64x64-cell chunks in
//! which sand and water cells move under simplified gravity and flow rules,
//! a free-particle layer integrates ballistic motion until particles settle
//! into the grid, and a change tracker hands a minimal per-tick diff to a
//! rendering sink.

pub mod cell;
pub mod changes;
pub mod chunk;
pub mod coords;
pub mod engine;
pub mod grid;
pub mod laws;
pub mod particles;
pub mod sim;
pub mod unsafe_cell_wrapper;

//! A bounded two-dimensional cellular automaton: a row-major grid of cells,
//! an edge-truncating neighbour resolver, and a whole-grid transition step.

pub mod cell;
pub mod rule;
pub mod grid;
pub mod neighbors;
pub mod engine;
pub mod seed;

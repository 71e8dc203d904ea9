use vstd::prelude::*;

verus! {

/// The two states a cell may hold.
#[derive(Clone, Copy, Debug, PartialEq, Eq, Structural)]
pub enum CellState {
    Alive,
    Dead,
}

/// One board square: its fixed coordinates and its current state.
#[derive(Clone, Copy, Debug, PartialEq, Eq, Structural)]
pub struct Cell {
    pub x: usize,
    pub y: usize,
    pub state: CellState,
}

impl CellState {
    /// `Alive` for `true`, `Dead` for `false`.
    pub fn from_bool(b: bool) -> (s: CellState)
        ensures
            s == (if b { CellState::Alive } else { CellState::Dead }),
    {
        if b {
            CellState::Alive
        } else {
            CellState::Dead
        }
    }

    pub fn is_alive(&self) -> (r: bool)
        ensures
            r == (*self is Alive),
    {
        match self {
            CellState::Alive => true,
            CellState::Dead => false,
        }
    }
}

} // verus!

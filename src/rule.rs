use vstd::prelude::*;
use crate::cell::CellState;

verus! {

/// The transition rule: two live neighbours hold the current state, three
/// make the cell alive, any other count makes it dead.
pub open spec fn rule(current: CellState, live: int) -> CellState {
    if live == 2 {
        current
    } else if live == 3 {
        CellState::Alive
    } else {
        CellState::Dead
    }
}

/// The next state of a cell in state `current` with `live` live neighbours.
pub fn next_state(current: CellState, live: u32) -> (next: CellState)
    ensures
        next == rule(current, live as int),
{
    match live {
        2 => current,
        3 => CellState::Alive,
        _ => CellState::Dead,
    }
}

} // verus!

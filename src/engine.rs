use vstd::prelude::*;
use crate::cell::{Cell, CellState};
use crate::grid::{placed, Grid, GridModel};
use crate::neighbors::get_neighbors;
use crate::rule::next_state;

verus! {

/// The host's play/pause flag.
pub struct PlayState {
    pub playing: bool,
}

impl PlayState {
    /// A simulation starts out playing.
    pub fn new() -> (p: PlayState)
        ensures
            p.playing,
    {
        PlayState { playing: true }
    }

    /// Flips between playing and paused.
    pub fn toggle_playing(&mut self)
        ensures
            final(self).playing == !old(self).playing,
    {
        self.playing = !self.playing;
    }
}

/// Advances the board by one generation when `playing`, and hands it back
/// untouched otherwise. The whole previous generation is read before the new
/// one is published, so no cell sees another cell's new state.
pub fn step(grid: Grid, playing: bool) -> (next: Grid)
    requires
        grid.wf(),
    ensures
        next.wf(),
        playing ==> next@ == grid@.next_generation(),
        !playing ==> next == grid,
{
    if !playing {
        return grid;
    }
    let (width, height) = grid.size();
    let n = grid.len();
    let mut states: Vec<CellState> = Vec::with_capacity(n);
    for i in 0..n
        invariant
            grid.wf(),
            n == grid@.cells.len(),
            states@.len() == i,
            forall|j: int| 0 <= j < i ==> #[trigger] states@[j] == grid@.next_cell(j).state,
    {
        let cell = grid.cell(i);
        let live = get_neighbors(&grid, i);
        states.push(next_state(cell.state, live));
        proof {
            reveal(GridModel::next_cell);
        }
    }
    let next = Grid::from_states(width, height, &states);
    proof {
        let g = grid@;
        reveal(GridModel::next_cell);
        assert forall|j: int| 0 <= j < n implies #[trigger] next@.cells[j]
            == g.next_generation().cells[j] by {
            assert(g.cells[j] == placed(g.width, j, g.cells[j].state));
        }
        assert(next@.cells =~= g.next_generation().cells);
    }
    next
}

/// The next state of a cell is its current state on two live neighbours,
/// `Alive` on three, and `Dead` on any other count.
pub proof fn lemma_rule_fidelity(prev: GridModel, i: int)
    requires
        prev.well_formed(),
        0 <= i < prev.cells.len(),
    ensures
        prev.live_neighbors(i) == 2 ==> prev.next_generation().cells[i].state
            == prev.cells[i].state,
        prev.live_neighbors(i) == 3 ==> prev.next_generation().cells[i].state
            == CellState::Alive,
        prev.live_neighbors(i) != 2 && prev.live_neighbors(i) != 3
            ==> prev.next_generation().cells[i].state == CellState::Dead,
        prev.next_generation().cells[i].x == prev.cells[i].x,
        prev.next_generation().cells[i].y == prev.cells[i].y,
{
    reveal(GridModel::next_cell);
}

/// A cell of the right-hand column is never a neighbour of a cell of the
/// left-hand column: on boards at least three wide, two boards that agree
/// everywhere but in their right-hand column give each left-hand cell the
/// same live-neighbour count.
pub proof fn lemma_no_wraparound(a: GridModel, b: GridModel, y: int)
    requires
        a.well_formed(),
        b.well_formed(),
        a.width == b.width,
        a.height == b.height,
        a.width >= 3,
        0 <= y < a.height,
        forall|x: int, v: int|
            0 <= x < a.width - 1 && 0 <= v < a.height ==> a.cells[#[trigger] a.index_of(x, v)]
                == b.cells[a.index_of(x, v)],
    ensures
        a.live_around(0, y) == b.live_around(0, y),
{
    assert(a.index_of(0, y - 1) == b.index_of(0, y - 1));
    assert(a.index_of(1, y - 1) == b.index_of(1, y - 1));
    assert(a.index_of(0, y + 1) == b.index_of(0, y + 1));
    assert(a.index_of(1, y + 1) == b.index_of(1, y + 1));
    assert(a.index_of(1, y) == b.index_of(1, y));
}

/// Writes into `acc`, for each index of `order` in turn, the next state of that
/// cell as computed from the previous generation `prev`.
pub open spec fn evaluate_in_order(prev: GridModel, order: Seq<int>, acc: Seq<Cell>) -> Seq<Cell>
    decreases order.len(),
{
    if order.len() == 0 {
        acc
    } else {
        evaluate_in_order(prev, order.drop_last(), acc).update(
            order.last(),
            prev.next_cell(order.last()),
        )
    }
}

proof fn lemma_evaluate_in_order(prev: GridModel, order: Seq<int>, acc: Seq<Cell>)
    requires
        forall|k: int| 0 <= k < order.len() ==> 0 <= #[trigger] order[k] < acc.len(),
    ensures
        evaluate_in_order(prev, order, acc).len() == acc.len(),
        forall|i: int|
            0 <= i < acc.len() ==> #[trigger] evaluate_in_order(prev, order, acc)[i] == if order.contains(i) {
                prev.next_cell(i)
            } else {
                acc[i]
            },
    decreases order.len(),
{
    if order.len() > 0 {
        let rest = order.drop_last();
        assert forall|k: int| 0 <= k < rest.len() implies 0 <= #[trigger] rest[k] < acc.len() by {
            assert(rest[k] == order[k]);
        }
        lemma_evaluate_in_order(prev, rest, acc);
        assert forall|i: int| 0 <= i < acc.len() implies order.contains(i) == (rest.contains(i) || i
            == order.last()) by {
            if order.contains(i) {
                let k = choose|k: int| 0 <= k < order.len() && order[k] == i;
                if k < rest.len() {
                    assert(rest[k] == i);
                }
            }
            if rest.contains(i) {
                let k = choose|k: int| 0 <= k < rest.len() && rest[k] == i;
                assert(order[k] == i);
            }
            if i == order.last() {
                assert(order[order.len() - 1] == i);
            }
        }
    }
}

/// The next generation does not depend on the order in which cells are
/// evaluated: any two orders that visit every cell, each starting from the
/// previous generation, give the same board, and that board is the next
/// generation.
pub proof fn lemma_order_independent(prev: GridModel, first: Seq<int>, second: Seq<int>)
    requires
        forall|k: int| 0 <= k < first.len() ==> 0 <= #[trigger] first[k] < prev.cells.len(),
        forall|k: int| 0 <= k < second.len() ==> 0 <= #[trigger] second[k] < prev.cells.len(),
        forall|i: int| 0 <= i < prev.cells.len() ==> first.contains(i),
        forall|i: int| 0 <= i < prev.cells.len() ==> second.contains(i),
    ensures
        evaluate_in_order(prev, first, prev.cells) == evaluate_in_order(prev, second, prev.cells),
        evaluate_in_order(prev, first, prev.cells) == prev.next_generation().cells,
{
    let next = prev.next_generation().cells;
    let a = evaluate_in_order(prev, first, prev.cells);
    let b = evaluate_in_order(prev, second, prev.cells);
    lemma_evaluate_in_order(prev, first, prev.cells);
    lemma_evaluate_in_order(prev, second, prev.cells);
    assert forall|i: int| 0 <= i < prev.cells.len() implies a[i] == next[i] && b[i] == next[i] by {
        assert(first.contains(i));
        assert(second.contains(i));
    }
    assert(a =~= next);
    assert(b =~= next);
}

} // verus!

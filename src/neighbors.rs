use vstd::prelude::*;
use vstd::arithmetic::div_mod::{lemma_fundamental_div_mod, lemma_mod_bound};
use crate::cell::CellState;
use crate::grid::{placed, Grid, GridModel};

verus! {

/// The eight neighbour slots of a cell, named by compass direction; a slot
/// holds the neighbour's linear index, or `None` where that direction leaves
/// the board.
#[derive(Clone, Copy, Debug, PartialEq, Eq, Structural)]
pub struct Neighbors {
    pub nw: Option<usize>,
    pub n: Option<usize>,
    pub ne: Option<usize>,
    pub e: Option<usize>,
    pub se: Option<usize>,
    pub s: Option<usize>,
    pub sw: Option<usize>,
    pub w: Option<usize>,
}

/// `slot` is right for the square `(x, y)` of a `width × height` board: the
/// square's index where it lies on the board, `None` where it does not.
pub open spec fn holds_square(slot: Option<usize>, width: int, height: int, x: int, y: int) -> bool {
    match slot {
        Some(j) => 0 <= x < width && 0 <= y < height && j == y * width + x,
        None => !(0 <= x < width && 0 <= y < height),
    }
}

pub open spec fn filled(slot: Option<usize>) -> int {
    if slot is Some {
        1
    } else {
        0
    }
}

/// Row-major coordinates of a linear index, and the facts about them that the
/// edge tests rest on.
proof fn lemma_coords(i: int, width: int, height: int)
    requires
        1 <= width,
        1 <= height,
        0 <= i < width * height,
    ensures
        i == (i / width) * width + i % width,
        0 <= i % width < width,
        0 <= i / width < height,
        (i < width) == (i / width == 0),
        (i >= (height - 1) * width) == (i / width == height - 1),
        0 <= (height - 1) * width,
        (height - 1) * width + width == width * height,
        (i / width - 1) * width == (i / width) * width - width,
        (i / width + 1) * width == (i / width) * width + width,
{
    lemma_fundamental_div_mod(i, width);
    lemma_mod_bound(i, width);
    let x = i % width;
    let y = i / width;
    assert(width * y == y * width) by (nonlinear_arith);
    assert(0 <= y < height) by (nonlinear_arith)
        requires
            i == y * width + x,
            0 <= x < width,
            0 <= i < width * height,
            1 <= width,
    ;
    assert((i < width) == (y == 0)) by (nonlinear_arith)
        requires
            i == y * width + x,
            0 <= x < width,
            0 <= y,
    ;
    assert((i >= (height - 1) * width) == (y == height - 1)) by (nonlinear_arith)
        requires
            i == y * width + x,
            0 <= x < width,
            0 <= y < height,
    ;
    assert(0 <= (height - 1) * width) by (nonlinear_arith)
        requires
            1 <= width,
            1 <= height,
    ;
    assert((height - 1) * width + width == width * height) by (nonlinear_arith);
    assert((y - 1) * width == y * width - width) by (nonlinear_arith);
    assert((y + 1) * width == y * width + width) by (nonlinear_arith);
}

impl Neighbors {
    /// Every slot is right for the cell at linear index `i`.
    pub open spec fn resolves(self, width: int, height: int, i: int) -> bool {
        let x = i % width;
        let y = i / width;
        &&& holds_square(self.nw, width, height, x - 1, y - 1)
        &&& holds_square(self.n, width, height, x, y - 1)
        &&& holds_square(self.ne, width, height, x + 1, y - 1)
        &&& holds_square(self.e, width, height, x + 1, y)
        &&& holds_square(self.se, width, height, x + 1, y + 1)
        &&& holds_square(self.s, width, height, x, y + 1)
        &&& holds_square(self.sw, width, height, x - 1, y + 1)
        &&& holds_square(self.w, width, height, x - 1, y)
    }

    /// The number of slots that hold an index.
    pub open spec fn valid_slots(self) -> int {
        filled(self.nw) + filled(self.n) + filled(self.ne) + filled(self.e) + filled(self.se)
            + filled(self.s) + filled(self.sw) + filled(self.w)
    }

    /// The neighbour slots of the cell at linear index `index`. A slot is
    /// emptied where the cell stands in the top row (N, NE, NW), the right
    /// column (E, NE, SE), the bottom row (S, SE, SW) or the left column
    /// (W, NW, SW); so the board's edges never wrap round. A corner cell
    /// stands on two edges at once and keeps three slots.
    pub fn new(index: usize, width: usize, height: usize) -> (r: Neighbors)
        requires
            1 <= width,
            1 <= height,
            index < width * height,
            width * height <= usize::MAX,
        ensures
            r.resolves(width as int, height as int, index as int),
    {
        proof {
            lemma_coords(index as int, width as int, height as int);
        }
        let col = index % width;
        let top = index < width;
        let right = col == width - 1;
        let bottom = index >= (height - 1) * width;
        let left = col == 0;
        Neighbors {
            nw: if top || left { None } else { Some(index - width - 1) },
            n: if top { None } else { Some(index - width) },
            ne: if top || right { None } else { Some(index - width + 1) },
            e: if right { None } else { Some(index + 1) },
            se: if bottom || right { None } else { Some(index + width + 1) },
            s: if bottom { None } else { Some(index + width) },
            sw: if bottom || left { None } else { Some(index + width - 1) },
            w: if left { None } else { Some(index - 1) },
        }
    }
}

/// How many of the eight squares around `(x, y)` lie on a `width × height`
/// board that is at least two squares wide and high: three at a corner, five
/// elsewhere on the edge, eight inside.
pub open spec fn on_board_around(width: int, height: int, x: int, y: int) -> int {
    let at_side = x == 0 || x == width - 1;
    let at_end = y == 0 || y == height - 1;
    if at_side && at_end {
        3
    } else if at_side || at_end {
        5
    } else {
        8
    }
}

/// The resolved slots of any cell number three at a corner of the board, five
/// elsewhere on its edge and eight inside it.
pub proof fn lemma_slot_counts(nb: Neighbors, width: int, height: int, i: int)
    requires
        2 <= width,
        2 <= height,
        0 <= i < width * height,
        nb.resolves(width, height, i),
    ensures
        nb.valid_slots() == on_board_around(width, height, i % width, i / width),
{
    lemma_coords(i, width, height);
}

/// 1 where `slot` holds the index of a live cell of `g`; 0 where it holds a
/// dead cell's index or nothing.
pub open spec fn live_in(g: GridModel, slot: Option<usize>) -> int {
    match slot {
        Some(j) => if g.cells[j as int].state == CellState::Alive {
            1
        } else {
            0
        },
        None => 0,
    }
}

fn count_slot(grid: &Grid, slot: Option<usize>) -> (c: u32)
    requires
        slot matches Some(j) ==> j < grid@.cells.len(),
    ensures
        c == live_in(grid@, slot),
{
    match slot {
        Some(j) => if grid.cell(j).state.is_alive() {
            1
        } else {
            0
        },
        None => 0,
    }
}

/// The number of live cells among the neighbours of the cell at linear index
/// `index`; an empty slot is skipped and never looked up.
pub fn get_neighbors(grid: &Grid, index: usize) -> (count: u32)
    requires
        grid.wf(),
        index < grid@.cells.len(),
    ensures
        count == grid@.live_neighbors(index as int),
{
    let (width, height) = grid.size();
    let slots = Neighbors::new(index, width, height);
    proof {
        lemma_coords(index as int, width as int, height as int);
        let g = grid@;
        assert(g.cells[index as int] == placed(g.width, index as int, g.cells[index as int].state));
        assert forall|x: int, y: int| 0 <= x < width && 0 <= y < height implies #[trigger] (y
            * width + x) < width * height by {
            assert(y * width + x < width * height) by (nonlinear_arith)
                requires
                    0 <= x < width,
                    0 <= y < height,
            ;
        }
    }
    count_slot(grid, slots.nw) + count_slot(grid, slots.n) + count_slot(grid, slots.ne)
        + count_slot(grid, slots.e) + count_slot(grid, slots.se) + count_slot(grid, slots.s)
        + count_slot(grid, slots.sw) + count_slot(grid, slots.w)
}

} // verus!

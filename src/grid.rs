use vstd::prelude::*;
use crate::cell::{Cell, CellState};
use crate::rule::rule;

verus! {

/// The board's width, in cells.
pub const WIDTH: usize = 10;

/// The board's height, in cells.
pub const HEIGHT: usize = 10;

/// The mathematical picture of a board: its size and its cells in row-major order.
pub struct GridModel {
    pub width: nat,
    pub height: nat,
    pub cells: Seq<Cell>,
}

/// The cell that a well-formed board of the given width holds at linear index `i`.
pub open spec fn placed(width: nat, i: int, state: CellState) -> Cell {
    Cell { x: (i % (width as int)) as usize, y: (i / (width as int)) as usize, state }
}

/// The board of the given size whose cell at index `i` holds `states[i]`.
pub open spec fn layout(width: nat, height: nat, states: Seq<CellState>) -> GridModel {
    GridModel {
        width,
        height,
        cells: Seq::new(states.len(), |i: int| placed(width, i, states[i])),
    }
}

impl GridModel {
    /// Exactly `width * height` cells, each at the coordinates that its index gives.
    pub open spec fn well_formed(self) -> bool {
        &&& self.width >= 1
        &&& self.height >= 1
        &&& self.cells.len() == self.width * self.height
        &&& forall|i: int|
            0 <= i < self.cells.len() ==> #[trigger] self.cells[i] == placed(
                self.width,
                i,
                self.cells[i].state,
            )
    }

    pub open spec fn on_board(self, x: int, y: int) -> bool {
        0 <= x < self.width && 0 <= y < self.height
    }

    pub open spec fn index_of(self, x: int, y: int) -> int {
        y * self.width + x
    }

    /// 1 where `(x, y)` lies on the board and holds a live cell; 0 elsewhere,
    /// off the board included.
    pub open spec fn alive_at(self, x: int, y: int) -> int {
        if self.on_board(x, y) && self.cells[self.index_of(x, y)].state == CellState::Alive {
            1
        } else {
            0
        }
    }

    /// The number of live cells among the eight squares around `(x, y)`.
    pub open spec fn live_around(self, x: int, y: int) -> int {
        self.alive_at(x - 1, y - 1) + self.alive_at(x, y - 1) + self.alive_at(x + 1, y - 1)
            + self.alive_at(x + 1, y) + self.alive_at(x + 1, y + 1) + self.alive_at(x, y + 1)
            + self.alive_at(x - 1, y + 1) + self.alive_at(x - 1, y)
    }

    /// The live-neighbour count of the cell at linear index `i`.
    pub open spec fn live_neighbors(self, i: int) -> int {
        self.live_around(self.cells[i].x as int, self.cells[i].y as int)
    }

    /// The cell at index `i` one generation later. Kept opaque so that proofs
    /// about whole boards do not unfold every cell's neighbourhood.
    #[verifier::opaque]
    pub open spec fn next_cell(self, i: int) -> Cell {
        Cell {
            x: self.cells[i].x,
            y: self.cells[i].y,
            state: rule(self.cells[i].state, self.live_neighbors(i)),
        }
    }

    /// The whole board one generation later: every cell is computed from this
    /// generation alone.
    pub open spec fn next_generation(self) -> GridModel {
        GridModel {
            width: self.width,
            height: self.height,
            cells: Seq::new(self.cells.len(), |i: int| self.next_cell(i)),
        }
    }
}

/// A board of `width * height` cells stored in row-major order.
#[derive(Clone, Debug, PartialEq, Eq)]
pub struct Grid {
    width: usize,
    height: usize,
    cells: Vec<Cell>,
}

impl View for Grid {
    type V = GridModel;

    closed spec fn view(&self) -> GridModel {
        GridModel { width: self.width as nat, height: self.height as nat, cells: self.cells@ }
    }
}

impl Grid {
    /// The board is well formed, and its cells can be counted in a `usize`.
    pub open spec fn wf(&self) -> bool {
        self@.well_formed() && self@.cells.len() <= usize::MAX
    }

    /// Lays `states` out over a `width × height` board, row by row.
    pub fn from_states(width: usize, height: usize, states: &Vec<CellState>) -> (g: Grid)
        requires
            1 <= width,
            1 <= height,
            states@.len() == width * height,
        ensures
            g.wf(),
            g@ == layout(width as nat, height as nat, states@),
    {
        let n = states.len();
        let mut cells: Vec<Cell> = Vec::with_capacity(n);
        for i in 0..n
            invariant
                n == states@.len(),
                1 <= width,
                cells@.len() == i,
                forall|j: int| 0 <= j < i ==> #[trigger] cells@[j] == placed(width as nat, j, states@[j]),
        {
            cells.push(Cell { x: i % width, y: i / width, state: states[i] });
        }
        let g = Grid { width, height, cells };
        assert(g@.cells =~= layout(width as nat, height as nat, states@).cells);
        g
    }

    /// The board's width and height.
    pub fn size(&self) -> (r: (usize, usize))
        ensures
            r.0 == self@.width,
            r.1 == self@.height,
    {
        (self.width, self.height)
    }

    /// The number of cells.
    pub fn len(&self) -> (n: usize)
        ensures
            n == self@.cells.len(),
    {
        self.cells.len()
    }

    /// The cell at linear index `i`.
    pub fn cell(&self, i: usize) -> (c: Cell)
        requires
            i < self@.cells.len(),
        ensures
            c == self@.cells[i as int],
    {
        self.cells[i]
    }

    /// The cell at board position `(x, y)`.
    pub fn get(&self, x: usize, y: usize) -> (c: Cell)
        requires
            self.wf(),
            x < self@.width,
            y < self@.height,
        ensures
            c == self@.cells[self@.index_of(x as int, y as int)],
    {
        proof {
            assert(y * self.width + x < self.width * self.height) by (nonlinear_arith)
                requires
                    x < self.width,
                    y < self.height,
            ;
        }
        self.cells[y * self.width + x]
    }

    /// Overwrites the state of the cell at linear index `i`; its coordinates stay.
    pub fn set_state(&mut self, i: usize, state: CellState)
        requires
            old(self).wf(),
            i < old(self)@.cells.len(),
        ensures
            final(self).wf(),
            final(self)@ == (GridModel {
                cells: old(self)@.cells.update(
                    i as int,
                    Cell { state, ..old(self)@.cells[i as int] },
                ),
                ..old(self)@
            }),
    {
        let c = self.cells[i];
        self.cells.set(i, Cell { x: c.x, y: c.y, state });
        proof {
            assert forall|j: int| 0 <= j < self@.cells.len() implies #[trigger] self@.cells[j]
                == placed(self@.width, j, self@.cells[j].state) by {
                assert(old(self)@.cells[j] == placed(self@.width, j, old(self)@.cells[j].state));
            }
            assert(self@.cells =~= old(self)@.cells.update(i as int, Cell { state, ..old(self)@.cells[i as int] }));
        }
    }
}

} // verus!

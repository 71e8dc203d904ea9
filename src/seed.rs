use vstd::prelude::*;
use crate::cell::CellState;
use crate::grid::{layout, Grid};

verus! {

/// How a new board is filled.
pub enum SeedPolicy {
    /// A block laid into the top-left corner, one `Vec` per row; every cell
    /// outside it starts dead, and what of it falls off the board is dropped.
    Pattern(Vec<Vec<CellState>>),
    /// Each cell is drawn alive or dead at random.
    Random,
}

/// The state that `pattern` puts at `(x, y)`.
pub open spec fn pattern_state(pattern: Seq<Vec<CellState>>, x: int, y: int) -> CellState {
    if 0 <= y < pattern.len() && 0 <= x < pattern[y]@.len() {
        pattern[y]@[x]
    } else {
        CellState::Dead
    }
}

/// The states, in row-major order, of a `width × height` board seeded with `pattern`.
pub open spec fn pattern_states(pattern: Seq<Vec<CellState>>, width: nat, height: nat) -> Seq<
    CellState,
> {
    Seq::new(
        width * height,
        |i: int| pattern_state(pattern, i % (width as int), i / (width as int)),
    )
}

/// Relies on rand::random::<bool>, a draw from the thread-local generator;
/// nothing is promised of the value.
#[verifier::external_body]
fn coin_flip() -> bool {
    rand::random::<bool>()
}

fn seeded_state(pattern: &Vec<Vec<CellState>>, x: usize, y: usize) -> (s: CellState)
    ensures
        s == pattern_state(pattern@, x as int, y as int),
{
    if y < pattern.len() && x < pattern[y].len() {
        pattern[y][x]
    } else {
        CellState::Dead
    }
}

impl SeedPolicy {
    /// The block that a new simulation starts from:
    /// `Alive Dead Alive / Dead Alive Alive / Dead Alive Dead`.
    pub fn starting_pattern() -> (p: SeedPolicy)
        ensures
            p matches SeedPolicy::Pattern(rows) && rows@.len() == 3 && rows@[0]@ == seq![
                CellState::Alive,
                CellState::Dead,
                CellState::Alive,
            ] && rows@[1]@ == seq![CellState::Dead, CellState::Alive, CellState::Alive]
                && rows@[2]@ == seq![CellState::Dead, CellState::Alive, CellState::Dead],
    {
        let rows = vec![
            vec![CellState::Alive, CellState::Dead, CellState::Alive],
            vec![CellState::Dead, CellState::Alive, CellState::Alive],
            vec![CellState::Dead, CellState::Alive, CellState::Dead],
        ];
        SeedPolicy::Pattern(rows)
    }
}

/// A new `width × height` board filled as `seed` says. A pattern gives exactly
/// its states; a random draw gives a well-formed board of that size whatever
/// comes out.
pub fn initialize(width: usize, height: usize, seed: &SeedPolicy) -> (g: Grid)
    requires
        1 <= width,
        1 <= height,
        width * height <= usize::MAX,
    ensures
        g.wf(),
        g@.width == width,
        g@.height == height,
        seed matches SeedPolicy::Pattern(rows) ==> g@ == layout(
            width as nat,
            height as nat,
            pattern_states(rows@, width as nat, height as nat),
        ),
{
    let n = width * height;
    let mut states: Vec<CellState> = Vec::with_capacity(n);
    for i in 0..n
        invariant
            1 <= width,
            states@.len() == i,
            seed matches SeedPolicy::Pattern(rows) ==> forall|j: int|
                0 <= j < i ==> #[trigger] states@[j] == pattern_state(
                    rows@,
                    j % (width as int),
                    j / (width as int),
                ),
    {
        let s = match seed {
            SeedPolicy::Pattern(rows) => seeded_state(rows, i % width, i / width),
            SeedPolicy::Random => CellState::from_bool(coin_flip()),
        };
        states.push(s);
    }
    let g = Grid::from_states(width, height, &states);
    proof {
        if let SeedPolicy::Pattern(rows) = seed {
            assert(states@ =~= pattern_states(rows@, width as nat, height as nat));
        }
    }
    g
}

} // verus!

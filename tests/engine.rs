use life_grid::cell::{Cell, CellState};
use life_grid::engine::{step, PlayState};
use life_grid::grid::{Grid, HEIGHT, WIDTH};
use life_grid::neighbors::get_neighbors;
use life_grid::rule::next_state;
use life_grid::seed::{initialize, SeedPolicy};

use CellState::{Alive, Dead};

fn states(grid: &Grid) -> Vec<CellState> {
    (0..grid.len()).map(|i| grid.cell(i).state).collect()
}

fn seeded_block() -> Grid {
    let rows = vec![vec![Alive, Dead, Alive], vec![Dead, Alive, Alive], vec![Dead, Alive, Dead]];
    initialize(WIDTH, HEIGHT, &SeedPolicy::Pattern(rows))
}

#[test]
fn two_neighbours_hold_the_current_state() {
    assert_eq!(next_state(Alive, 2), Alive);
    assert_eq!(next_state(Dead, 2), Dead);
}

#[test]
fn three_neighbours_make_a_cell_alive() {
    assert_eq!(next_state(Alive, 3), Alive);
    assert_eq!(next_state(Dead, 3), Alive);
}

#[test]
fn other_counts_make_a_cell_dead() {
    for live in [0u32, 1, 4, 5, 6, 7, 8] {
        assert_eq!(next_state(Alive, live), Dead, "count {}", live);
        assert_eq!(next_state(Dead, live), Dead, "count {}", live);
    }
}

#[test]
fn seeded_block_after_one_step() {
    let next = step(seeded_block(), true);
    let expected = [
        (0, Dead),
        (1, Dead),
        (2, Alive),
        (10, Alive),
        (11, Dead),
        (12, Alive),
        (20, Dead),
        (21, Alive),
        (22, Alive),
    ];
    for (i, state) in expected {
        assert_eq!(next.cell(i).state, state, "index {}", i);
    }
    let alive: Vec<usize> = (0..next.len()).filter(|&i| next.cell(i).state == Alive).collect();
    assert_eq!(alive, vec![2, 10, 12, 21, 22]);
}

#[test]
fn centre_of_seeded_block_has_four_live_neighbours() {
    let grid = seeded_block();
    assert_eq!(get_neighbors(&grid, 11), 4);
    assert_eq!(step(grid, true).cell(11).state, Dead);
}

#[test]
fn paused_step_returns_the_board_unchanged() {
    let grid = seeded_block();
    let copy = grid.clone();
    let next = step(grid, false);
    assert_eq!(next, copy);
    for i in 0..next.len() {
        assert_eq!(next.cell(i), copy.cell(i));
    }
}

#[test]
fn step_keeps_coordinates() {
    let next = step(seeded_block(), true);
    assert_eq!(next.size(), (WIDTH, HEIGHT));
    for i in 0..next.len() {
        let c = next.cell(i);
        assert_eq!((c.x, c.y), (i % WIDTH, i / WIDTH));
    }
}

#[test]
fn step_matches_cell_by_cell_evaluation_in_reverse_order() {
    let grid = seeded_block();
    let mut expected = states(&grid);
    for i in (0..grid.len()).rev() {
        expected[i] = next_state(grid.cell(i).state, get_neighbors(&grid, i));
    }
    let mut forward = states(&grid);
    for i in 0..grid.len() {
        forward[i] = next_state(grid.cell(i).state, get_neighbors(&grid, i));
    }
    assert_eq!(expected, forward);
    assert_eq!(states(&step(grid, true)), expected);
}

#[test]
fn in_place_update_would_differ_from_step() {
    // Writing each new state straight back before the next cell is read
    // changes the outcome; the step must not behave that way.
    let grid = seeded_block();
    let mut in_place = grid.clone();
    for i in 0..in_place.len() {
        let s = next_state(in_place.cell(i).state, get_neighbors(&in_place, i));
        in_place.set_state(i, s);
    }
    assert_ne!(states(&in_place), states(&step(grid, true)));
}

#[test]
fn blinker_oscillates() {
    let mut s = vec![Dead; 25];
    for i in [11usize, 12, 13] {
        s[i] = Alive;
    }
    let grid = Grid::from_states(5, 5, &s);
    let once = step(grid.clone(), true);
    let alive: Vec<usize> = (0..25).filter(|&i| once.cell(i).state == Alive).collect();
    assert_eq!(alive, vec![7, 12, 17]);
    let twice = step(once, true);
    assert_eq!(states(&twice), states(&grid));
}

#[test]
fn lone_cell_dies() {
    let mut s = vec![Dead; 9];
    s[4] = Alive;
    let next = step(Grid::from_states(3, 3, &s), true);
    assert_eq!(states(&next), vec![Dead; 9]);
}

#[test]
fn play_state_starts_playing_and_toggles() {
    let mut p = PlayState::new();
    assert!(p.playing);
    p.toggle_playing();
    assert!(!p.playing);
    p.toggle_playing();
    assert!(p.playing);
}

#[test]
fn cell_coordinates_are_fixed_by_set_state() {
    let mut grid = seeded_block();
    grid.set_state(11, Alive);
    assert_eq!(grid.cell(11), Cell { x: 1, y: 1, state: Alive });
    grid.set_state(0, Dead);
    assert_eq!(grid.get(0, 0), Cell { x: 0, y: 0, state: Dead });
    assert_eq!(grid.get(2, 0).state, Alive);
}

//! Behavior of the double-buffered grid engine.

use rps_automaton::Cell;
use rps_automaton::grid::{create_initial_state, dispatch_counts, Grid, GridError};

fn grid_from(width: usize, height: usize, cells: Vec<Cell>) -> Grid {
    assert_eq!(cells.len(), width * height);
    Grid::from_cells(width, height, cells)
}

#[test]
fn lone_paper_cell_survives_among_rocks() {
    // A 4x4 grid, all Rock except one Paper in the interior: Paper's
    // predator is Scissors, of which there are none, so the Paper cell is
    // unaffected; and no Rock cell sees more than one Paper, so all stay.
    let mut cells = vec![Cell::Rock; 16];
    cells[1 * 4 + 1] = Cell::Paper;
    let mut g = grid_from(4, 4, cells);
    g.advance_generation();
    for y in 0..4 {
        for x in 0..4 {
            let expected = if x == 1 && y == 1 { Cell::Paper } else { Cell::Rock };
            assert_eq!(g.cell(x, y), expected);
        }
    }
}

#[test]
fn rock_beside_three_papers_converts() {
    // Papers across the top row: the Rock at (1, 1) sees three Paper
    // neighbors and is overrun, adopting the attacker's identity.
    let mut cells = vec![Cell::Rock; 16];
    cells[0] = Cell::Paper;
    cells[1] = Cell::Paper;
    cells[2] = Cell::Paper;
    let mut g = grid_from(4, 4, cells);
    g.advance_generation();
    assert_eq!(g.cell(1, 1), Cell::Paper);
    // The diagonal Rocks at (0, 1) and (2, 1) each see only two or three
    // Papers; (0, 1) sees two, so it stays.
    assert_eq!(g.cell(0, 1), Cell::Rock);
    // A far cell with no Paper neighbor stays Rock.
    assert_eq!(g.cell(3, 3), Cell::Rock);
}

#[test]
fn transitions_read_only_the_prior_generation() {
    // The Paper front advances exactly one row per tick. During the second
    // tick the whole of row 1 is converting; a pass that read its own
    // partially rewritten output row-major would hand (1, 2) three Paper
    // neighbors already in that tick and convert it a generation early.
    // Reading the snapshot, (1, 2) still sees one Paper and stays.
    let mut cells = vec![Cell::Rock; 16];
    cells[0] = Cell::Paper;
    cells[1] = Cell::Paper;
    cells[2] = Cell::Paper;
    let mut g = grid_from(4, 4, cells);
    g.advance_generation();
    assert_eq!(g.cell(1, 1), Cell::Paper);
    assert_eq!(g.cell(1, 2), Cell::Rock);
    g.advance_generation();
    assert_eq!(g.cell(0, 1), Cell::Paper);
    assert_eq!(g.cell(2, 1), Cell::Paper);
    assert_eq!(g.cell(1, 2), Cell::Rock);
    g.advance_generation();
    assert_eq!(g.cell(1, 2), Cell::Paper);
}

#[test]
fn single_cell_grid_is_stable() {
    let mut g = grid_from(1, 1, vec![Cell::Scissors]);
    g.advance_generation();
    assert_eq!(g.cell(0, 0), Cell::Scissors);
}

#[test]
fn snapshot_holds_the_previous_generation() {
    let mut cells = vec![Cell::Rock; 16];
    cells[0] = Cell::Paper;
    cells[1] = Cell::Paper;
    cells[2] = Cell::Paper;
    let mut g = grid_from(4, 4, cells.clone());
    g.advance_generation();
    // The snapshot now holds generation zero exactly.
    assert_eq!(g.snapshot, cells);
}

#[test]
fn initialize_seeds_a_full_grid() {
    let g = Grid::initialize(8, 5);
    assert_eq!(g.width, 8);
    assert_eq!(g.height, 5);
    assert_eq!(g.current.len(), 40);
    assert_eq!(g.snapshot.len(), 40);
}

#[test]
fn reset_keeps_dimensions_and_snapshot() {
    let mut g = grid_from(2, 2, vec![Cell::Rock; 4]);
    let snap_before = g.snapshot.clone();
    g.reset();
    assert_eq!(g.width, 2);
    assert_eq!(g.height, 2);
    assert_eq!(g.current.len(), 4);
    assert_eq!(g.snapshot, snap_before);
}

#[test]
fn initial_state_is_grid_sized_and_in_range() {
    let v = create_initial_state(1000);
    assert_eq!(v.len(), 1000);
    assert!(v.iter().all(|&w| w <= 2));
}

#[test]
fn encoded_mirrors_the_current_generation() {
    let g = grid_from(2, 2, vec![Cell::Rock, Cell::Paper, Cell::Scissors, Cell::Paper]);
    assert_eq!(g.encoded(), vec![0, 1, 2, 1]);
}

#[test]
fn reference_dimensions_tile_evenly() {
    assert_eq!(dispatch_counts(1920, 1080), Ok((120, 120)));
}

#[test]
fn indivisible_dimensions_are_rejected() {
    assert_eq!(dispatch_counts(1000, 1080), Err(GridError::IndivisibleDimensions));
    assert_eq!(dispatch_counts(1920, 1000), Err(GridError::IndivisibleDimensions));
    assert_eq!(dispatch_counts(1921, 1081), Err(GridError::IndivisibleDimensions));
}

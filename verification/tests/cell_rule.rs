//! Behavior of the per-cell transition rule.

use rps_automaton::Cell;
use rps_automaton::cell::next_state;

fn eight(slots: [Option<Cell>; 8]) -> Vec<Option<Cell>> {
    slots.to_vec()
}

#[test]
fn predator_relation_is_a_three_cycle() {
    assert_eq!(Cell::Rock.predator(), Cell::Paper);
    assert_eq!(Cell::Paper.predator(), Cell::Scissors);
    assert_eq!(Cell::Scissors.predator(), Cell::Rock);
    for c in [Cell::Rock, Cell::Paper, Cell::Scissors] {
        assert_ne!(c.predator(), c);
        assert_eq!(c.predator().predator().predator(), c);
    }
}

#[test]
fn encoding_round_trips() {
    for c in [Cell::Rock, Cell::Paper, Cell::Scissors] {
        assert_eq!(Cell::decode(c.encode()), c);
    }
    assert_eq!(Cell::Rock.encode(), 0);
    assert_eq!(Cell::Paper.encode(), 1);
    assert_eq!(Cell::Scissors.encode(), 2);
}

#[test]
fn three_predators_convert_a_cell() {
    let nbrs = eight([
        Some(Cell::Paper),
        Some(Cell::Paper),
        Some(Cell::Paper),
        Some(Cell::Rock),
        Some(Cell::Rock),
        Some(Cell::Rock),
        Some(Cell::Rock),
        Some(Cell::Rock),
    ]);
    assert_eq!(next_state(Cell::Rock, &nbrs), Cell::Paper);
}

#[test]
fn two_predators_leave_a_cell_unchanged() {
    let nbrs = eight([
        Some(Cell::Paper),
        Some(Cell::Paper),
        Some(Cell::Rock),
        Some(Cell::Rock),
        Some(Cell::Rock),
        Some(Cell::Rock),
        Some(Cell::Rock),
        Some(Cell::Rock),
    ]);
    assert_eq!(next_state(Cell::Rock, &nbrs), Cell::Rock);
}

#[test]
fn prey_neighbors_never_convert_a_cell() {
    // All eight neighbors are the cell's prey, not its predator.
    let nbrs = eight([Some(Cell::Scissors); 8]);
    assert_eq!(next_state(Cell::Rock, &nbrs), Cell::Rock);
    let nbrs = eight([Some(Cell::Rock); 8]);
    assert_eq!(next_state(Cell::Paper, &nbrs), Cell::Paper);
}

#[test]
fn absent_slots_count_for_no_state() {
    // Three predators among present slots convert, however many slots are
    // absent.
    let nbrs = eight([
        Some(Cell::Scissors),
        Some(Cell::Scissors),
        Some(Cell::Scissors),
        None,
        None,
        None,
        None,
        None,
    ]);
    assert_eq!(next_state(Cell::Paper, &nbrs), Cell::Scissors);
    // Two predators and six absent slots do not.
    let nbrs = eight([
        Some(Cell::Scissors),
        Some(Cell::Scissors),
        None,
        None,
        None,
        None,
        None,
        None,
    ]);
    assert_eq!(next_state(Cell::Paper, &nbrs), Cell::Paper);
}

#[test]
fn empty_neighborhood_changes_nothing() {
    let nbrs: Vec<Option<Cell>> = Vec::new();
    assert_eq!(next_state(Cell::Scissors, &nbrs), Cell::Scissors);
}

#[test]
fn conversion_adopts_the_attacker_identity() {
    for c in [Cell::Rock, Cell::Paper, Cell::Scissors] {
        let p = c.predator();
        let nbrs = eight([Some(p), Some(p), Some(p), Some(p), None, None, None, None]);
        assert_eq!(next_state(c, &nbrs), p);
    }
}

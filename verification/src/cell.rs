//! The per-cell transition rule of the three-state lattice game.
//!
//! A cell is overrun when strictly more than two of its present neighbors
//! hold its predator state; it then adopts the predator's identity.
//! Missing neighbor slots (grid edges) contribute to no count.

use vstd::prelude::*;

verus! {

/// One lattice site. Exactly three states exist.
#[derive(Clone, Copy, PartialEq, Eq, Structural, Debug)]
pub enum Cell {
    Rock,
    Paper,
    Scissors,
}

impl Cell {
    /// The state that overruns this one: Paper predates Rock, Scissors
    /// predates Paper, Rock predates Scissors.
    pub open spec fn predator_spec(self) -> Cell {
        match self {
            Cell::Rock => Cell::Paper,
            Cell::Paper => Cell::Scissors,
            Cell::Scissors => Cell::Rock,
        }
    }

    /// Returns this state's predator.
    pub fn predator(self) -> (p: Cell)
        ensures
            p == self.predator_spec(),
    {
        match self {
            Cell::Rock => Cell::Paper,
            Cell::Paper => Cell::Scissors,
            Cell::Scissors => Cell::Rock,
        }
    }

    /// The compact device encoding of this state.
    pub open spec fn encode_spec(self) -> u32 {
        match self {
            Cell::Rock => 0,
            Cell::Paper => 1,
            Cell::Scissors => 2,
        }
    }

    /// Encodes this state as the small integer the device buffers hold.
    pub fn encode(self) -> (v: u32)
        ensures
            v == self.encode_spec(),
            v <= 2,
    {
        match self {
            Cell::Rock => 0,
            Cell::Paper => 1,
            Cell::Scissors => 2,
        }
    }

    /// The state a device word stands for.
    pub open spec fn decode_spec(v: u32) -> Cell {
        if v == 0 {
            Cell::Rock
        } else if v == 1 {
            Cell::Paper
        } else {
            Cell::Scissors
        }
    }

    /// Decodes a device word back into a state.
    pub fn decode(v: u32) -> (c: Cell)
        requires
            v <= 2,
        ensures
            c == Cell::decode_spec(v),
            c.encode_spec() == v,
    {
        if v == 0 {
            Cell::Rock
        } else if v == 1 {
            Cell::Paper
        } else {
            Cell::Scissors
        }
    }
}

/// How many of the present neighbor slots hold state `c`. An absent slot
/// (a grid edge) is counted for no state.
pub open spec fn count_state(neighbors: Seq<Option<Cell>>, c: Cell) -> nat
    decreases neighbors.len(),
{
    if neighbors.len() == 0 {
        0
    } else {
        count_state(neighbors.drop_last(), c) + if neighbors.last() == Some(c) {
            1nat
        } else {
            0nat
        }
    }
}

/// The next state of a cell given its neighborhood: the cell converts to its
/// predator exactly when the predator holds strictly more than two of the
/// present neighbor slots, and is unchanged otherwise.
pub open spec fn next_state_spec(cell: Cell, neighbors: Seq<Option<Cell>>) -> Cell {
    if count_state(neighbors, cell.predator_spec()) > 2 {
        cell.predator_spec()
    } else {
        cell
    }
}

/// Computes a cell's next state from its own state and its (up to 8)
/// neighbor slots. Pure and side-effect free, so the data-parallel kernel
/// and this host-side reference share one statement of the rule.
pub fn next_state(cell: Cell, neighbors: &Vec<Option<Cell>>) -> (next: Cell)
    ensures
        next == next_state_spec(cell, neighbors@),
{
    let predator = cell.predator();
    let mut count: u64 = 0;
    let mut i: usize = 0;
    while i < neighbors.len()
        invariant
            0 <= i <= neighbors@.len(),
            predator == cell.predator_spec(),
            count == count_state(neighbors@.take(i as int), predator),
            count <= i,
        decreases neighbors@.len() - i,
    {
        let slot_matches = match neighbors[i] {
            Some(n) => n == predator,
            None => false,
        };
        proof {
            assert(neighbors@.take(i + 1 as int).drop_last() =~= neighbors@.take(i as int));
            assert(neighbors@.take(i + 1 as int).last() == neighbors@[i as int]);
        }
        if slot_matches {
            count = count + 1;
        }
        i = i + 1;
    }
    proof {
        assert(neighbors@.take(neighbors@.len() as int) =~= neighbors@);
    }
    if count > 2 {
        predator
    } else {
        cell
    }
}

/// Cycle closure: following the predator relation three times returns to the
/// start, and no state is its own predator. The only way a cell keeps its
/// state is an insufficient predator count, never a fixed point of the
/// relation.
pub proof fn lemma_predator_cycle(c: Cell)
    ensures
        c.predator_spec().predator_spec().predator_spec() == c,
        c.predator_spec() != c,
{
}

/// Rule correctness: a cell converts (changes state) if and only if its
/// predator appears in strictly more than two of the counted neighbor slots,
/// and then it converts exactly to its predator's state.
pub proof fn lemma_rule_correctness(cell: Cell, neighbors: Seq<Option<Cell>>)
    ensures
        next_state_spec(cell, neighbors) != cell <==> count_state(
            neighbors,
            cell.predator_spec(),
        ) > 2,
        next_state_spec(cell, neighbors) != cell ==> next_state_spec(cell, neighbors)
            == cell.predator_spec(),
{
    lemma_predator_cycle(cell);
}

/// Boundary handling: an absent neighbor slot changes no count, so edge
/// cells are judged on their present slots alone.
pub proof fn lemma_absent_slot_not_counted(neighbors: Seq<Option<Cell>>, c: Cell)
    ensures
        count_state(neighbors.push(None), c) == count_state(neighbors, c),
{
    assert(neighbors.push(None).drop_last() =~= neighbors);
}

} // verus!

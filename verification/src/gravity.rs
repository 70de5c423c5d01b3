//! The movement rule: where one grain goes, what one step does to the state,
//! and what a whole tick does when it walks the active set in a given order.

use crate::particle::Particle;
use crate::state::{column, row, State, HEIGHT, WIDTH};
use vstd::prelude::*;

verus! {

/// Whether gravity looks at the cell with index `i` at all. The leftmost
/// column, the rightmost column and the bottom row are never moved, whatever
/// lies below them.
pub open spec fn may_move(i: int) -> bool {
    0 <= i && 0 < column(i) < WIDTH - 1 && row(i) < HEIGHT - 1
}

/// The cell that a grain at index `i` moves to, if any: straight down if that
/// cell is empty, else down-left, else down-right, in that order.
pub open spec fn landing(cells: Seq<Particle>, i: int) -> Option<int> {
    if !may_move(i) {
        None
    } else if cells[i + WIDTH] == Particle::Empty {
        Some(i + WIDTH)
    } else if cells[i + WIDTH - 1] == Particle::Empty {
        Some(i + WIDTH - 1)
    } else if cells[i + WIDTH + 1] == Particle::Empty {
        Some(i + WIDTH + 1)
    } else {
        None
    }
}

/// The state after gravity has looked at the cell with index `i`: if the grain
/// has a landing cell it leaves `i` empty and inactive and makes the landing
/// cell sand and active; otherwise nothing changes.
pub open spec fn step(s: State, i: int) -> State {
    match landing(s.cells, i) {
        Some(j) => State {
            cells: s.cells.update(i, Particle::Empty).update(j, Particle::Sand),
            active: s.active.remove(i).insert(j),
            radius: s.radius,
        },
        None => s,
    }
}

/// The state after gravity has looked at the cells of `order`, first to last.
/// Each step sees the grid as the steps before it left it.
pub open spec fn run(s: State, order: Seq<int>) -> State
    decreases order.len(),
{
    if order.len() == 0 {
        s
    } else {
        step(run(s, order.drop_last()), order.last())
    }
}

/// `order` lists every member of `active` exactly once.
pub open spec fn walks(order: Seq<int>, active: Set<int>) -> bool {
    order.no_duplicates() && order.to_set() == active
}

/// `after` is what one tick can make of `before`: the active set as it stood
/// at the start of the tick is walked once, in some order.
pub open spec fn ticks_to(before: State, after: State) -> bool {
    exists|order: Seq<int>| walks(order, before.active) && after == #[trigger] run(before, order)
}

/// `after` is what `n` ticks in a row can make of `before`.
pub open spec fn reaches(before: State, after: State, n: nat) -> bool
    decreases n,
{
    if n == 0 {
        after == before
    } else {
        exists|mid: State| reaches(before, mid, (n - 1) as nat) && #[trigger] ticks_to(mid, after)
    }
}

/// The indices of `order` as mathematical integers.
pub open spec fn indices(order: Seq<usize>) -> Seq<int> {
    order.map_values(|k: usize| k as int)
}

} // verus!

//! What holds of the simulation whatever the order in which a tick walks the
//! active set, proved from the model.

use crate::brush::{after_input, covers, in_brush, paint, selected, InputSnapshot};
use crate::gravity::{landing, may_move, reaches, run, step, ticks_to, walks};
use crate::particle::Particle;
use crate::state::{cell, column, in_grid, initial, row, State, CELLS, HEIGHT, SCALE, WIDTH};
use vstd::prelude::*;
use vstd::multiset::group_multiset_axioms;
use vstd::seq_lib::{to_multiset_contains, to_multiset_update};

verus! {

/// A landing cell is a cell of the grid, and it was empty.
pub proof fn landing_is_empty_cell(s: State, i: int)
    requires
        s.wf(),
        landing(s.cells, i) is Some,
    ensures
        0 <= i < CELLS,
        0 <= landing(s.cells, i)->0 < CELLS,
        landing(s.cells, i)->0 != i,
        s.cells[landing(s.cells, i)->0] == Particle::Empty,
{
}

/// A step keeps the state well formed.
pub proof fn step_keeps_wf(s: State, i: int)
    requires
        s.wf(),
    ensures
        step(s, i).wf(),
{
    if landing(s.cells, i) is Some {
        landing_is_empty_cell(s, i);
    }
}

/// If every grain is active before a step, every grain is active after it.
pub proof fn step_keeps_sand_tracked(s: State, i: int)
    requires
        s.wf(),
        s.tracks_sand(),
    ensures
        step(s, i).tracks_sand(),
{
    if landing(s.cells, i) is Some {
        landing_is_empty_cell(s, i);
    }
}

/// A walk in any order keeps the state well formed.
pub proof fn run_keeps_wf(s: State, order: Seq<int>)
    requires
        s.wf(),
    ensures
        run(s, order).wf(),
    decreases order.len(),
{
    if order.len() > 0 {
        run_keeps_wf(s, order.drop_last());
        step_keeps_wf(run(s, order.drop_last()), order.last());
    }
}

/// If every grain is active before a walk, every grain is active after it,
/// in whatever order the walk goes.
pub proof fn run_keeps_sand_tracked(s: State, order: Seq<int>)
    requires
        s.wf(),
        s.tracks_sand(),
    ensures
        run(s, order).tracks_sand(),
    decreases order.len(),
{
    if order.len() > 0 {
        run_keeps_wf(s, order.drop_last());
        run_keeps_sand_tracked(s, order.drop_last());
        step_keeps_sand_tracked(run(s, order.drop_last()), order.last());
    }
}

/// A tick keeps the state well formed.
pub proof fn tick_keeps_wf(before: State, after: State)
    requires
        before.wf(),
        ticks_to(before, after),
    ensures
        after.wf(),
{
    let order = choose|order: Seq<int>|
        walks(order, before.active) && after == #[trigger] run(before, order);
    run_keeps_wf(before, order);
}

/// Any number of ticks keeps the state well formed.
pub proof fn ticks_keep_wf(before: State, after: State, n: nat)
    requires
        before.wf(),
        reaches(before, after, n),
    ensures
        after.wf(),
    decreases n,
{
    if n > 0 {
        let mid = choose|mid: State|
            reaches(before, mid, (n - 1) as nat) && #[trigger] ticks_to(mid, after);
        ticks_keep_wf(before, mid, (n - 1) as nat);
        tick_keeps_wf(mid, after);
    }
}

/// A fresh world is well formed, and its active set is exactly its sand:
/// there is none of either.
pub proof fn fresh_world_is_consistent()
    ensures
        initial().wf(),
        initial().consistent(),
{
}

/// If every grain is active before a tick, every grain is active after it.
pub proof fn tick_keeps_sand_tracked(before: State, after: State)
    requires
        before.wf(),
        before.tracks_sand(),
        ticks_to(before, after),
    ensures
        after.tracks_sand(),
{
    let order = choose|order: Seq<int>|
        walks(order, before.active) && after == #[trigger] run(before, order);
    run_keeps_sand_tracked(before, order);
}

/// If every grain is active at some time, every grain is active after any
/// number of ticks.
pub proof fn ticks_keep_sand_tracked(before: State, after: State, n: nat)
    requires
        before.wf(),
        before.tracks_sand(),
        reaches(before, after, n),
    ensures
        after.tracks_sand(),
    decreases n,
{
    if n > 0 {
        let mid = choose|mid: State|
            reaches(before, mid, (n - 1) as nat) && #[trigger] ticks_to(mid, after);
        ticks_keep_wf(before, mid, (n - 1) as nat);
        ticks_keep_sand_tracked(before, mid, (n - 1) as nat);
        tick_keeps_sand_tracked(mid, after);
    }
}

/// If every grain is active before a stroke, every grain is active after it,
/// whatever is painted and wherever.
pub proof fn paint_keeps_sand_tracked(s: State, mx: int, my: int, p: Particle)
    requires
        s.wf(),
        s.tracks_sand(),
    ensures
        paint(s, mx, my, p).wf(),
        paint(s, mx, my, p).tracks_sand(),
{
}

/// A tick of a world in which nothing is active changes nothing.
pub proof fn idle_tick_changes_nothing(before: State, after: State)
    requires
        before.active == Set::<int>::empty(),
        ticks_to(before, after),
    ensures
        after == before,
{
    let order = choose|order: Seq<int>|
        walks(order, before.active) && after == #[trigger] run(before, order);
    if order.len() > 0 {
        assert(order.to_set().contains(order[0]));
    }
}

/// What a step does when the cell it looks at is active in a world whose
/// active cells all hold sand: the active cells still all hold sand, the grid
/// holds the same particles as before, obstacles are where they were, and
/// every other active cell is still active.
pub proof fn step_moves_one_grain(s: State, i: int)
    requires
        s.wf(),
        s.active_is_sand(),
        s.active.contains(i),
    ensures
        step(s, i).wf(),
        step(s, i).active_is_sand(),
        step(s, i).cells.to_multiset() == s.cells.to_multiset(),
        forall|c: int|
            0 <= c < CELLS ==> (#[trigger] step(s, i).cells[c] == Particle::Static <==> s.cells[c]
                == Particle::Static),
        forall|k: int| s.active.contains(k) && k != i ==> step(s, i).active.contains(k),
{
    broadcast use group_multiset_axioms;

    step_keeps_wf(s, i);
    if landing(s.cells, i) is Some {
        landing_is_empty_cell(s, i);
        let j = landing(s.cells, i)->0;
        let lifted = s.cells.update(i, Particle::Empty);
        to_multiset_update(s.cells, i, Particle::Empty);
        to_multiset_update(lifted, j, Particle::Sand);
        assert(s.cells.contains(Particle::Sand)) by {
            assert(s.cells[i] == Particle::Sand);
        }
        to_multiset_contains(s.cells, Particle::Sand);
        assert(step(s, i).cells.to_multiset() =~= s.cells.to_multiset());
    }
}

/// What a walk does when it looks once at each of some active cells of a
/// world whose active cells all hold sand: the same as `step_moves_one_grain`
/// says of one step, with the active cells that the walk does not visit
/// still active.
pub proof fn run_moves_grains(s: State, order: Seq<int>)
    requires
        s.wf(),
        s.active_is_sand(),
        order.no_duplicates(),
        forall|k: int| 0 <= k < order.len() ==> s.active.contains(order[k]),
    ensures
        run(s, order).wf(),
        run(s, order).active_is_sand(),
        run(s, order).cells.to_multiset() == s.cells.to_multiset(),
        forall|c: int|
            0 <= c < CELLS ==> (#[trigger] run(s, order).cells[c] == Particle::Static
                <==> s.cells[c] == Particle::Static),
        forall|k: int| s.active.contains(k) && !order.contains(k) ==> run(s, order).active.contains(k),
    decreases order.len(),
{
    if order.len() > 0 {
        let front = order.drop_last();
        let last = order.last();
        run_moves_grains(s, front);
        assert(!front.contains(last)) by {
            if front.contains(last) {
                let k = choose|k: int| 0 <= k < front.len() && front[k] == last;
                assert(order[k] == order[order.len() - 1]);
            }
        }
        step_moves_one_grain(run(s, front), last);
        assert forall|k: int| s.active.contains(k) && !order.contains(k) implies run(
            s,
            order,
        ).active.contains(k) by {
            assert(k != last) by {
                assert(order[order.len() - 1] == last);
            }
            assert(!front.contains(k)) by {
                if front.contains(k) {
                    let a = choose|a: int| 0 <= a < front.len() && front[a] == k;
                    assert(order[a] == k);
                }
            }
        }
    }
}

/// Every cell that a walk of the active set visits is active.
proof fn walk_visits_active(order: Seq<int>, active: Set<int>)
    requires
        walks(order, active),
    ensures
        forall|k: int| 0 <= k < order.len() ==> active.contains(#[trigger] order[k]),
{
    assert forall|k: int| 0 <= k < order.len() implies active.contains(#[trigger] order[k]) by {
        assert(order.to_set().contains(order[k]));
    }
}

/// If every active cell holds sand before a tick, every active cell holds
/// sand after it.
pub proof fn tick_keeps_active_sand(before: State, after: State)
    requires
        before.wf(),
        before.active_is_sand(),
        ticks_to(before, after),
    ensures
        after.active_is_sand(),
{
    let order = choose|order: Seq<int>|
        walks(order, before.active) && after == #[trigger] run(before, order);
    walk_visits_active(order, before.active);
    run_moves_grains(before, order);
}

/// A tick neither makes nor loses a particle: where every active cell holds
/// sand, the grid after the tick holds each kind of particle as often as the
/// grid before it.
pub proof fn tick_conserves_particles(before: State, after: State)
    requires
        before.wf(),
        before.active_is_sand(),
        ticks_to(before, after),
    ensures
        after.cells.to_multiset() == before.cells.to_multiset(),
{
    let order = choose|order: Seq<int>|
        walks(order, before.active) && after == #[trigger] run(before, order);
    walk_visits_active(order, before.active);
    run_moves_grains(before, order);
}

/// Any number of ticks neither makes nor loses a particle: where every active
/// cell holds sand, that is still so afterwards, and the grid holds each kind
/// of particle as often as before.
pub proof fn ticks_conserve_particles(before: State, after: State, n: nat)
    requires
        before.wf(),
        before.active_is_sand(),
        reaches(before, after, n),
    ensures
        after.active_is_sand(),
        after.cells.to_multiset() == before.cells.to_multiset(),
    decreases n,
{
    if n > 0 {
        let mid = choose|mid: State|
            reaches(before, mid, (n - 1) as nat) && #[trigger] ticks_to(mid, after);
        ticks_keep_wf(before, mid, (n - 1) as nat);
        ticks_conserve_particles(before, mid, (n - 1) as nat);
        tick_keeps_active_sand(mid, after);
        tick_conserves_particles(mid, after);
    }
}

/// A tick leaves obstacles where they are: where every active cell holds
/// sand, a cell holds an obstacle after the tick exactly if it did before.
pub proof fn tick_leaves_obstacles(before: State, after: State, c: int)
    requires
        before.wf(),
        before.active_is_sand(),
        ticks_to(before, after),
        0 <= c < CELLS,
    ensures
        after.cells[c] == Particle::Static <==> before.cells[c] == Particle::Static,
{
    let order = choose|order: Seq<int>|
        walks(order, before.active) && after == #[trigger] run(before, order);
    walk_visits_active(order, before.active);
    run_moves_grains(before, order);
}

/// A stroke keeps the active cells sand if it paints sand, or if it covers no
/// active cell.
pub proof fn paint_keeps_active_sand(s: State, mx: int, my: int, p: Particle)
    requires
        s.wf(),
        s.active_is_sand(),
        p == Particle::Sand || forall|i: int|
            covers(s.radius as int, mx, my, i) ==> !s.active.contains(i),
    ensures
        paint(s, mx, my, p).active_is_sand(),
{
}

/// A tick of a world with one active cell is one step at that cell.
pub proof fn lone_tick_is_one_step(before: State, after: State, i: int)
    requires
        before.active == set![i],
        ticks_to(before, after),
    ensures
        after == step(before, i),
{
    let order = choose|order: Seq<int>|
        walks(order, before.active) && after == #[trigger] run(before, order);
    assert(order.to_set().contains(i));
    let k = choose|k: int| 0 <= k < order.len() && order[k] == i;
    if order.len() > 1 {
        assert(order.to_set().contains(order[0]));
        assert(order.to_set().contains(order[1]));
    }
    assert(order =~= seq![i]);
    assert(order.drop_last() =~= Seq::<int>::empty());
    reveal_with_fuel(run, 2);
}

/// A lone grain with an empty cell below it falls into that cell in one
/// tick, and nothing else changes.
pub proof fn lone_grain_falls(before: State, after: State, x: int, y: int)
    requires
        before.wf(),
        0 < x < WIDTH - 1,
        0 <= y < HEIGHT - 1,
        before.active == set![cell(x, y)],
        before.at(x, y + 1) == Particle::Empty,
        ticks_to(before, after),
    ensures
        after.cells == before.cells.update(cell(x, y), Particle::Empty).update(
            cell(x, y + 1),
            Particle::Sand,
        ),
        after.active == set![cell(x, y + 1)],
        after.radius == before.radius,
{
    lone_tick_is_one_step(before, after, cell(x, y));
    assert(landing(before.cells, cell(x, y)) == Some(cell(x, y + 1)));
    assert(after.active =~= set![cell(x, y + 1)]);
}

/// A lone grain whose cell below is occupied, with the cell down-left of it
/// empty, moves down-left in one tick, whatever is down-right of it.
pub proof fn lone_grain_slides_left(before: State, after: State, x: int, y: int)
    requires
        before.wf(),
        0 < x < WIDTH - 1,
        0 <= y < HEIGHT - 1,
        before.active == set![cell(x, y)],
        before.at(x, y + 1) != Particle::Empty,
        before.at(x - 1, y + 1) == Particle::Empty,
        ticks_to(before, after),
    ensures
        after.cells == before.cells.update(cell(x, y), Particle::Empty).update(
            cell(x - 1, y + 1),
            Particle::Sand,
        ),
        after.active == set![cell(x - 1, y + 1)],
        after.radius == before.radius,
{
    lone_tick_is_one_step(before, after, cell(x, y));
    assert(landing(before.cells, cell(x, y)) == Some(cell(x - 1, y + 1)));
    assert(after.active =~= set![cell(x - 1, y + 1)]);
}

/// A lone grain whose cells below and down-left are occupied, with the cell
/// down-right of it empty, moves down-right in one tick.
pub proof fn lone_grain_slides_right(before: State, after: State, x: int, y: int)
    requires
        before.wf(),
        0 < x < WIDTH - 1,
        0 <= y < HEIGHT - 1,
        before.active == set![cell(x, y)],
        before.at(x, y + 1) != Particle::Empty,
        before.at(x - 1, y + 1) != Particle::Empty,
        before.at(x + 1, y + 1) == Particle::Empty,
        ticks_to(before, after),
    ensures
        after.cells == before.cells.update(cell(x, y), Particle::Empty).update(
            cell(x + 1, y + 1),
            Particle::Sand,
        ),
        after.active == set![cell(x + 1, y + 1)],
        after.radius == before.radius,
{
    lone_tick_is_one_step(before, after, cell(x, y));
    assert(landing(before.cells, cell(x, y)) == Some(cell(x + 1, y + 1)));
    assert(after.active =~= set![cell(x + 1, y + 1)]);
}

/// A lone grain with nothing but empty cells below it falls one row per tick
/// until it lies in the bottom row, and stays there: after `n` ticks it is in
/// row `min(y + n, HEIGHT - 1)` of its column, and nothing else has changed.
pub proof fn lone_grain_falls_to_the_floor(before: State, after: State, x: int, y: int, n: nat)
    requires
        before.wf(),
        0 < x < WIDTH - 1,
        0 <= y < HEIGHT,
        before.active == set![cell(x, y)],
        before.at(x, y) == Particle::Sand,
        forall|below: int| y < below < HEIGHT ==> #[trigger] before.at(x, below) == Particle::Empty,
        reaches(before, after, n),
    ensures
        after.cells == before.cells.update(cell(x, y), Particle::Empty).update(
            cell(x, vstd::math::min(y + n, HEIGHT - 1)),
            Particle::Sand,
        ),
        after.active == set![cell(x, vstd::math::min(y + n, HEIGHT - 1))],
        after.radius == before.radius,
    decreases n,
{
    if n == 0 {
        assert(after.cells =~= before.cells.update(cell(x, y), Particle::Empty).update(
            cell(x, y),
            Particle::Sand,
        ));
    } else {
        let mid = choose|mid: State|
            reaches(before, mid, (n - 1) as nat) && #[trigger] ticks_to(mid, after);
        lone_grain_falls_to_the_floor(before, mid, x, y, (n - 1) as nat);
        ticks_keep_wf(before, mid, (n - 1) as nat);
        let at_row = vstd::math::min(y + n - 1, HEIGHT - 1);
        lone_tick_is_one_step(mid, after, cell(x, at_row));
        if at_row < HEIGHT - 1 {
            assert(before.at(x, at_row + 1) == Particle::Empty);
            assert(mid.cells[cell(x, at_row + 1)] == Particle::Empty);
            assert(landing(mid.cells, cell(x, at_row)) == Some(cell(x, at_row + 1)));
            if at_row > y {
                assert(before.at(x, at_row) == Particle::Empty);
            }
            assert(after.cells =~= before.cells.update(cell(x, y), Particle::Empty).update(
                cell(x, at_row + 1),
                Particle::Sand,
            ));
            assert(after.active =~= set![cell(x, at_row + 1)]);
        } else {
            assert(!may_move(cell(x, at_row)));
        }
    }
}

/// A step elsewhere does not move a grain that lies in the leftmost column,
/// the rightmost column or the bottom row, nor does a step at the grain.
pub proof fn step_spares_edge_grain(s: State, j: int, i: int)
    requires
        s.wf(),
        0 <= i < CELLS,
        !may_move(i),
        s.cells[i] == Particle::Sand,
    ensures
        step(s, j).cells[i] == Particle::Sand,
        s.active.contains(i) ==> step(s, j).active.contains(i),
{
    if landing(s.cells, j) is Some {
        landing_is_empty_cell(s, j);
    }
}

/// A walk in any order does not move a grain that lies in the leftmost
/// column, the rightmost column or the bottom row.
pub proof fn run_spares_edge_grain(s: State, order: Seq<int>, i: int)
    requires
        s.wf(),
        0 <= i < CELLS,
        !may_move(i),
        s.cells[i] == Particle::Sand,
    ensures
        run(s, order).cells[i] == Particle::Sand,
        s.active.contains(i) ==> run(s, order).active.contains(i),
    decreases order.len(),
{
    if order.len() > 0 {
        run_keeps_wf(s, order.drop_last());
        run_spares_edge_grain(s, order.drop_last(), i);
        step_spares_edge_grain(run(s, order.drop_last()), order.last(), i);
    }
}

/// A grain in the leftmost column, the rightmost column or the bottom row
/// never moves: after any number of ticks it is where it was, and if it was
/// active it still is.
pub proof fn edge_grain_stays(before: State, after: State, x: int, y: int, n: nat)
    requires
        before.wf(),
        in_grid(x, y),
        x == 0 || x == WIDTH - 1 || y == HEIGHT - 1,
        before.at(x, y) == Particle::Sand,
        reaches(before, after, n),
    ensures
        after.at(x, y) == Particle::Sand,
        before.is_active(x, y) ==> after.is_active(x, y),
    decreases n,
{
    if n > 0 {
        let mid = choose|mid: State|
            reaches(before, mid, (n - 1) as nat) && #[trigger] ticks_to(mid, after);
        edge_grain_stays(before, mid, x, y, (n - 1) as nat);
        ticks_keep_wf(before, mid, (n - 1) as nat);
        let order = choose|order: Seq<int>|
            walks(order, mid.active) && after == #[trigger] run(mid, order);
        run_spares_edge_grain(mid, order, cell(x, y));
    }
}

/// A walk that looks once at each of some active cells, in a world whose
/// active cells all hold sand, does not move an active grain that has an
/// obstacle below it, down-left of it and down-right of it.
pub proof fn run_spares_walled_grain(s: State, order: Seq<int>, i: int)
    requires
        s.wf(),
        s.active_is_sand(),
        order.no_duplicates(),
        forall|k: int| 0 <= k < order.len() ==> s.active.contains(order[k]),
        s.active.contains(i),
        may_move(i),
        s.cells[i + WIDTH] == Particle::Static,
        s.cells[i + WIDTH - 1] == Particle::Static,
        s.cells[i + WIDTH + 1] == Particle::Static,
    ensures
        run(s, order).active.contains(i),
        run(s, order).cells[i] == Particle::Sand,
    decreases order.len(),
{
    if order.len() > 0 {
        let front = order.drop_last();
        let last = order.last();
        run_spares_walled_grain(s, front, i);
        run_moves_grains(s, front);
        let r = run(s, front);
        assert(r.cells[i + WIDTH] == Particle::Static);
        assert(r.cells[i + WIDTH - 1] == Particle::Static);
        assert(r.cells[i + WIDTH + 1] == Particle::Static);
        assert(landing(r.cells, i) is None);
        if last != i {
            assert(!front.contains(last)) by {
                if front.contains(last) {
                    let k = choose|k: int| 0 <= k < front.len() && front[k] == last;
                    assert(order[k] == order[order.len() - 1]);
                }
            }
            step_moves_one_grain(r, last);
        }
    }
}

/// A grain that has an obstacle below it, down-left of it and down-right of
/// it rests: in a world whose active cells all hold sand, after any number of
/// ticks it is where it was, it is still active, and the three obstacles are
/// still there.
pub proof fn walled_grain_rests(before: State, after: State, x: int, y: int, n: nat)
    requires
        before.wf(),
        before.active_is_sand(),
        0 < x < WIDTH - 1,
        0 <= y < HEIGHT - 1,
        before.is_active(x, y),
        before.at(x, y + 1) == Particle::Static,
        before.at(x - 1, y + 1) == Particle::Static,
        before.at(x + 1, y + 1) == Particle::Static,
        reaches(before, after, n),
    ensures
        after.wf(),
        after.active_is_sand(),
        after.at(x, y) == Particle::Sand,
        after.is_active(x, y),
        after.at(x, y + 1) == Particle::Static,
        after.at(x - 1, y + 1) == Particle::Static,
        after.at(x + 1, y + 1) == Particle::Static,
    decreases n,
{
    if n > 0 {
        let mid = choose|mid: State|
            reaches(before, mid, (n - 1) as nat) && #[trigger] ticks_to(mid, after);
        walled_grain_rests(before, mid, x, y, (n - 1) as nat);
        let order = choose|order: Seq<int>|
            walks(order, mid.active) && after == #[trigger] run(mid, order);
        walk_visits_active(order, mid.active);
        run_moves_grains(mid, order);
        run_spares_walled_grain(mid, order, cell(x, y));
        assert(after.cells[cell(x, y + 1)] == Particle::Static);
        assert(after.cells[cell(x - 1, y + 1)] == Particle::Static);
        assert(after.cells[cell(x + 1, y + 1)] == Particle::Static);
    }
}

/// If every grain is active before a frame's input is applied, every grain
/// is active after it.
pub proof fn input_keeps_sand_tracked(s: State, input: InputSnapshot)
    requires
        s.wf(),
        s.tracks_sand(),
    ensures
        after_input(s, input).wf(),
        after_input(s, input).tracks_sand(),
{
    if input.pointer is Some && selected(input) is Some {
        let at = input.pointer->0;
        paint_keeps_sand_tracked(
            s,
            at.0 as int / SCALE as int,
            at.1 as int / SCALE as int,
            selected(input)->0,
        );
    }
}

/// A stroke with radius 0 changes nothing.
pub proof fn zero_radius_paints_nothing(s: State, mx: int, my: int, p: Particle)
    requires
        s.radius == 0,
    ensures
        paint(s, mx, my, p) == s,
{
    assert(paint(s, mx, my, p).cells =~= s.cells);
    assert(paint(s, mx, my, p).active =~= s.active);
}

/// A stroke covers only cells of the grid, and none of the last column or
/// the last row.
pub proof fn brush_stays_in_grid(r: int, mx: int, my: int, x: int, y: int)
    requires
        in_brush(r, mx, my, x, y),
    ensures
        0 <= x < WIDTH - 1,
        0 <= y < HEIGHT - 1,
{
}

/// What a stroke does, cell by cell: a cell of the grid holds the painted
/// particle if the stroke covers it and what it held before if not; it is
/// active afterwards exactly if it was active before or the stroke painted
/// sand on it.
pub proof fn stroke_cell_by_cell(s: State, mx: int, my: int, p: Particle, x: int, y: int)
    requires
        s.wf(),
        in_grid(x, y),
    ensures
        paint(s, mx, my, p).at(x, y) == if in_brush(s.radius as int, mx, my, x, y) {
            p
        } else {
            s.at(x, y)
        },
        paint(s, mx, my, p).is_active(x, y) <==> s.is_active(x, y) || (p == Particle::Sand
            && in_brush(s.radius as int, mx, my, x, y)),
{
    assert(column(cell(x, y)) == x && row(cell(x, y)) == y);
}

} // verus!

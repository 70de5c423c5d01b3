//! The executable simulation state and its operations.

use crate::brush::{after_input, paint, Flow, InputSnapshot};
use crate::gravity::{indices, landing, run, step, ticks_to, walks};
use crate::laws::{
    idle_tick_changes_nothing, input_keeps_sand_tracked, paint_keeps_sand_tracked,
    tick_keeps_active_sand, tick_keeps_sand_tracked, zero_radius_paints_nothing,
};
use crate::particle::Particle;
use crate::render::{frame_of, OPAQUE};
use crate::state::{
    cell, column, in_grid, initial, row, State, CELLS, DEFAULT_RADIUS, HEIGHT, SCALE, WIDTH,
};
use std::collections::HashSet;
use vstd::prelude::*;
use vstd::std_specs::hash::{group_hash_axioms, into_iter_hash_keys, spec_hash_keys_iter};
use vstd::std_specs::iter::IteratorSpec;

verus! {

broadcast use group_hash_axioms;

/// One running simulation: the grid, the active set and the brush radius.
pub struct World {
    grid: Vec<Particle>,
    movable: HashSet<usize>,
    radius: u32,
}

impl View for World {
    type V = State;

    closed spec fn view(&self) -> State {
        State {
            cells: self.grid@,
            active: Set::new(|i: int| 0 <= i <= usize::MAX && self.movable@.contains(i as usize)),
            radius: self.radius as nat,
        }
    }
}

impl World {
    /// A world with an empty grid, an empty active set and the default radius.
    pub fn new() -> (world: World)
        ensures
            world@ == initial(),
            world@.wf(),
    {
        let world = World {
            grid: vec![Particle::Empty; CELLS],
            movable: HashSet::new(),
            radius: DEFAULT_RADIUS,
        };
        assert(world@.cells =~= initial().cells);
        assert(world@.active =~= initial().active);
        world
    }

    /// The particle at `(x, y)`.
    pub fn get(&self, x: u32, y: u32) -> (p: Particle)
        requires
            self@.wf(),
            in_grid(x as int, y as int),
        ensures
            p == self@.at(x as int, y as int),
    {
        self.grid[(y * WIDTH + x) as usize]
    }

    /// Writes `particle` into cell `(x, y)` and touches nothing else; the
    /// active set is left as it is.
    pub fn set(&mut self, x: u32, y: u32, particle: Particle)
        requires
            old(self)@.wf(),
            in_grid(x as int, y as int),
        ensures
            final(self)@ == (State {
                cells: old(self)@.cells.update(cell(x as int, y as int), particle),
                ..old(self)@
            }),
            final(self)@.wf(),
    {
        self.grid[(y * WIDTH + x) as usize] = particle;
        assert(self@.active == old(self)@.active);
    }

    /// Puts cell `(x, y)` into the active set, whatever it holds; the grid is
    /// left as it is.
    pub fn activate(&mut self, x: u32, y: u32)
        requires
            old(self)@.wf(),
            in_grid(x as int, y as int),
        ensures
            final(self)@ == (State {
                active: old(self)@.active.insert(cell(x as int, y as int)),
                ..old(self)@
            }),
            final(self)@.wf(),
    {
        let i: usize = (y * WIDTH + x) as usize;
        self.movable.insert(i);
        assert(self@.active =~= old(self)@.active.insert(i as int));
    }

    /// Takes cell `(x, y)` out of the active set; the grid is left as it is.
    pub fn deactivate(&mut self, x: u32, y: u32)
        requires
            old(self)@.wf(),
            in_grid(x as int, y as int),
        ensures
            final(self)@ == (State {
                active: old(self)@.active.remove(cell(x as int, y as int)),
                ..old(self)@
            }),
            final(self)@.wf(),
    {
        let i: usize = (y * WIDTH + x) as usize;
        self.movable.remove(&i);
        assert(self@.active =~= old(self)@.active.remove(i as int));
    }

    /// A copy of the active set as a list of cell indices, each member once,
    /// in an order that is not specified.
    pub fn snapshot(&self) -> (members: Vec<usize>)
        requires
            self@.wf(),
        ensures
            walks(indices(members@), self@.active),
    {
        let mut members: Vec<usize> = Vec::new();
        let iter = self.movable.iter();
        let ghost keys: Seq<usize> = into_iter_hash_keys(iter);
        assert(keys.no_duplicates() && keys.to_set() == self.movable@) by {
            let refs = spec_hash_keys_iter(&self.movable).remaining();
            assert(keys == refs.unref());
            assert(refs.no_duplicates());
            assert forall|a: int, b: int| 0 <= a < keys.len() && 0 <= b < keys.len() && a != b
                implies keys[a] != keys[b] by {
                assert(refs[a] != refs[b]);
            }
        }
        for k in it: iter
            invariant
                members@.len() == it.index(),
                it.seq().unref() == keys,
                forall|j: int| 0 <= j < members@.len() ==> members@[j] == keys[j],
        {
            assert(*k == it.seq().unref()[it.index()]);
            members.push(*k);
        }
        assert(members@.len() == keys.len());
        assert(members@ =~= keys);
        proof {
            let order = indices(members@);
            assert forall|a: int, b: int| 0 <= a < order.len() && 0 <= b < order.len() && a != b
                implies order[a] != order[b] by {
                assert(members@[a] != members@[b]);
            }
            assert forall|i: int| order.to_set().contains(i) <==> self@.active.contains(i) by {
                if order.to_set().contains(i) {
                    let a = choose|a: int| 0 <= a < order.len() && order[a] == i;
                    assert(keys.to_set().contains(keys[a]));
                }
                if self@.active.contains(i) {
                    let k = i as usize;
                    assert(keys.to_set().contains(k));
                    let a = choose|a: int| 0 <= a < keys.len() && keys[a] == k;
                    assert(order[a] == i);
                }
            }
            assert(order.to_set() =~= self@.active);
        }
        members
    }

    /// Lets gravity look at the cell with index `i` as a tick does with the
    /// cells it walks: without asking what the cell holds or whether it is
    /// active, it moves a grain from there to the landing cell, if there is
    /// one, and the active set follows. An index outside the grid is ignored.
    pub fn fall(&mut self, i: usize)
        requires
            old(self)@.wf(),
        ensures
            final(self)@ == step(old(self)@, i as int),
            final(self)@.wf(),
    {
        if i >= CELLS {
            return;
        }
        let x: u32 = (i % (WIDTH as usize)) as u32;
        let y: u32 = (i / (WIDTH as usize)) as u32;
        if 0 == x || x >= WIDTH - 1 || y >= HEIGHT - 1 {
            return;
        }
        let mut to_go: Option<(u32, u32)> = None;
        if self.get(x, y + 1) == Particle::Empty {
            to_go = Some((x, y + 1));
        } else if self.get(x - 1, y + 1) == Particle::Empty {
            to_go = Some((x - 1, y + 1));
        } else if self.get(x + 1, y + 1) == Particle::Empty {
            to_go = Some((x + 1, y + 1));
        }
        if let Some(p) = to_go {
            assert(landing(old(self)@.cells, i as int) == Some(cell(p.0 as int, p.1 as int)));
            self.set(x, y, Particle::Empty);
            self.set(p.0, p.1, Particle::Sand);
            self.deactivate(x, y);
            self.activate(p.0, p.1);
        }
    }

    /// Lets gravity look at the cells of `order`, first to last, each as
    /// `fall` does.
    pub fn fall_in_order(&mut self, order: &[usize])
        requires
            old(self)@.wf(),
        ensures
            final(self)@ == run(old(self)@, indices(order@)),
            final(self)@.wf(),
    {
        let ghost whole = indices(order@);
        let mut n: usize = 0;
        assert(whole.take(0) =~= Seq::<int>::empty());
        while n < order.len()
            invariant
                n <= order.len(),
                whole == indices(order@),
                self@ == run(old(self)@, whole.take(n as int)),
                self@.wf(),
            decreases order.len() - n,
        {
            self.fall(order[n]);
            proof {
                let next = whole.take(n + 1);
                assert(next.drop_last() =~= whole.take(n as int));
                assert(next.last() == order@[n as int] as int);
            }
            n += 1;
        }
        assert(whole.take(n as int) =~= whole);
    }

    /// One tick of the simulation: gravity looks once at every cell that was
    /// active when the tick began, in an order that is not specified. Cells
    /// that become active during the tick wait for the next one.
    pub fn update(&mut self)
        requires
            old(self)@.wf(),
        ensures
            ticks_to(old(self)@, final(self)@),
            old(self)@.active == Set::<int>::empty() ==> final(self)@ == old(self)@,
            old(self)@.tracks_sand() ==> final(self)@.tracks_sand(),
            old(self)@.active_is_sand() ==> final(self)@.active_is_sand(),
            final(self)@.wf(),
    {
        let order = self.snapshot();
        self.fall_in_order(order.as_slice());
        proof {
            if old(self)@.active == Set::<int>::empty() {
                idle_tick_changes_nothing(old(self)@, self@);
            }
            if old(self)@.tracks_sand() {
                tick_keeps_sand_tracked(old(self)@, self@);
            }
            if old(self)@.active_is_sand() {
                tick_keeps_active_sand(old(self)@, self@);
            }
        }
    }

    /// Paints a square of `particle` centred on cell `(mx, my)` with the
    /// current radius. Cells painted with sand join the active set; painting
    /// anything else leaves the active set as it is, also where it paints
    /// over sand.
    pub fn add(&mut self, mx: u32, my: u32, particle: Particle)
        requires
            old(self)@.wf(),
        ensures
            final(self)@ == paint(old(self)@, mx as int, my as int, particle),
            old(self)@.radius == 0 ==> final(self)@ == old(self)@,
            old(self)@.tracks_sand() ==> final(self)@.tracks_sand(),
            final(self)@.wf(),
    {
        let lower_x: u32 = if mx < self.radius {
            0
        } else {
            mx - self.radius
        };
        let upper_x: u32 = if mx as u64 + self.radius as u64 >= WIDTH as u64 {
            WIDTH - 1
        } else {
            mx + self.radius
        };
        let lower_y: u32 = if my < self.radius {
            0
        } else {
            my - self.radius
        };
        let upper_y: u32 = if my as u64 + self.radius as u64 >= HEIGHT as u64 {
            HEIGHT - 1
        } else {
            my + self.radius
        };
        let ghost before = self@;
        let ghost lx = lower_x as int;
        let ghost ly = lower_y as int;
        let ghost uy = upper_y as int;
        proof {
            let start = swept_state(before, particle, lx, ly, uy, lx, ly);
            assert(self@.cells =~= start.cells);
            assert(self@.active =~= start.active);
        }
        let mut x: u32 = lower_x;
        while x < upper_x
            invariant
                before.wf(),
                lx == lower_x && ly == lower_y && uy == upper_y,
                lower_x <= x,
                x <= upper_x || x == lower_x,
                upper_x < WIDTH,
                upper_y < HEIGHT,
                self@ == swept_state(before, particle, lx, ly, uy, x as int, ly),
                self@.wf(),
            decreases upper_x - x,
        {
            let mut y: u32 = lower_y;
            while y < upper_y
                invariant
                    before.wf(),
                    lx == lower_x && ly == lower_y && uy == upper_y,
                    lower_x <= x < upper_x,
                    lower_y <= y,
                    y <= upper_y || y == lower_y,
                    upper_x < WIDTH,
                    upper_y < HEIGHT,
                    self@ == swept_state(before, particle, lx, ly, uy, x as int, y as int),
                    self@.wf(),
                decreases upper_y - y,
            {
                self.set(x, y, particle);
                if particle == Particle::Sand {
                    self.activate(x, y);
                }
                proof {
                    let next = swept_state(before, particle, lx, ly, uy, x as int, y as int + 1);
                    assert(self@.cells =~= next.cells);
                    assert(self@.active =~= next.active);
                }
                y += 1;
            }
            proof {
                let next = swept_state(before, particle, lx, ly, uy, x as int + 1, ly);
                assert(self@.cells =~= next.cells);
                assert(self@.active =~= next.active);
            }
            x += 1;
        }
        proof {
            let done = paint(before, mx as int, my as int, particle);
            assert(self@.cells =~= done.cells);
            assert(self@.active =~= done.active);
            if before.radius == 0 {
                zero_radius_paints_nothing(before, mx as int, my as int, particle);
            }
            if before.tracks_sand() {
                paint_keeps_sand_tracked(before, mx as int, my as int, particle);
            }
        }
    }

    /// The cell under the display pixel `(x, y)`.
    pub fn px_to_grid(x: u32, y: u32) -> (at: (u32, u32))
        ensures
            at.0 == x / SCALE,
            at.1 == y / SCALE,
    {
        (x / SCALE, y / SCALE)
    }

    /// The current brush radius.
    pub fn radius(&self) -> (r: u32)
        ensures
            r == self@.radius,
    {
        self.radius
    }

    /// Whether cell `(x, y)` is in the active set.
    pub fn is_active(&self, x: u32, y: u32) -> (active: bool)
        requires
            self@.wf(),
            in_grid(x as int, y as int),
        ensures
            active == self@.is_active(x as int, y as int),
    {
        let i: usize = (y * WIDTH + x) as usize;
        self.movable.contains(&i)
    }

    /// Applies one frame's input: where the pointer is inside the window and
    /// a button is held, a stroke of the selected particle under the pointer;
    /// then the scroll steps are added to the radius, which stays within
    /// `0..=u32::MAX`.
    pub fn input(&mut self, input: &InputSnapshot)
        requires
            old(self)@.wf(),
        ensures
            final(self)@ == after_input(old(self)@, *input),
            old(self)@.tracks_sand() ==> final(self)@.tracks_sand(),
            final(self)@.wf(),
    {
        proof {
            if old(self)@.tracks_sand() {
                input_keeps_sand_tracked(old(self)@, *input);
            }
        }
        if let Some((mx, my)) = input.pointer {
            let (x, y) = Self::px_to_grid(mx, my);
            if input.sand {
                self.add(x, y, Particle::Sand);
            } else if input.obstacle {
                self.add(x, y, Particle::Static);
            } else if input.erase {
                self.add(x, y, Particle::Empty);
            }
        }
        let ghost stroked = self@;
        let sum: i64 = self.radius as i64 + input.scroll as i64;
        self.radius = if sum < 0 {
            0
        } else if sum > u32::MAX as i64 {
            u32::MAX
        } else {
            sum as u32
        };
        assert(self@.active == stroked.active);
    }

    /// What to do once the host has learnt what the user did this frame:
    /// leave, with the world untouched, if the user asked to; otherwise apply
    /// the input and go on.
    pub fn on_input(&mut self, input: &InputSnapshot) -> (flow: Flow)
        requires
            old(self)@.wf(),
        ensures
            input.exit_requested ==> flow == Flow::Exit && final(self)@ == old(self)@,
            !input.exit_requested ==> flow == Flow::Continue && final(self)@ == after_input(
                old(self)@,
                *input,
            ),
            old(self)@.tracks_sand() ==> final(self)@.tracks_sand(),
            final(self)@.wf(),
    {
        if input.exit_requested {
            Flow::Exit
        } else {
            self.input(input);
            Flow::Continue
        }
    }

    /// What to do once the host has tried to show the frame: if that failed,
    /// stop with the world untouched; otherwise run one tick and go on.
    pub fn after_present(&mut self, shown: bool) -> (flow: Flow)
        requires
            old(self)@.wf(),
        ensures
            shown ==> flow == Flow::Continue && ticks_to(old(self)@, final(self)@),
            !shown ==> flow == Flow::Exit && final(self)@ == old(self)@,
            old(self)@.tracks_sand() ==> final(self)@.tracks_sand(),
            final(self)@.wf(),
    {
        if shown {
            self.update();
            Flow::Continue
        } else {
            Flow::Exit
        }
    }

    /// Writes the picture of the grid into `frame`: four bytes per cell, in
    /// the order of the cells.
    pub fn draw(&self, frame: &mut [u8])
        requires
            self@.wf(),
            old(frame)@.len() == 4 * CELLS,
        ensures
            final(frame)@ == frame_of(self@.cells),
    {
        let mut i: usize = 0;
        while i < CELLS
            invariant
                i <= CELLS,
                self@.wf(),
                frame@.len() == 4 * CELLS,
                forall|k: int| 0 <= k < 4 * i ==> frame@[k] == frame_of(self@.cells)[k],
            decreases CELLS - i,
        {
            let color = self.grid[i].color();
            frame[i * 4] = color[0];
            frame[i * 4 + 1] = color[1];
            frame[i * 4 + 2] = color[2];
            frame[i * 4 + 3] = OPAQUE;
            i += 1;
        }
        assert(frame@ =~= frame_of(self@.cells));
    }
}

/// Whether the stroke over columns from `lx` and rows `ly..uy` has reached
/// cell `i` when it stands at column `x`, row `y`: the columns before `x` are
/// done, and of column `x` the rows before `y`.
spec fn swept(lx: int, ly: int, uy: int, x: int, y: int, i: int) -> bool {
    &&& 0 <= i
    &&& lx <= column(i)
    &&& ly <= row(i)
    &&& (column(i) < x && row(i) < uy) || (column(i) == x && row(i) < y)
}

/// The state when the stroke of `p` stands at column `x`, row `y`.
spec fn swept_state(s: State, p: Particle, lx: int, ly: int, uy: int, x: int, y: int) -> State {
    State {
        cells: Seq::new(
            s.cells.len(),
            |i: int| if swept(lx, ly, uy, x, y, i) { p } else { s.cells[i] },
        ),
        active: if p == Particle::Sand {
            s.active.union(Set::new(|i: int| swept(lx, ly, uy, x, y, i)))
        } else {
            s.active
        },
        radius: s.radius,
    }
}

} // verus!

//! The brush: the square region that one stroke covers, what painting it does
//! to the state, and how one frame's input turns into a stroke and a new
//! radius.

use crate::particle::Particle;
use crate::state::{column, row, State, HEIGHT, SCALE, WIDTH};
use vstd::math::{max, min};
use vstd::prelude::*;

verus! {

/// What the host saw of the user during one frame.
#[derive(Clone, Copy, Debug, PartialEq, Eq)]
pub struct InputSnapshot {
    /// Pointer position in display pixels, or `None` while the pointer is
    /// outside the window.
    pub pointer: Option<(u32, u32)>,
    /// The button that paints sand is held.
    pub sand: bool,
    /// The button that paints obstacles is held.
    pub obstacle: bool,
    /// The button that erases is held.
    pub erase: bool,
    /// Whole scroll steps since the last frame; positive steps widen the brush.
    pub scroll: i32,
    /// The user asked to leave, by key or by closing the window.
    pub exit_requested: bool,
}

/// Whether the simulation goes on after an event.
#[derive(Clone, Copy, Debug, PartialEq, Eq, Structural)]
pub enum Flow {
    /// Keep producing frames.
    Continue,
    /// Stop: produce no further frame.
    Exit,
}

/// Whether a stroke of radius `r` centred on cell `(mx, my)` covers cell
/// `(x, y)`. The region is `[max(0, mx - r), min(WIDTH - 1, mx + r))` by
/// `[max(0, my - r), min(HEIGHT - 1, my + r))`: the upper bounds are excluded,
/// so a radius of 0 covers nothing and the last column and row are never
/// covered.
pub open spec fn in_brush(r: int, mx: int, my: int, x: int, y: int) -> bool {
    &&& max(0, mx - r) <= x < min(WIDTH - 1, mx + r)
    &&& max(0, my - r) <= y < min(HEIGHT - 1, my + r)
}

/// Whether that stroke covers the cell with index `i`.
pub open spec fn covers(r: int, mx: int, my: int, i: int) -> bool {
    0 <= i && in_brush(r, mx, my, column(i), row(i))
}

/// The state after a stroke of `p` centred on cell `(mx, my)` with the state's
/// radius: every covered cell holds `p`; if `p` is sand the covered cells join
/// the active set; painting anything else leaves the active set as it is.
pub open spec fn paint(s: State, mx: int, my: int, p: Particle) -> State {
    State {
        cells: Seq::new(
            s.cells.len(),
            |i: int| if covers(s.radius as int, mx, my, i) { p } else { s.cells[i] },
        ),
        active: if p == Particle::Sand {
            s.active.union(Set::new(|i: int| covers(s.radius as int, mx, my, i)))
        } else {
            s.active
        },
        radius: s.radius,
    }
}

/// The particle that the held buttons select: sand before obstacle before
/// erase, and none if no button is held.
pub open spec fn selected(input: InputSnapshot) -> Option<Particle> {
    if input.sand {
        Some(Particle::Sand)
    } else if input.obstacle {
        Some(Particle::Static)
    } else if input.erase {
        Some(Particle::Empty)
    } else {
        None
    }
}

/// The radius after `steps` scroll steps: the sum, but never below 0 and
/// never above what 32 bits hold.
pub open spec fn scrolled(radius: nat, steps: int) -> nat {
    max(0, min(u32::MAX as int, radius + steps)) as nat
}

/// The state after one frame's input: a stroke with the old radius where the
/// pointer is inside the window and a button is held, then the scroll steps
/// applied to the radius.
pub open spec fn after_input(s: State, input: InputSnapshot) -> State {
    let stroked = match (input.pointer, selected(input)) {
        (Some(at), Some(p)) => paint(s, at.0 as int / SCALE as int, at.1 as int / SCALE as int, p),
        _ => s,
    };
    State { radius: scrolled(s.radius, input.scroll as int), ..stroked }
}

} // verus!

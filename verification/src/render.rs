//! The picture of a grid: four bytes per cell, in the order of the cells.

use crate::particle::{color_of, Particle};
use vstd::prelude::*;

verus! {

/// The alpha byte of every pixel: fully opaque.
pub const OPAQUE: u8 = 255;

/// The frame that shows `cells`: for each cell, in order, the red, green and
/// blue channels of its particle and then `OPAQUE`.
pub open spec fn frame_of(cells: Seq<Particle>) -> Seq<u8> {
    Seq::new(
        4 * cells.len(),
        |k: int| if k % 4 == 3 { OPAQUE } else { color_of(cells[k / 4])[k % 4] },
    )
}

} // verus!

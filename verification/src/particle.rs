//! The kinds of matter a cell can hold, and how each is shown.

use vstd::prelude::*;

verus! {

/// What occupies one cell of the grid.
#[derive(Clone, Copy, Debug, PartialEq, Eq, Structural)]
pub enum Particle {
    /// Nothing: a moving grain may enter the cell.
    Empty,
    /// An obstacle that never moves.
    Static,
    /// A grain that falls.
    Sand,
}

/// The red, green and blue channels in which a particle is shown.
pub open spec fn color_of(p: Particle) -> Seq<u8> {
    match p {
        Particle::Empty => seq![92u8, 208u8, 224u8],
        Particle::Static => seq![99u8, 78u8, 28u8],
        Particle::Sand => seq![234u8, 195u8, 103u8],
    }
}

impl Particle {
    /// The display colour of this particle, as `[red, green, blue]`.
    pub fn color(&self) -> (rgb: [u8; 3])
        ensures
            rgb@ == color_of(*self),
    {
        let rgb: [u8; 3] = match self {
            Particle::Empty => [92u8, 208u8, 224u8],
            Particle::Static => [99u8, 78u8, 28u8],
            Particle::Sand => [234u8, 195u8, 103u8],
        };
        assert(rgb@ =~= color_of(*self));
        rgb
    }
}

} // verus!

//! Sets that group an application's systems around the pixel buffer.

use vstd::prelude::*;

verus! {

/// The sets that an application's systems are sorted into.
#[derive(Debug, Hash, PartialEq, Eq, Clone)]
pub enum PixelsSet {
    /// For simulation logic ahead of drawing.
    Update,
    /// For logic that draws to the buffer.
    Draw,
    /// For presenting the buffer on the surface.
    Render,
}

} // verus!

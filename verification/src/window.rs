//! What the library reads of a host window.

use crate::scalar::Scalar;
use vstd::prelude::*;

verus! {

/// A width and a height in whole pixels.
#[derive(Debug, Copy, Clone, PartialEq, Eq, Structural)]
pub struct Extent {
    pub width: u32,
    pub height: u32,
}

impl Extent {
    /// Whether neither dimension is zero.
    pub open spec fn positive(self) -> bool {
        self.width > 0 && self.height > 0
    }

    /// Whether neither dimension is zero.
    pub fn is_positive(&self) -> (b: bool)
        ensures
            b == self.positive(),
    {
        self.width > 0 && self.height > 0
    }
}

/// How presentation is paced against the display's refresh.
#[derive(Debug, Copy, Clone, PartialEq, Eq, Structural)]
pub enum PresentMode {
    AutoVsync,
    AutoNoVsync,
    Fifo,
    FifoRelaxed,
    Immediate,
    Mailbox,
}

/// A host window at one moment, as far as the library reads it.
#[derive(Debug, Copy, Clone, PartialEq, Eq, Structural)]
pub struct Window {
    /// Width of the client area in logical pixels.
    pub width: Scalar,
    /// Height of the client area in logical pixels.
    pub height: Scalar,
    /// Width of the client area in physical pixels.
    pub physical_width: u32,
    /// Height of the client area in physical pixels.
    pub physical_height: u32,
    /// The pacing that the window asks for.
    pub present_mode: PresentMode,
}

impl Window {
    /// The client area in physical pixels.
    pub open spec fn physical_size(self) -> Extent {
        Extent { width: self.physical_width, height: self.physical_height }
    }
}

} // verus!

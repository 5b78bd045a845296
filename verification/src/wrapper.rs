//! The library's record of one window's pixel buffer.

use crate::window::Extent;
use crate::window::PresentMode;
use vstd::prelude::*;

verus! {

/// What is known of the pixel buffer that belongs to one window: the sizes
/// that the display library has last taken, and the pacing it was built with.
///
/// The buffer itself lives with the display library. Every request for a new
/// size is made there by the application, which reports back whether the
/// request was taken; the record follows only requests that were.
#[derive(Debug, Copy, Clone, PartialEq, Eq, Structural)]
pub struct PixelsWrapper {
    /// Size of the pixel buffer.
    pub buffer: Extent,
    /// Size of the surface that the buffer is presented on.
    pub surface: Extent,
    /// Pacing of the presentation.
    pub present_mode: PresentMode,
}

impl PixelsWrapper {
    /// A buffer and a surface each have a width and a height above zero.
    pub open spec fn wf(self) -> bool {
        self.buffer.positive() && self.surface.positive()
    }

    /// The record after a request for the surface size `size`, which the
    /// display library took or refused. A size with a zero dimension is
    /// never taken.
    pub open spec fn with_surface(self, size: Extent, accepted: bool) -> PixelsWrapper {
        if accepted && size.positive() {
            PixelsWrapper { surface: size, ..self }
        } else {
            self
        }
    }

    /// The record after a request for the buffer size `size`, which the
    /// display library took or refused. A size with a zero dimension is
    /// never taken.
    pub open spec fn with_buffer(self, size: Extent, accepted: bool) -> PixelsWrapper {
        if accepted && size.positive() {
            PixelsWrapper { buffer: size, ..self }
        } else {
            self
        }
    }

    /// The record after an optional surface request and its outcome.
    pub open spec fn after_surface_request(
        self,
        request: Option<Extent>,
        accepted: bool,
    ) -> PixelsWrapper {
        match request {
            Some(size) => self.with_surface(size, accepted),
            None => self,
        }
    }

    /// The record after an optional buffer request and its outcome.
    pub open spec fn after_buffer_request(
        self,
        request: Option<Extent>,
        accepted: bool,
    ) -> PixelsWrapper {
        match request {
            Some(size) => self.with_buffer(size, accepted),
            None => self,
        }
    }

    /// Records the outcome of a request to resize the surface to `size`.
    ///
    /// A refused request leaves the record as it was: a missed resize is
    /// made good by the next one.
    pub fn resize_surface(&mut self, size: Extent, accepted: bool)
        ensures
            *final(self) == old(self).with_surface(size, accepted),
            old(self).wf() ==> final(self).wf(),
    {
        if accepted && size.is_positive() {
            self.surface = size;
        }
    }

    /// Records the outcome of a request to resize the buffer to `size`.
    ///
    /// A refused request leaves the record as it was.
    pub fn resize_buffer(&mut self, size: Extent, accepted: bool)
        ensures
            *final(self) == old(self).with_buffer(size, accepted),
            old(self).wf() ==> final(self).wf(),
    {
        if accepted && size.is_positive() {
            self.buffer = size;
        }
    }
}

} // verus!

//! Sizing and behaviour of one window's pixel buffer.

use crate::scalar::Scalar;
use crate::scalar::ONE_BITS;
use crate::window::Window;
use vstd::prelude::*;

verus! {

/// Defines the sizing and behaviour of the pixel buffer and of the surface
/// it is presented on.
#[derive(Debug, Copy, Clone, PartialEq, Eq, Structural)]
pub struct PixelsOptions {
    /// Width of the pixel buffer.
    pub width: u32,
    /// Height of the pixel buffer.
    pub height: u32,
    /// Scale factor between logical window size and buffer size. Only used
    /// when `auto_resize_buffer` is enabled.
    pub scale_factor: Scalar,
    /// Should the buffer automatically be resized when the window changes?
    pub auto_resize_buffer: bool,
    /// Should the surface automatically be resized when the window changes?
    pub auto_resize_surface: bool,
}

impl PixelsOptions {
    /// The options that a window starts with unless told otherwise: a buffer
    /// of 1280 by 720 at scale one, with buffer and surface both following
    /// the window.
    pub open spec fn initial() -> PixelsOptions {
        PixelsOptions {
            width: 1280,
            height: 720,
            scale_factor: Scalar::one(),
            auto_resize_buffer: true,
            auto_resize_surface: true,
        }
    }

    /// The options once they have taken in the size of `window`.
    ///
    /// With `auto_resize_buffer` the buffer gets as many pixels each way as
    /// whole multiples of the scale factor fit in the window's logical size.
    /// Without it nothing changes.
    pub open spec fn fitted(self, window: Window) -> PixelsOptions {
        if self.auto_resize_buffer {
            PixelsOptions {
                width: window.width.floor_quotient(self.scale_factor) as u32,
                height: window.height.floor_quotient(self.scale_factor) as u32,
                ..self
            }
        } else {
            self
        }
    }
}

impl Default for PixelsOptions {
    fn default() -> (options: Self)
        ensures
            options == PixelsOptions::initial(),
    {
        PixelsOptions {
            width: 1280,
            height: 720,
            scale_factor: Scalar::from_bits(ONE_BITS),
            auto_resize_buffer: true,
            auto_resize_surface: true,
        }
    }
}

} // verus!

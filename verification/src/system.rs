//! The decisions taken for one window: when its pixel buffer is created, and
//! what a change of the window asks of the display library.
//!
//! Nothing here touches a window or a display. Each function takes what the
//! application has read and returns what the application is to ask for; the
//! application makes the request and reports the outcome to the window's
//! [`PixelsWrapper`].

use crate::options::PixelsOptions;
use crate::scalar::lemma_floor_quotient_exact;
use crate::window::Extent;
use crate::window::Window;
use crate::wrapper::PixelsWrapper;
use vstd::prelude::*;

verus! {

/// What a resize of the window leads to.
#[derive(Debug, Copy, Clone, PartialEq, Eq, Structural)]
pub struct Resized {
    /// Whether the options were written to, which is the case whenever the
    /// buffer follows the window, also where the size came out the same.
    pub options_written: bool,
    /// The size to ask for the surface, if it is to be resized.
    pub surface: Option<Extent>,
}

/// Why a pixel buffer that is due cannot be made.
#[derive(Debug, Copy, Clone, PartialEq, Eq, Structural)]
pub enum CreateError {
    /// The windowing backend knows no window for the entity.
    NoBackendWindow,
    /// The surface would have a zero dimension.
    EmptySurface,
    /// The buffer would have a zero dimension.
    EmptyBuffer,
}

/// What is to happen about the pixel buffer of a window that carries
/// options.
#[derive(Debug, Copy, Clone, PartialEq, Eq, Structural)]
pub enum Creation {
    /// Nothing: the window has no native handle yet, or has its buffer
    /// already.
    Skip,
    /// The buffer is due and cannot be made. There is no recovery from this.
    Fail(CreateError),
    /// The buffer is to be built as described.
    Build(PixelsWrapper),
}

/// The decision of [`create_pixels`].
///
/// A window gets one buffer, once its native handle is there. The buffer has
/// the size that the options name, the surface has the inner size that the
/// backend reports, and the pacing is the window's.
pub open spec fn creation(
    options: PixelsOptions,
    window: Window,
    inner_size: Option<Extent>,
    has_handle: bool,
    has_wrapper: bool,
) -> Creation {
    let buffer = Extent { width: options.width, height: options.height };
    if !has_handle || has_wrapper {
        Creation::Skip
    } else {
        match inner_size {
            None => Creation::Fail(CreateError::NoBackendWindow),
            Some(surface) => if !surface.positive() {
                Creation::Fail(CreateError::EmptySurface)
            } else if !buffer.positive() {
                Creation::Fail(CreateError::EmptyBuffer)
            } else {
                Creation::Build(
                    PixelsWrapper { buffer, surface, present_mode: window.present_mode },
                )
            },
        }
    }
}

/// The surface size that a change of `window` asks for: the window's
/// physical size where the surface follows the window, none where it does
/// not.
pub open spec fn surface_request(options: PixelsOptions, window: Window) -> Option<Extent> {
    if options.auto_resize_surface {
        Some(window.physical_size())
    } else {
        None
    }
}

/// The buffer size that changed options ask for: the size they hold where
/// the buffer follows the window, none where it does not.
pub open spec fn buffer_request(options: PixelsOptions) -> Option<Extent> {
    if options.auto_resize_buffer {
        Some(Extent { width: options.width, height: options.height })
    } else {
        None
    }
}

/// Decides whether a window that carries options gets its pixel buffer
/// now, and which.
///
/// `has_handle` says whether the window's native handle is there,
/// `has_wrapper` whether the window has its buffer already, and `inner_size`
/// is the size of the window's client area in physical pixels as the
/// windowing backend reports it, or `None` where the backend knows no such
/// window.
pub fn create_pixels(
    options: &PixelsOptions,
    window: &Window,
    inner_size: Option<Extent>,
    has_handle: bool,
    has_wrapper: bool,
) -> (decision: Creation)
    ensures
        decision == creation(*options, *window, inner_size, has_handle, has_wrapper),
        decision is Skip <==> !has_handle || has_wrapper,
        decision matches Creation::Build(wrapper) ==> wrapper.wf(),
{
    if !has_handle || has_wrapper {
        return Creation::Skip;
    }
    let buffer = Extent { width: options.width, height: options.height };
    match inner_size {
        None => Creation::Fail(CreateError::NoBackendWindow),
        Some(surface) => {
            if !surface.is_positive() {
                Creation::Fail(CreateError::EmptySurface)
            } else if !buffer.is_positive() {
                Creation::Fail(CreateError::EmptyBuffer)
            } else {
                Creation::Build(
                    PixelsWrapper { buffer, surface, present_mode: window.present_mode },
                )
            }
        },
    }
}

/// Takes in a resize of the window.
///
/// Where the buffer follows the window, the options get the buffer size that
/// fits the window's logical size at the scale factor. Where the surface
/// follows the window, its physical size is to be asked for the surface.
pub fn window_resize(options: &mut PixelsOptions, window: &Window) -> (resized: Resized)
    ensures
        *final(options) == old(options).fitted(*window),
        resized.options_written == old(options).auto_resize_buffer,
        resized.surface == surface_request(*old(options), *window),
{
    let options_written = options.auto_resize_buffer;
    if options_written {
        options.width = window.width.div_floor(options.scale_factor);
        options.height = window.height.div_floor(options.scale_factor);
    }
    let surface = if options.auto_resize_surface {
        Some(resize_surface_to_window(window))
    } else {
        None
    };
    Resized { options_written, surface }
}

/// Takes in a change of the scale factor that the window's backend reports.
///
/// Where the surface follows the window, the window's physical size is to be
/// asked for the surface. The options are not touched.
pub fn window_change(options: &PixelsOptions, window: &Window) -> (surface: Option<Extent>)
    ensures
        surface == surface_request(*options, *window),
{
    if options.auto_resize_surface {
        Some(resize_surface_to_window(window))
    } else {
        None
    }
}

/// The size that a surface has when it covers the window.
fn resize_surface_to_window(window: &Window) -> (size: Extent)
    ensures
        size == window.physical_size(),
{
    Extent { width: window.physical_width, height: window.physical_height }
}

/// Takes in options that were written to.
///
/// Where the buffer follows the window, the size that the options hold is to
/// be asked for the buffer.
pub fn resize_buffer(options: &PixelsOptions) -> (buffer: Option<Extent>)
    ensures
        buffer == buffer_request(*options),
{
    if options.auto_resize_buffer {
        Some(Extent { width: options.width, height: options.height })
    } else {
        None
    }
}

/// The options and the record once a resize of the window has been taken
/// in: by [`window_resize`], then by [`resize_buffer`] on the options it
/// left, with each request's outcome recorded.
pub open spec fn after_window_resize(
    options: PixelsOptions,
    wrapper: PixelsWrapper,
    window: Window,
    surface_accepted: bool,
    buffer_accepted: bool,
) -> (PixelsOptions, PixelsWrapper) {
    let fitted = options.fitted(window);
    (
        fitted,
        wrapper.after_surface_request(
            surface_request(options, window),
            surface_accepted,
        ).after_buffer_request(buffer_request(fitted), buffer_accepted),
    )
}

/// The options and the record once a change of scale factor has been taken
/// in by [`window_change`], with the request's outcome recorded.
pub open spec fn after_window_change(
    options: PixelsOptions,
    wrapper: PixelsWrapper,
    window: Window,
    surface_accepted: bool,
) -> (PixelsOptions, PixelsWrapper) {
    (options, wrapper.after_surface_request(surface_request(options, window), surface_accepted))
}

/// Where the buffer follows the window, a resize of a window of positive
/// logical size, at a positive scale factor, gives the buffer the size
/// `floor(width / scale)` by `floor(height / scale)`, as long as both fit
/// in a `u32`: the options hold that size, it is the size asked for, and
/// once taken it is the size on record.
pub proof fn lemma_buffer_follows_window(
    options: PixelsOptions,
    wrapper: PixelsWrapper,
    window: Window,
    surface_accepted: bool,
)
    requires
        options.auto_resize_buffer,
        options.scale_factor.positive(),
        window.width.positive(),
        window.height.positive(),
        window.width.ratio_floor(options.scale_factor) <= u32::MAX,
        window.height.ratio_floor(options.scale_factor) <= u32::MAX,
    ensures
        ({
            let (fitted, record) = after_window_resize(
                options,
                wrapper,
                window,
                surface_accepted,
                true,
            );
            let size = Extent { width: fitted.width, height: fitted.height };
            &&& fitted.width == window.width.ratio_floor(options.scale_factor)
            &&& fitted.height == window.height.ratio_floor(options.scale_factor)
            &&& window.width.has_whole_part(options.scale_factor, fitted.width as nat)
            &&& window.height.has_whole_part(options.scale_factor, fitted.height as nat)
            &&& buffer_request(fitted) == Some(size)
            &&& size.positive() ==> record.buffer == size
        }),
{
    lemma_floor_quotient_exact(window.width, options.scale_factor);
    lemma_floor_quotient_exact(window.height, options.scale_factor);
}

/// Where the buffer does not follow the window, no resize of the window
/// changes the buffer's size: the options stay as they are, nothing is asked
/// for the buffer, and the size on record stays.
pub proof fn lemma_fixed_buffer_stays(
    options: PixelsOptions,
    wrapper: PixelsWrapper,
    window: Window,
    surface_accepted: bool,
    buffer_accepted: bool,
)
    requires
        !options.auto_resize_buffer,
    ensures
        ({
            let (fitted, record) = after_window_resize(
                options,
                wrapper,
                window,
                surface_accepted,
                buffer_accepted,
            );
            &&& fitted == options
            &&& buffer_request(fitted) is None
            &&& record.buffer == wrapper.buffer
        }),
{
}

/// Where the surface does not follow the window, no change of scale factor
/// and no resize of the window changes the surface's size: nothing is asked
/// for the surface, and the size on record stays.
pub proof fn lemma_fixed_surface_stays(
    options: PixelsOptions,
    wrapper: PixelsWrapper,
    window: Window,
    surface_accepted: bool,
    buffer_accepted: bool,
)
    requires
        !options.auto_resize_surface,
    ensures
        surface_request(options, window) is None,
        after_window_change(options, wrapper, window, surface_accepted) == (options, wrapper),
        after_window_resize(
            options,
            wrapper,
            window,
            surface_accepted,
            buffer_accepted,
        ).1.surface == wrapper.surface,
{
}

/// Where the surface follows the window, a change of scale factor asks for
/// the window's physical size as the surface size. Once taken that is the
/// size on record. The options and the buffer's size are not touched.
pub proof fn lemma_surface_follows_window(
    options: PixelsOptions,
    wrapper: PixelsWrapper,
    window: Window,
    surface_accepted: bool,
)
    requires
        options.auto_resize_surface,
    ensures
        ({
            let (same, record) = after_window_change(options, wrapper, window, surface_accepted);
            &&& surface_request(options, window) == Some(window.physical_size())
            &&& same == options
            &&& record.buffer == wrapper.buffer
            &&& record.present_mode == wrapper.present_mode
            &&& surface_accepted && window.physical_size().positive() ==> record.surface
                == window.physical_size()
            &&& !(surface_accepted && window.physical_size().positive()) ==> record.surface
                == wrapper.surface
        }),
{
}

/// Taking in the same resize twice, with the same outcomes, leaves what
/// taking it in once leaves.
pub proof fn lemma_window_resize_idempotent(
    options: PixelsOptions,
    wrapper: PixelsWrapper,
    window: Window,
    surface_accepted: bool,
    buffer_accepted: bool,
)
    ensures
        ({
            let once = after_window_resize(
                options,
                wrapper,
                window,
                surface_accepted,
                buffer_accepted,
            );
            let twice = after_window_resize(
                once.0,
                once.1,
                window,
                surface_accepted,
                buffer_accepted,
            );
            &&& twice == once
            &&& surface_request(once.0, window) == surface_request(options, window)
            &&& buffer_request(once.0.fitted(window)) == buffer_request(once.0)
        }),
{
}

/// Taking in the same change of scale factor twice, with the same outcome,
/// leaves what taking it in once leaves.
pub proof fn lemma_window_change_idempotent(
    options: PixelsOptions,
    wrapper: PixelsWrapper,
    window: Window,
    surface_accepted: bool,
)
    ensures
        ({
            let once = after_window_change(options, wrapper, window, surface_accepted);
            after_window_change(once.0, once.1, window, surface_accepted) == once
        }),
{
}

/// A record that holds positive sizes holds positive sizes after any resize
/// or change of scale factor, whatever the outcomes.
pub proof fn lemma_sizes_stay_positive(
    options: PixelsOptions,
    wrapper: PixelsWrapper,
    window: Window,
    surface_accepted: bool,
    buffer_accepted: bool,
)
    requires
        wrapper.wf(),
    ensures
        after_window_resize(options, wrapper, window, surface_accepted, buffer_accepted).1.wf(),
        after_window_change(options, wrapper, window, surface_accepted).1.wf(),
{
}

} // verus!

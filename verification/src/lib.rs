//! Keeps a software pixel buffer and its presentation surface in step with the
//! window that shows them.

pub mod options;
pub mod plugin;
pub mod scalar;
pub mod schedule;
pub mod system;
pub mod system_set;
pub mod window;
pub mod wrapper;

pub use options::PixelsOptions;
pub use plugin::{Insertion, Phase, PixelsPlugin, Placement, Setup, System};
pub use scalar::Scalar;
pub use schedule::{Draw, Render, Schedule};
pub use system::{
    create_pixels, resize_buffer, window_change, window_resize, CreateError, Creation, Resized,
};
pub use system_set::PixelsSet;
pub use window::{Extent, PresentMode, Window};
pub use wrapper::PixelsWrapper;

//! Gray and RGB pixel formats.

pub mod convert;
pub mod gray;
pub mod rgb;

pub use gray::Gray;
pub use rgb::{Bgr, Bgra, Rgb, Rgba};

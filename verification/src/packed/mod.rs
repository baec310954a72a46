//! Images whose pixels lie next to each other in one buffer.

pub mod buffer;
pub mod convert;
pub mod dynamic;
pub mod generic;
pub mod image;
pub mod iter;
pub mod matrix;
pub mod subimage;

pub use buffer::{Buffer, BufferMut};
pub use image::{Image, ImageBuffer, ImageView, ImageViewMut};
pub use matrix::Matrix;
pub use subimage::SubImageView;

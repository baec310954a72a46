//! YUV pixel formats.

pub mod yuv;
pub mod yuv420;
pub mod yuv422;

pub use yuv::Yuv;
pub use yuv420::Yuv420p;
pub use yuv422::{Uyvy, Yuv422, Yuyv};

//! Typed pixel grids over raw channel buffers, and conversion between pixel formats.
//!
//! An image is a rectangular grid of pixels laid over a flat buffer of channel values that may
//! belong to somebody else: a camera driver, a decoder, a frame grabber. The crate validates the
//! layout once, when the image is made, and then reads and writes pixels of a fixed format
//! through it. Pixels of one format are turned into pixels of another by rules that are pure
//! functions of the channel values.
//!
//! # Overview
//!
//! * [`storage`] has the numeric types that channel values are stored in.
//! * [`traits`] has what pixels and images share: [`traits::Pixel`], the rules between pixel
//!   formats ([`traits::FromPixel`], [`traits::MapPixels`]), the access to the pixels of an
//!   image ([`traits::GenericImageView`], [`traits::GenericImage`]) and the conversion of whole
//!   images ([`traits::Convert`], [`traits::TryConvert`]).
//! * [`color`] and [`yuv`] have the pixel formats and their rules.
//! * [`packed`] has the images: the row-major layout, images over buffers that are borrowed or
//!   owned, images with strides in bytes, and images whose storage type is known only when the
//!   program runs.
//! * [`iter`] has adapters between streams of channel values and streams of pixels.
//! * [`formats`] has readers for pixmaps and YUV4MPEG2 streams.
//!
//! Every function of the crate is verified against its contract: for every input that the
//! contract admits it returns what the contract says and does not panic. The only code that is
//! trusted is the arithmetic of the `num-traits` crate on the storage types, behind the
//! functions of [`storage::Channel`], and one call into `String` in [`formats::parser`].

pub mod error;
pub mod storage;
pub mod traits;
pub mod layout;
pub mod color;
pub mod yuv;
pub mod packed;
pub mod formats;
pub mod iter;

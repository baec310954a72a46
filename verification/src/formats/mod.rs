//! Readers for the headers of image files.
//!
//! The readers take the bytes of a file from a [`parser::ByteStream`] and hand back the raw
//! channel values with the width and the height that the header gives, ready to be laid under
//! an image.

pub mod parser;
pub mod ppm;
pub mod y4m;

//! The reader for portable pixmaps in their binary form.
//!
//! A pixmap starts with the magic number `P6`, a blank, and three numbers in base ten: the
//! width, the height and the largest channel value. One byte ends each number. Behind the last
//! of them lie three bytes for each pixel, row by row.

use crate::formats::parser::{is_blank, number_at, parse_u32, ByteStream};
use vstd::prelude::*;

verus! {

/// A portable pixmap
pub struct Ppm {
    /// Width in pixels
    pub width: u32,
    /// Height in pixels
    pub height: u32,
    /// The largest channel value
    pub range: u32,
    /// The channel values: red, green and blue of each pixel, row by row
    pub bytes: Vec<u8>,
}

/// What is wrong with a file that starts like a pixmap.
#[derive(Debug, Clone, Copy, PartialEq, Eq, Structural)]
pub enum Fault {
    /// No blank follows the magic number.
    Whitespace,
    /// The width is no number of 32 bits.
    Width,
    /// The height is no number of 32 bits.
    Height,
    /// The largest channel value is no number of 32 bits.
    Range,
    /// The largest channel value does not fit one byte.
    RangeTooLarge,
    /// The file ends before the last pixel.
    Length,
}

impl Fault {
    /// The message for the user.
    pub open spec fn text(self) -> Seq<char> {
        match self {
            Fault::Whitespace => "ppm: expected whitespace"@,
            Fault::Width => "ppm: failed to parse width"@,
            Fault::Height => "ppm: failed to parse height"@,
            Fault::Range => "ppm: failed to parse range"@,
            Fault::RangeTooLarge => "ppm: cannot handle range: {range}"@,
            Fault::Length => "ppm: invalid length"@,
        }
    }
}

/// What a pixmap holds, as the reader finds it.
pub struct Content {
    /// Width in pixels
    pub width: u32,
    /// Height in pixels
    pub height: u32,
    /// The largest channel value
    pub range: u32,
    /// The channel values
    pub bytes: Seq<u8>,
}

/// What the reader makes of the bytes of a file: None where the file is no pixmap or ends
/// within its header, a fault where it starts like a pixmap and is none, or what the pixmap
/// holds.
pub open spec fn outcome(file: Seq<u8>) -> Option<Result<Content, Fault>> {
    if file.len() < 2 || file[0] != 0x50 || file[1] != 0x36 {
        None
    } else if file.len() < 3 {
        None
    } else if !is_blank(file[2]) {
        Some(Err(Fault::Whitespace))
    } else {
        match number_at(file.skip(3)) {
            None => None,
            Some((Err(_), _, _)) => Some(Err(Fault::Width)),
            Some((Ok(width), _, rest)) => match number_at(rest) {
                None => None,
                Some((Err(_), _, _)) => Some(Err(Fault::Height)),
                Some((Ok(height), _, rest)) => match number_at(rest) {
                    None => None,
                    Some((Err(_), _, _)) => Some(Err(Fault::Range)),
                    Some((Ok(range), _, rest)) => if range > 255 {
                        Some(Err(Fault::RangeTooLarge))
                    } else if rest.len() < width * height * 3 {
                        Some(Err(Fault::Length))
                    } else {
                        Some(
                            Ok(
                                Content {
                                    width,
                                    height,
                                    range,
                                    bytes: rest.take(width * height * 3),
                                },
                            ),
                        )
                    },
                },
            },
        }
    }
}

/// Reads a pixmap from the bytes of a file.
///
/// Returns None where the file is no pixmap or ends within its header, a message where it
/// starts like a pixmap and is none, or the pixmap. Bytes behind the last pixel are ignored.
pub fn read(file: &[u8]) -> (ppm: Option<Result<Ppm, &'static str>>)
    ensures
        match outcome(file@) {
            None => ppm is None,
            Some(Err(fault)) => ppm is Some && ppm->0 is Err && ppm->0->Err_0@ == fault.text(),
            Some(Ok(content)) => {
                &&& ppm is Some
                &&& ppm->0 is Ok
                &&& ppm->0->Ok_0.width == content.width
                &&& ppm->0->Ok_0.height == content.height
                &&& ppm->0->Ok_0.range == content.range
                &&& ppm->0->Ok_0.bytes@ == content.bytes
            },
        },
{
    let mut bytes = ByteStream::new(file);

    // parse format from first line
    let first = match bytes.next() {
        Some(byte) => byte,
        None => return None,
    };
    let second = match bytes.next() {
        Some(byte) => byte,
        None => return None,
    };

    // is this a P6 PPM?
    if first != 0x50 || second != 0x36 {
        return None;
    }
    match bytes.next() {
        None => return None,
        Some(byte) => if !(byte == 0x20 || byte == 0x0a) {
            return Some(Err("ppm: expected whitespace"));
        },
    }
    assert(bytes.rest() =~= file@.skip(3));

    // parse width
    let width = match parse_u32(&mut bytes) {
        None => return None,
        Some((Ok(val), _)) => val,
        Some((Err(_), _)) => return Some(Err("ppm: failed to parse width")),
    };

    // parse height
    let height = match parse_u32(&mut bytes) {
        None => return None,
        Some((Ok(val), _)) => val,
        Some((Err(_), _)) => return Some(Err("ppm: failed to parse height")),
    };

    // parse range
    let range = match parse_u32(&mut bytes) {
        None => return None,
        Some((Ok(val), _)) => val,
        Some((Err(_), _)) => return Some(Err("ppm: failed to parse range")),
    };

    if range > 255 {
        return Some(Err("ppm: cannot handle range: {range}"));
    }

    // take only as many bytes as we expect there to be in the image
    assert(0 <= width * height <= 0xffff_ffff * 0xffff_ffff) by (nonlinear_arith)
        requires
            0 <= width <= 0xffff_ffff,
            0 <= height <= 0xffff_ffff,
    ;
    let ppm_len = width as u128 * height as u128 * 3;

    // verify buffer length
    if (bytes.remaining() as u128) < ppm_len {
        return Some(Err("ppm: invalid length"));
    }
    let bytes = bytes.take(ppm_len as usize);

    Some(Ok(Ppm { width, height, range, bytes }))
}

} // verus!

//! The reader for YUV4MPEG2 streams.
//!
//! A stream starts with the signature `YUV4MPEG2` and a space. Parameters follow, each of them
//! a tag of one letter with its value, with a space between two of them and a line feed behind
//! the last. Each frame starts with the marker `FRAME` and a line feed, and holds its planes
//! one after the other. The reader reads the first frame.

use crate::formats::parser::{
    number_at, parse_ascii, parse_char, parse_u32, word_at, ByteStream, NumberError,
};
use crate::formats::parser::{is_letter, lemma_run_len, Class};
use vstd::prelude::*;

verus! {

/// The way the chroma of a stream is sampled
#[derive(Debug, Clone, Copy, PartialEq, Eq, Structural)]
pub enum ColorSpace {
    /// 4:2:0 with chroma samples between the pixels
    C420jpeg,
    /// 4:2:0 as PAL DV has it
    C420paldv,
    /// 4:2:0
    C420,
    /// 4:2:2
    C422,
    /// 4:4:4
    C444,
    /// Luma only
    Cmono,
}

impl ColorSpace {
    /// The colour space that a word names.
    pub open spec fn named(word: Seq<char>) -> Option<Self> {
        if word == "420jpeg"@ {
            Some(ColorSpace::C420jpeg)
        } else if word == "420paldv"@ {
            Some(ColorSpace::C420paldv)
        } else if word == "420"@ {
            Some(ColorSpace::C420)
        } else if word == "422"@ {
            Some(ColorSpace::C422)
        } else if word == "444"@ {
            Some(ColorSpace::C444)
        } else if word == "mono"@ {
            Some(ColorSpace::Cmono)
        } else {
            None
        }
    }

    /// The number of bits that one pixel takes.
    pub open spec fn spec_bpp(&self) -> u32 {
        match self {
            ColorSpace::C420jpeg | ColorSpace::C420paldv | ColorSpace::C420 => 12,
            ColorSpace::C422 => 16,
            ColorSpace::C444 => 24,
            ColorSpace::Cmono => 8,
        }
    }

    /// Returns the colour space that a word names.
    pub fn parse(value: &str) -> (space: Option<Self>)
        ensures
            space == Self::named(value@),
    {
        let word = value.to_owned();
        if word == "420jpeg".to_owned() {
            Some(ColorSpace::C420jpeg)
        } else if word == "420paldv".to_owned() {
            Some(ColorSpace::C420paldv)
        } else if word == "420".to_owned() {
            Some(ColorSpace::C420)
        } else if word == "422".to_owned() {
            Some(ColorSpace::C422)
        } else if word == "444".to_owned() {
            Some(ColorSpace::C444)
        } else if word == "mono".to_owned() {
            Some(ColorSpace::Cmono)
        } else {
            None
        }
    }

    /// Returns the number of bits that one pixel takes.
    #[verifier::when_used_as_spec(spec_bpp)]
    pub fn bpp(&self) -> (bits: u32)
        ensures
            bits == self.spec_bpp(),
    {
        match self {
            ColorSpace::C420jpeg | ColorSpace::C420paldv | ColorSpace::C420 => 12,
            ColorSpace::C422 => 16,
            ColorSpace::C444 => 24,
            ColorSpace::Cmono => 8,
        }
    }
}

/// A parameter of a stream
#[derive(Debug)]
pub enum Param {
    /// A tag that the reader does not know, with its value
    Unknown(String),
    /// Width in pixels
    Width(u32),
    /// Height in pixels
    Height(u32),
    /// Frames per second, as a fraction
    Framerate((u32, u32)),
    /// The way the lines of a frame are interlaced
    Interlacing(char),
    /// The shape of a pixel, as a fraction
    AspectRatio((u32, u32)),
    /// The way the chroma is sampled
    ColorSpace(ColorSpace),
}

/// A parameter of a stream, as the reader finds it.
pub enum Tag {
    /// A tag that the reader does not know, with its value
    Unknown(Seq<char>),
    /// Width in pixels
    Width(u32),
    /// Height in pixels
    Height(u32),
    /// Frames per second, as a fraction
    Framerate((u32, u32)),
    /// The way the lines of a frame are interlaced
    Interlacing(char),
    /// The shape of a pixel, as a fraction
    AspectRatio((u32, u32)),
    /// The way the chroma is sampled
    ColorSpace(ColorSpace),
}

impl View for Param {
    type V = Tag;

    open spec fn view(&self) -> Tag {
        match self {
            Param::Unknown(word) => Tag::Unknown(word@),
            Param::Width(width) => Tag::Width(*width),
            Param::Height(height) => Tag::Height(*height),
            Param::Framerate(rate) => Tag::Framerate(*rate),
            Param::Interlacing(mode) => Tag::Interlacing(*mode),
            Param::AspectRatio(ratio) => Tag::AspectRatio(*ratio),
            Param::ColorSpace(space) => Tag::ColorSpace(*space),
        }
    }
}

/// What is wrong with a stream.
#[derive(Debug, Clone, Copy, PartialEq, Eq, Structural)]
pub enum Fault {
    /// The stream ends within the signature.
    NoSignature,
    /// The stream starts with something else than the signature.
    Signature,
    /// A width or a height is no number of 32 bits.
    Integer,
    /// A part of a fraction is no number of 32 bits.
    FractionInteger,
    /// The two parts of a fraction are not separated by a colon.
    Delimiter,
    /// The interlacing is no letter.
    Char,
    /// The colour space has a name that the reader does not know.
    ColorSpace,
    /// The stream ends where a frame should start.
    NoFrame,
    /// Something else than the marker stands where a frame should start.
    Frame,
    /// The frame has parameters of its own.
    FrameParams,
    /// Something else than a blank follows the marker of the frame.
    AfterFrame,
    /// The stream ends before the last sample of the frame.
    Length,
}

impl Fault {
    /// The message for the user.
    pub open spec fn text(self) -> Seq<char> {
        match self {
            Fault::NoSignature => "y4m: no signature"@,
            Fault::Signature => "y4m: invalid signature"@,
            Fault::Integer => "y4m: failed to parse integer"@,
            Fault::FractionInteger => "y4m: faild to parse integer"@,
            Fault::Delimiter => "y4m: expected fraction delimiter (:)"@,
            Fault::Char => "y4m: failed to parse char"@,
            Fault::ColorSpace => "y4m: failed to parse colorspace"@,
            Fault::NoFrame => "y4m: missing frame marker"@,
            Fault::Frame => "y4m: invalid frame marker"@,
            Fault::FrameParams => "y4m: cannot handle frame parameters"@,
            Fault::AfterFrame => "y4m: unexpected byte after frame marker"@,
            Fault::Length => "y4m: unexpected EOF"@,
        }
    }

    /// Returns the message for the user.
    pub fn message(self) -> (text: &'static str)
        ensures
            text@ == self.text(),
    {
        match self {
            Fault::NoSignature => "y4m: no signature",
            Fault::Signature => "y4m: invalid signature",
            Fault::Integer => "y4m: failed to parse integer",
            Fault::FractionInteger => "y4m: faild to parse integer",
            Fault::Delimiter => "y4m: expected fraction delimiter (:)",
            Fault::Char => "y4m: failed to parse char",
            Fault::ColorSpace => "y4m: failed to parse colorspace",
            Fault::NoFrame => "y4m: missing frame marker",
            Fault::Frame => "y4m: invalid frame marker",
            Fault::FrameParams => "y4m: cannot handle frame parameters",
            Fault::AfterFrame => "y4m: unexpected byte after frame marker",
            Fault::Length => "y4m: unexpected EOF",
        }
    }
}

/// The fraction at the front of `bytes`: two numbers with a colon between them. With it come
/// the byte that ends it and what follows that byte. None where the stream ends within the
/// fraction.
pub open spec fn fraction_at(bytes: Seq<u8>) -> Option<(Result<(u32, u32), Fault>, u8, Seq<u8>)> {
    match number_at(bytes) {
        None => None,
        Some((Err(_), other, rest)) => Some((Err(Fault::FractionInteger), other, rest)),
        Some((Ok(num), other, rest)) => if other != 0x3a {
            Some((Err(Fault::Delimiter), other, rest))
        } else {
            match number_at(rest) {
                None => None,
                Some((Err(_), other, rest)) => Some((Err(Fault::FractionInteger), other, rest)),
                Some((Ok(denom), other, rest)) => Some((Ok((num, denom)), other, rest)),
            }
        },
    }
}

/// The parameter at the front of `bytes`, or what is wrong with it. With it come the byte that
/// ends it and what follows that byte. None where the stream ends within the parameter.
pub open spec fn param_at(bytes: Seq<u8>) -> Option<(Result<Tag, Fault>, u8, Seq<u8>)> {
    if bytes.len() == 0 {
        None
    } else {
        let value = bytes.skip(1);
        if bytes[0] == 0x57 {
            match number_at(value) {
                None => None,
                Some((Err(_), other, rest)) => Some((Err(Fault::Integer), other, rest)),
                Some((Ok(width), other, rest)) => Some((Ok(Tag::Width(width)), other, rest)),
            }
        } else if bytes[0] == 0x48 {
            match number_at(value) {
                None => None,
                Some((Err(_), other, rest)) => Some((Err(Fault::Integer), other, rest)),
                Some((Ok(height), other, rest)) => Some((Ok(Tag::Height(height)), other, rest)),
            }
        } else if bytes[0] == 0x46 {
            match fraction_at(value) {
                None => None,
                Some((Err(fault), other, rest)) => Some((Err(fault), other, rest)),
                Some((Ok(rate), other, rest)) => Some((Ok(Tag::Framerate(rate)), other, rest)),
            }
        } else if bytes[0] == 0x49 {
            if value.len() == 0 {
                None
            } else if !is_letter(value[0]) {
                Some((Err(Fault::Char), value[0], value.skip(1)))
            } else if value.len() == 1 {
                None
            } else {
                Some((Ok(Tag::Interlacing(value[0] as char)), value[1], value.skip(2)))
            }
        } else if bytes[0] == 0x41 {
            match fraction_at(value) {
                None => None,
                Some((Err(fault), other, rest)) => Some((Err(fault), other, rest)),
                Some((Ok(ratio), other, rest)) => Some((Ok(Tag::AspectRatio(ratio)), other, rest)),
            }
        } else if bytes[0] == 0x43 {
            match word_at(value) {
                None => None,
                Some((word, other, rest)) => match ColorSpace::named(word) {
                    None => Some((Err(Fault::ColorSpace), other, rest)),
                    Some(space) => Some((Ok(Tag::ColorSpace(space)), other, rest)),
                },
            }
        } else {
            match word_at(value) {
                None => None,
                Some((word, other, rest)) => Some((Ok(Tag::Unknown(word)), other, rest)),
            }
        }
    }
}

/// Reads a fraction: two numbers with a colon between them.
fn parse_fraction(bytes: &mut ByteStream) -> (found: Option<(Result<(u32, u32), Fault>, u8)>)
    ensures
        match fraction_at(old(bytes).rest()) {
            None => found is None,
            Some((fraction, other, rest)) => found == Some((fraction, other)) && final(bytes).rest()
                == rest,
        },
{
    let (res, other) = parse_u32(bytes)?;
    let num = match res {
        Ok(num) => num,
        Err(_e) => return Some((Err(Fault::FractionInteger), other)),
    };
    if other != 0x3a {
        return Some((Err(Fault::Delimiter), other));
    }
    let (res, other) = parse_u32(bytes)?;
    let denom = match res {
        Ok(num) => num,
        Err(_e) => return Some((Err(Fault::FractionInteger), other)),
    };

    Some((Ok((num, denom)), other))
}

/// Reads one parameter of a stream: a tag of one letter and its value.
///
/// Returns the parameter, or the message that says what is wrong with it, and the byte that
/// ends it. Returns None where the stream ends within the parameter.
pub fn parse_params(bytes: &mut ByteStream) -> (found: Option<(Result<Param, &'static str>, u8)>)
    ensures
        match param_at(old(bytes).rest()) {
            None => found is None,
            Some((param, other, rest)) => {
                &&& found matches Some((got, byte)) && byte == other && match param {
                    Ok(tag) => got matches Ok(p) && p@ == tag,
                    Err(fault) => got matches Err(text) && text@ == fault.text(),
                }
                &&& final(bytes).rest() == rest
            },
        },
{
    let (param, other) = match bytes.next()? {
        0x57 => {
            let (res, other) = parse_u32(bytes)?;
            let val = match res {
                Ok(val) => val,
                Err(_e) => return Some((Err("y4m: failed to parse integer"), other)),
            };
            (Param::Width(val), other)
        },
        0x48 => {
            let (res, other) = parse_u32(bytes)?;
            let val = match res {
                Ok(val) => val,
                Err(_e) => return Some((Err("y4m: failed to parse integer"), other)),
            };
            (Param::Height(val), other)
        },
        0x46 => {
            let (res, other) = parse_fraction(bytes)?;
            let val = match res {
                Ok(val) => val,
                Err(e) => return Some((Err(e.message()), other)),
            };
            (Param::Framerate(val), other)
        },
        0x49 => {
            let res = parse_char(bytes)?;
            let val = match res {
                Ok(val) => val,
                Err(e) => return Some((Err("y4m: failed to parse char"), e)),
            };
            let other = bytes.next()?;
            (Param::Interlacing(val), other)
        },
        0x41 => {
            let (res, other) = parse_fraction(bytes)?;
            let val = match res {
                Ok(val) => val,
                Err(e) => return Some((Err(e.message()), other)),
            };
            (Param::AspectRatio(val), other)
        },
        0x43 => {
            let (word, other) = parse_ascii(bytes)?;
            let val = match ColorSpace::parse(word.as_str()) {
                Some(val) => val,
                None => return Some((Err("y4m: failed to parse colorspace"), other)),
            };
            (Param::ColorSpace(val), other)
        },
        _ => {
            let (word, other) = parse_ascii(bytes)?;
            (Param::Unknown(word), other)
        },
    };

    Some((Ok(param), other))
}

/// The first frame of a stream, with the parameters of the stream
#[derive(Debug)]
pub struct Y4m {
    /// Width in pixels
    pub width: u32,
    /// Height in pixels
    pub height: u32,
    /// Frames per second, as a fraction
    pub framerate: (u32, u32),
    /// The way the lines of a frame are interlaced
    pub interlacing: char,
    /// The shape of a pixel, as a fraction
    pub aspect_ratio: (u32, u32),
    /// The way the chroma is sampled
    pub color_space: ColorSpace,
    /// The samples of the frame, plane by plane
    pub bytes: Vec<u8>,
}

/// The first frame of a stream with the parameters of the stream, as the reader finds them.
pub struct Content {
    /// Width in pixels
    pub width: u32,
    /// Height in pixels
    pub height: u32,
    /// Frames per second, as a fraction
    pub framerate: (u32, u32),
    /// The way the lines of a frame are interlaced
    pub interlacing: char,
    /// The shape of a pixel, as a fraction
    pub aspect_ratio: (u32, u32),
    /// The way the chroma is sampled
    pub color_space: ColorSpace,
    /// The samples of the frame, plane by plane
    pub bytes: Seq<u8>,
}

impl View for Y4m {
    type V = Content;

    open spec fn view(&self) -> Content {
        Content {
            width: self.width,
            height: self.height,
            framerate: self.framerate,
            interlacing: self.interlacing,
            aspect_ratio: self.aspect_ratio,
            color_space: self.color_space,
            bytes: self.bytes@,
        }
    }
}

impl Content {
    /// What a stream without parameters and without samples holds.
    pub open spec fn start() -> Content {
        Content {
            width: 0,
            height: 0,
            framerate: (0, 0),
            interlacing: ' ',
            aspect_ratio: (0, 0),
            color_space: ColorSpace::C420jpeg,
            bytes: Seq::empty(),
        }
    }

    /// The content with one parameter more. A parameter that comes again replaces the one of
    /// its kind that came before; one that the reader does not know changes nothing.
    pub open spec fn with(self, tag: Tag) -> Content {
        match tag {
            Tag::Unknown(_) => self,
            Tag::Width(width) => Content { width, ..self },
            Tag::Height(height) => Content { height, ..self },
            Tag::Framerate(framerate) => Content { framerate, ..self },
            Tag::Interlacing(interlacing) => Content { interlacing, ..self },
            Tag::AspectRatio(aspect_ratio) => Content { aspect_ratio, ..self },
            Tag::ColorSpace(color_space) => Content { color_space, ..self },
        }
    }

    /// The number of samples in a frame.
    pub open spec fn frame_len(self) -> int {
        self.width * self.height * self.color_space.bpp() / 8
    }
}

/// The signature that a stream starts with.
pub open spec fn signature() -> Seq<u8> {
    seq![0x59u8, 0x55u8, 0x56u8, 0x34u8, 0x4du8, 0x50u8, 0x45u8, 0x47u8, 0x32u8, 0x20u8]
}

/// The marker that a frame starts with.
pub open spec fn marker() -> Seq<u8> {
    seq![0x46u8, 0x52u8, 0x41u8, 0x4du8, 0x45u8]
}

/// What the parameters at the front of `bytes` add to `so_far`, and what follows the line
/// feed behind the last of them. None where the stream ends within the parameters.
pub open spec fn header_at(bytes: Seq<u8>, so_far: Content) -> Option<
    Result<(Content, Seq<u8>), Fault>,
>
    decreases bytes.len(),
{
    match param_at(bytes) {
        None => None,
        Some((Err(fault), _, _)) => Some(Err(fault)),
        Some((Ok(tag), other, rest)) => if other == 0x0a {
            Some(Ok((so_far.with(tag), rest)))
        } else if rest.len() < bytes.len() {
            header_at(rest, so_far.with(tag))
        } else {
            None
        },
    }
}

/// The frame at the front of `bytes`, with the parameters of its stream.
pub open spec fn frame_at(bytes: Seq<u8>, header: Content) -> Result<Content, Fault> {
    if bytes.len() < 5 {
        Err(Fault::NoFrame)
    } else if bytes.take(5) != marker() {
        Err(Fault::Frame)
    } else if bytes.len() < 6 {
        Err(Fault::NoFrame)
    } else if bytes[5] == 0x20 {
        Err(Fault::FrameParams)
    } else if bytes[5] != 0x0a {
        Err(Fault::AfterFrame)
    } else if bytes.len() - 6 < header.frame_len() {
        Err(Fault::Length)
    } else {
        Ok(Content { bytes: bytes.skip(6).take(header.frame_len()), ..header })
    }
}

/// What the reader makes of the bytes of a file: None where the file ends within the
/// parameters of the stream, a fault where it is no stream that the reader can read, or the
/// first frame with the parameters.
pub open spec fn outcome(file: Seq<u8>) -> Option<Result<Content, Fault>> {
    if file.len() < 10 {
        Some(Err(Fault::NoSignature))
    } else if file.take(10) != signature() {
        Some(Err(Fault::Signature))
    } else {
        match header_at(file.skip(10), Content::start()) {
            None => None,
            Some(Err(fault)) => Some(Err(fault)),
            Some(Ok((header, rest))) => Some(frame_at(rest, header)),
        }
    }
}

/// A parameter takes one byte at least.
pub proof fn lemma_param_at(bytes: Seq<u8>)
    ensures
        param_at(bytes) matches Some((_, _, rest)) ==> rest.len() < bytes.len(),
{
    if bytes.len() > 0 {
        let value = bytes.skip(1);
        lemma_run_len(Class::Digit, value);
        lemma_run_len(Class::Word, value);
        match number_at(value) {
            Some((Ok(_), other, rest)) => {
                lemma_run_len(Class::Digit, rest);
            },
            _ => {},
        }
    }
}

/// Reads the first frame of a stream from the bytes of a file.
///
/// Returns None where the file ends within the parameters of the stream, a message where the
/// file is no stream that the reader can read, or the frame with the parameters of the stream.
/// Bytes behind the frame are ignored.
pub fn read(file: &[u8]) -> (y4m: Option<Result<Y4m, &'static str>>)
    ensures
        match outcome(file@) {
            None => y4m is None,
            Some(Err(fault)) => y4m matches Some(Err(text)) && text@ == fault.text(),
            Some(Ok(content)) => y4m matches Some(Ok(frame)) && frame@ == content,
        },
{
    let mut bytes = ByteStream::new(file);

    // check signature
    let found = bytes.take(10);
    if found.len() < 10 {
        return Some(Err("y4m: no signature"));
    }
    if !(found[0] == 0x59 && found[1] == 0x55 && found[2] == 0x56 && found[3] == 0x34 && found[4]
        == 0x4d && found[5] == 0x50 && found[6] == 0x45 && found[7] == 0x47 && found[8] == 0x32
        && found[9] == 0x20) {
        assert(file@.take(10) != signature());
        return Some(Err("y4m: invalid signature"));
    }

    let mut y4m = Y4m {
        width: 0,
        height: 0,
        framerate: (0, 0),
        interlacing: ' ',
        aspect_ratio: (0, 0),
        color_space: ColorSpace::C420jpeg,
        bytes: Vec::new(),
    };

    // parse parameters
    loop
        invariant_except_break
            header_at(file@.skip(10), Content::start()) == header_at(bytes.rest(), y4m@),
        invariant
            file@.len() >= 10,
            file@.take(10) == signature(),
            y4m.bytes@ == Seq::<u8>::empty(),
        ensures
            header_at(file@.skip(10), Content::start()) == Some(
                Ok::<(Content, Seq<u8>), Fault>((y4m@, bytes.rest())),
            ),
        decreases bytes.rest().len(),
    {
        proof {
            lemma_param_at(bytes.rest());
        }
        let (res, other) = match parse_params(&mut bytes) {
            None => return None,
            Some(found) => found,
        };
        let param = match res {
            Ok(param) => param,
            Err(e) => return Some(Err(e)),
        };
        let ghost before = y4m@;
        match param {
            Param::Width(width) => y4m.width = width,
            Param::Height(height) => y4m.height = height,
            Param::Framerate(rate) => y4m.framerate = rate,
            Param::Interlacing(interlacing) => y4m.interlacing = interlacing,
            Param::AspectRatio(ratio) => y4m.aspect_ratio = ratio,
            Param::ColorSpace(colorspace) => y4m.color_space = colorspace,
            Param::Unknown(_word) => {},
        }
        assert(y4m@ == before.with(param@));

        if other == 0x0a {
            break ;
        }
    }
    let ghost rest = bytes.rest();

    // parse frame
    let found = bytes.take(5);
    if found.len() < 5 {
        return Some(Err("y4m: missing frame marker"));
    }
    if !(found[0] == 0x46 && found[1] == 0x52 && found[2] == 0x41 && found[3] == 0x4d && found[4]
        == 0x45) {
        assert(rest.take(5) != marker());
        return Some(Err("y4m: invalid frame marker"));
    }
    assert(rest.take(5) =~= marker());

    // check for frame parameters
    match bytes.next() {
        Some(0x20) => return Some(Err("y4m: cannot handle frame parameters")),
        Some(0x0a) => {},
        Some(_) => return Some(Err("y4m: unexpected byte after frame marker")),
        None => return Some(Err("y4m: missing frame marker")),
    }
    assert(bytes.rest() =~= rest.skip(6));

    // take only as many bytes as we expect there to be in the image
    assert(0 <= y4m.width * y4m.height <= 0xffff_ffff * 0xffff_ffff && 0 <= y4m.width * y4m.height
        * y4m.color_space.bpp() <= 0xffff_ffff * 0xffff_ffff * 24) by (nonlinear_arith)
        requires
            0 <= y4m.width <= 0xffff_ffff,
            0 <= y4m.height <= 0xffff_ffff,
            0 <= y4m.color_space.bpp() <= 24,
    ;
    let y4m_len = y4m.width as u128 * y4m.height as u128 * y4m.color_space.bpp() as u128 / 8;

    // verify buffer length
    if (bytes.remaining() as u128) < y4m_len {
        return Some(Err("y4m: unexpected EOF"));
    }
    y4m.bytes = bytes.take(y4m_len as usize);

    Some(Ok(y4m))
}

} // verus!

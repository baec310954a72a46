//! YUV pixels with full chroma, and the rules between them and RGB pixels.
//!
//! The rules are the integer form of BT.601 for eight-bit studio range. They compute in `i32`
//! whatever the storage type is.

use crate::color::rgb::Rgb;
use crate::error::Error;
use crate::layout::{arrange3, is_order3, place3};
use crate::layout::{lemma_place3, lemma_place3_same};
use crate::storage::Channel;
use crate::traits::{FromPixel, Pixel};
use vstd::prelude::*;

verus! {

/// YUV pixel
///
/// `Y`, `U` and `V` are the places of luma and of the two chroma channels in storage.
#[derive(Debug, Clone, Copy, PartialEq, Eq)]
pub struct Yuv<T, const Y: usize, const U: usize, const V: usize>(pub [T; 3]);

/// Luma of a colour: `((66 r + 129 g + 25 b + 128) >> 8) + 16`.
pub open spec fn y_of(r: int, g: int, b: int) -> int {
    (66 * r + 129 * g + 25 * b + 128) / 256 + 16
}

/// Blue chroma of a colour: `((-38 r - 74 g + 112 b + 128) >> 8) + 128`.
pub open spec fn u_of(r: int, g: int, b: int) -> int {
    (-38 * r - 74 * g + 112 * b + 128) / 256 + 128
}

/// Red chroma of a colour: `((112 r - 94 g - 18 b + 128) >> 8) + 128`.
pub open spec fn v_of(r: int, g: int, b: int) -> int {
    (112 * r - 94 * g - 18 * b + 128) / 256 + 128
}

/// The nearest number to `x` from 0 to 255.
pub open spec fn clamp8(x: int) -> int {
    if x < 0 {
        0
    } else if x > 255 {
        255
    } else {
        x
    }
}

/// Red of a YUV pixel: `(298 (y - 16) + 409 (v - 128) + 128) >> 8`, clamped to eight bits.
pub open spec fn r_of(y: int, u: int, v: int) -> int {
    clamp8((298 * (y - 16) + 409 * (v - 128) + 128) / 256)
}

/// Green of a YUV pixel: `(298 (y - 16) - 100 (u - 128) - 208 (v - 128) + 128) >> 8`, clamped
/// to eight bits.
pub open spec fn g_of(y: int, u: int, v: int) -> int {
    clamp8((298 * (y - 16) - 100 * (u - 128) - 208 * (v - 128) + 128) / 256)
}

/// Blue of a YUV pixel: `(298 (y - 16) + 516 (u - 128) + 128) >> 8`, clamped to eight bits.
pub open spec fn b_of(y: int, u: int, v: int) -> int {
    clamp8((298 * (y - 16) + 516 * (u - 128) + 128) / 256)
}

/// Whether the three numbers of a YUV pixel fit a storage type with the given limit.
pub open spec fn yuv_fits(r: int, g: int, b: int, limit: int) -> bool {
    &&& 0 <= y_of(r, g, b) <= limit
    &&& 0 <= u_of(r, g, b) <= limit
    &&& 0 <= v_of(r, g, b) <= limit
}

/// Every eight-bit colour has a YUV pixel of eight bits: luma from 16 to 235, chroma from 16 to
/// 240.
pub proof fn lemma_yuv_of_eight_bits(r: int, g: int, b: int)
    requires
        0 <= r <= 255,
        0 <= g <= 255,
        0 <= b <= 255,
    ensures
        16 <= y_of(r, g, b) <= 235,
        16 <= u_of(r, g, b) <= 240,
        16 <= v_of(r, g, b) <= 240,
        yuv_fits(r, g, b, 255),
{
}

/// An eight-bit colour that is turned into a YUV pixel and back comes back close to where it
/// was: red and green at most two steps away, blue at most three.
pub proof fn lemma_rgb_yuv_rgb_close(r: int, g: int, b: int)
    requires
        0 <= r <= 255,
        0 <= g <= 255,
        0 <= b <= 255,
    ensures
        ({
            let (y, u, v) = (y_of(r, g, b), u_of(r, g, b), v_of(r, g, b));
            &&& r - 2 <= r_of(y, u, v) <= r + 2
            &&& g - 2 <= g_of(y, u, v) <= g + 2
            &&& b - 3 <= b_of(y, u, v) <= b + 3
        }),
{
}

/// An eight-bit gray, a colour whose red, green and blue are equal, that is turned into a YUV
/// pixel and back comes back at most one step away in every channel.
pub proof fn lemma_gray_yuv_rgb_within_one(c: int)
    requires
        0 <= c <= 255,
    ensures
        ({
            let (y, u, v) = (y_of(c, c, c), u_of(c, c, c), v_of(c, c, c));
            &&& u == 128
            &&& v == 128
            &&& c - 1 <= r_of(y, u, v) <= c + 1
            &&& c - 1 <= g_of(y, u, v) <= c + 1
            &&& c - 1 <= b_of(y, u, v) <= c + 1
        }),
{
}

/// The shift of an `i32` by eight bits to the right is the division by 256 that rounds
/// downwards.
fn shr8(x: i32) -> (q: i32)
    ensures
        q == x as int / 256,
{
    assert(x >> 8u32 == x / 256) by (bit_vector);
    x >> 8
}

/// The nearest number to `x` from 0 to 255.
fn clamp_to_eight_bits(x: i32) -> (c: i32)
    ensures
        c == clamp8(x as int),
{
    if x < 0 {
        0
    } else if x > 255 {
        255
    } else {
        x
    }
}

impl<T: Copy, const Y: usize, const U: usize, const V: usize> Yuv<T, Y, U, V> {
    /// Whether the places of the channels are an order.
    pub open spec fn valid() -> bool {
        is_order3(Y, U, V)
    }

    /// The pixel of the given luma and chroma.
    pub open spec fn of(y: T, u: T, v: T) -> Self {
        Yuv(place3(Y, U, V, y, u, v))
    }

    /// The luma channel.
    pub open spec fn spec_y(self) -> T {
        self.0[Y as int]
    }

    /// The blue chroma channel.
    pub open spec fn spec_u(self) -> T {
        self.0[U as int]
    }

    /// The red chroma channel.
    pub open spec fn spec_v(self) -> T {
        self.0[V as int]
    }

    /// Returns a new pixel
    pub fn new(channels: [T; 3]) -> (pix: Self)
        ensures
            pix.0 == channels,
    {
        Yuv(channels)
    }

    /// Returns the pixel of the given luma and chroma.
    pub fn from_yuv(y: T, u: T, v: T) -> (pix: Self)
        requires
            Self::valid(),
        ensures
            pix == Self::of(y, u, v),
    {
        Yuv(arrange3(Y, U, V, y, u, v))
    }

    /// The luma channel.
    #[verifier::when_used_as_spec(spec_y)]
    pub fn y(self) -> (v: T)
        requires
            Self::valid(),
        ensures
            v == self.spec_y(),
    {
        self.0[Y]
    }

    /// The blue chroma channel.
    #[verifier::when_used_as_spec(spec_u)]
    pub fn u(self) -> (v: T)
        requires
            Self::valid(),
        ensures
            v == self.spec_u(),
    {
        self.0[U]
    }

    /// The red chroma channel.
    #[verifier::when_used_as_spec(spec_v)]
    pub fn v(self) -> (v: T)
        requires
            Self::valid(),
        ensures
            v == self.spec_v(),
    {
        self.0[V]
    }

    /// A pixel holds the luma and chroma it was made of, and is the pixel of what it holds.
    pub proof fn lemma_of(y: T, u: T, v: T, pix: Self)
        requires
            Self::valid(),
        ensures
            Self::of(y, u, v).y() == y,
            Self::of(y, u, v).u() == u,
            Self::of(y, u, v).v() == v,
            Self::of(pix.y(), pix.u(), pix.v()) == pix,
    {
        lemma_place3(Y, U, V, y, u, v);
        lemma_place3_same(Y, U, V, pix.0);
    }
}

impl<T: Copy, const Y: usize, const U: usize, const V: usize> Pixel for Yuv<T, Y, U, V> {
    type T = T;

    open spec fn spec_channels() -> u8 {
        3
    }

    open spec fn spec_subpixels() -> u8 {
        1
    }

    open spec fn values(self) -> Seq<T> {
        self.0@
    }

    open spec fn from_values(values: Seq<T>) -> Self {
        Yuv([values[0], values[1], values[2]])
    }

    proof fn lemma_shape() {
    }

    proof fn lemma_values(self) {
        assert(Self::from_values(self.values()).0 =~= self.0);
    }

    proof fn lemma_from_values(values: Seq<T>) {
    }

    fn channels() -> (n: u8) {
        3
    }

    fn subpixels() -> (n: u8) {
        1
    }

    fn try_from(raw: &[T]) -> (pix: Result<Self, Error>) {
        if raw.len() != 3 {
            return Err(Error::OutOfBounds);
        }
        Ok(Yuv([raw[0], raw[1], raw[2]]))
    }

    fn at(&self, i: usize) -> (v: T) {
        self.0[i]
    }
}

impl<T: Copy, const Y: usize, const U: usize, const V: usize> std::ops::Index<usize> for Yuv<T, Y, U, V> {
    type Output = T;

    fn index(&self, i: usize) -> (v: &T)
        ensures
            *v == self.0[i as int],
    {
        &self.0[i]
    }
}

impl<T: Copy, const Y: usize, const U: usize, const V: usize> vstd::std_specs::core::IndexSpecImpl<usize> for Yuv<T, Y, U, V> {
    open spec fn index_req(&self, i: &usize) -> bool {
        *i < 3
    }
}

impl<T: Copy, const Y: usize, const U: usize, const V: usize> From<[T; 3]> for Yuv<T, Y, U, V> {
    fn from(array: [T; 3]) -> (pix: Self) {
        Yuv(array)
    }
}

impl<T: Copy, const Y: usize, const U: usize, const V: usize> vstd::std_specs::convert::FromSpecImpl<[T; 3]> for Yuv<T, Y, U, V> {
    open spec fn obeys_from_spec() -> bool {
        true
    }

    open spec fn from_spec(array: [T; 3]) -> Self {
        Yuv(array)
    }
}

impl<T: Channel, const Y: usize, const U: usize, const V: usize, const R: usize, const G: usize, const B: usize> FromPixel<Rgb<T, R, G, B>> for Yuv<T, Y, U, V> {
    open spec fn convertible(src: Rgb<T, R, G, B>) -> bool {
        &&& Self::valid()
        &&& Rgb::<T, R, G, B>::valid()
        &&& yuv_fits(src.red().value(), src.green().value(), src.blue().value(), T::limit())
    }

    open spec fn converted(src: Rgb<T, R, G, B>) -> Self {
        let (r, g, b) = (src.red().value(), src.green().value(), src.blue().value());
        Self::of(T::of_value(y_of(r, g, b)), T::of_value(u_of(r, g, b)), T::of_value(v_of(r, g, b)))
    }

    fn from_pixel(src: Rgb<T, R, G, B>) -> (dst: Self) {
        proof {
            src.red().lemma_value();
            src.green().lemma_value();
            src.blue().lemma_value();
            T::lemma_limit_bounds();
        }
        let r = src.red().as_i32();
        let g = src.green().as_i32();
        let b = src.blue().as_i32();

        let y = shr8(66 * r + 129 * g + 25 * b + 128) + 16;
        let u = shr8(-38 * r - 74 * g + 112 * b + 128) + 128;
        let v = shr8(112 * r - 94 * g - 18 * b + 128) + 128;

        Self::from_yuv(T::from_i32(y).unwrap(), T::from_i32(u).unwrap(), T::from_i32(v).unwrap())
    }
}

impl<T: Channel, const R: usize, const G: usize, const B: usize, const Y: usize, const U: usize, const V: usize> FromPixel<Yuv<T, Y, U, V>> for Rgb<T, R, G, B> {
    open spec fn convertible(src: Yuv<T, Y, U, V>) -> bool {
        Self::valid() && Yuv::<T, Y, U, V>::valid()
    }

    open spec fn converted(src: Yuv<T, Y, U, V>) -> Self {
        let (y, u, v) = (src.y().value(), src.u().value(), src.v().value());
        Self::of(T::of_value(r_of(y, u, v)), T::of_value(g_of(y, u, v)), T::of_value(b_of(y, u, v)))
    }

    fn from_pixel(src: Yuv<T, Y, U, V>) -> (dst: Self) {
        proof {
            src.y().lemma_value();
            src.u().lemma_value();
            src.v().lemma_value();
            T::lemma_limit_bounds();
        }
        let y = src.y().as_i32();
        let u = src.u().as_i32();
        let v = src.v().as_i32();
        let c = y - 16;
        let d = u - 128;
        let e = v - 128;

        let r = clamp_to_eight_bits(shr8(298 * c + 409 * e + 128));
        let g = clamp_to_eight_bits(shr8(298 * c - 100 * d - 208 * e + 128));
        let b = clamp_to_eight_bits(shr8(298 * c + 516 * d + 128));

        Self::from_rgb(T::from_i32(r).unwrap(), T::from_i32(g).unwrap(), T::from_i32(b).unwrap())
    }
}

/// Every colour of eight-bit channels has a YUV pixel.
pub proof fn lemma_eight_bits_convertible<const Y: usize, const U: usize, const V: usize, const R: usize, const G: usize, const B: usize>(pix: Rgb<u8, R, G, B>)
    requires
        Yuv::<u8, Y, U, V>::valid(),
        Rgb::<u8, R, G, B>::valid(),
    ensures
        Yuv::<u8, Y, U, V>::convertible(pix),
{
    lemma_yuv_of_eight_bits(pix.red() as int, pix.green() as int, pix.blue() as int);
}

/// A colour of eight-bit channels that is turned into a YUV pixel and back comes back close to
/// where it was: red and green at most two steps away, blue at most three. Where red, green
/// and blue are equal, every channel comes back at most one step away.
pub proof fn lemma_round_trip_close<const R: usize, const G: usize, const B: usize, const Y: usize, const U: usize, const V: usize>(pix: Rgb<u8, R, G, B>)
    requires
        Rgb::<u8, R, G, B>::valid(),
        Yuv::<u8, Y, U, V>::valid(),
    ensures
        ({
            let back = Rgb::<u8, R, G, B>::converted(Yuv::<u8, Y, U, V>::converted(pix));
            &&& pix.red() - 2 <= back.red() <= pix.red() + 2
            &&& pix.green() - 2 <= back.green() <= pix.green() + 2
            &&& pix.blue() - 3 <= back.blue() <= pix.blue() + 3
            &&& pix.red() == pix.green() && pix.green() == pix.blue() ==> {
                &&& pix.red() - 1 <= back.red() <= pix.red() + 1
                &&& pix.green() - 1 <= back.green() <= pix.green() + 1
                &&& pix.blue() - 1 <= back.blue() <= pix.blue() + 1
            }
        }),
{
    let (r, g, b) = (pix.red() as int, pix.green() as int, pix.blue() as int);
    let (y, u, v) = (y_of(r, g, b), u_of(r, g, b), v_of(r, g, b));
    lemma_yuv_of_eight_bits(r, g, b);
    lemma_rgb_yuv_rgb_close(r, g, b);
    if r == g && g == b {
        lemma_gray_yuv_rgb_within_one(r);
    }
    let there = Yuv::<u8, Y, U, V>::converted(pix);
    Yuv::<u8, Y, U, V>::lemma_of(y as u8, u as u8, v as u8, there);
    let back = Rgb::<u8, R, G, B>::converted(there);
    Rgb::<u8, R, G, B>::lemma_of(
        r_of(y, u, v) as u8,
        g_of(y, u, v) as u8,
        b_of(y, u, v) as u8,
        back,
    );
}

// The rules between the formats in the usual channel orders, as conversions of the standard
// library.

/// An RGB pixel of eight bits becomes the YUV pixel of its colour.
impl From<Rgb<u8, 0, 1, 2>> for Yuv<u8, 0, 1, 2> {
    fn from(src: Rgb<u8, 0, 1, 2>) -> (dst: Self) {
        proof {
            lemma_eight_bits_convertible::<0, 1, 2, 0, 1, 2>(src);
        }
        Self::from_pixel(src)
    }
}

impl vstd::std_specs::convert::FromSpecImpl<Rgb<u8, 0, 1, 2>> for Yuv<u8, 0, 1, 2> {
    open spec fn obeys_from_spec() -> bool {
        true
    }

    open spec fn from_spec(src: Rgb<u8, 0, 1, 2>) -> Self {
        <Self as FromPixel<Rgb<u8, 0, 1, 2>>>::converted(src)
    }
}

/// A BGR pixel of eight bits becomes the YUV pixel of its colour.
impl From<Rgb<u8, 2, 1, 0>> for Yuv<u8, 0, 1, 2> {
    fn from(src: Rgb<u8, 2, 1, 0>) -> (dst: Self) {
        proof {
            lemma_eight_bits_convertible::<0, 1, 2, 2, 1, 0>(src);
        }
        Self::from_pixel(src)
    }
}

impl vstd::std_specs::convert::FromSpecImpl<Rgb<u8, 2, 1, 0>> for Yuv<u8, 0, 1, 2> {
    open spec fn obeys_from_spec() -> bool {
        true
    }

    open spec fn from_spec(src: Rgb<u8, 2, 1, 0>) -> Self {
        <Self as FromPixel<Rgb<u8, 2, 1, 0>>>::converted(src)
    }
}

/// A YUV pixel becomes the RGB pixel of its colour.
impl<T: Channel> From<Yuv<T, 0, 1, 2>> for Rgb<T, 0, 1, 2> {
    fn from(src: Yuv<T, 0, 1, 2>) -> (dst: Self) {
        Self::from_pixel(src)
    }
}

impl<T: Channel> vstd::std_specs::convert::FromSpecImpl<Yuv<T, 0, 1, 2>> for Rgb<T, 0, 1, 2> {
    open spec fn obeys_from_spec() -> bool {
        true
    }

    open spec fn from_spec(src: Yuv<T, 0, 1, 2>) -> Self {
        <Self as FromPixel<Yuv<T, 0, 1, 2>>>::converted(src)
    }
}

/// A YUV pixel becomes the BGR pixel of its colour.
impl<T: Channel> From<Yuv<T, 0, 1, 2>> for Rgb<T, 2, 1, 0> {
    fn from(src: Yuv<T, 0, 1, 2>) -> (dst: Self) {
        Self::from_pixel(src)
    }
}

impl<T: Channel> vstd::std_specs::convert::FromSpecImpl<Yuv<T, 0, 1, 2>> for Rgb<T, 2, 1, 0> {
    open spec fn obeys_from_spec() -> bool {
        true
    }

    open spec fn from_spec(src: Yuv<T, 0, 1, 2>) -> Self {
        <Self as FromPixel<Yuv<T, 0, 1, 2>>>::converted(src)
    }
}

} // verus!

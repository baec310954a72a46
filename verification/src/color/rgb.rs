//! RGB pixels, with and without alpha, in any channel order.

use crate::color::gray::Gray;
use crate::error::Error;
use crate::layout::{arrange3, arrange4, is_order3, is_order4, place3, place4};
use crate::layout::{lemma_place3, lemma_place3_same, lemma_place4, lemma_place4_same};
use crate::storage::Channel;
use crate::traits::{FromPixel, Pixel};
use vstd::prelude::*;

verus! {

/// RGB pixel
///
/// `R`, `G` and `B` are the places of red, green and blue in storage.
#[derive(Debug, Clone, Copy, PartialEq, Eq)]
pub struct Rgb<T, const R: usize, const G: usize, const B: usize>(pub [T; 3]);

/// RGB pixel with alpha
///
/// `R`, `G`, `B` and `A` are the places of red, green, blue and alpha in storage.
#[derive(Debug, Clone, Copy, PartialEq, Eq)]
pub struct Rgba<T, const R: usize, const G: usize, const B: usize, const A: usize>(pub [T; 4]);

/// BGR pixel
pub type Bgr<T> = Rgb<T, 2, 1, 0>;

/// BGR pixel with alpha
pub type Bgra<T> = Rgba<T, 2, 1, 0, 3>;

/// The luma of a colour: `0.2126 * r + 0.7152 * g + 0.0722 * b`, rounded to the nearest whole
/// number, a half upwards.
pub open spec fn luma_of(r: int, g: int, b: int) -> int {
    (2126 * r + 7152 * g + 722 * b + 5000) / 10000
}

/// The luma of a colour lies between zero and the limit of its channels.
pub proof fn lemma_luma_bounds(r: int, g: int, b: int, limit: int)
    requires
        0 <= r <= limit,
        0 <= g <= limit,
        0 <= b <= limit,
    ensures
        0 <= luma_of(r, g, b) <= limit,
{
}

/// The luma of a colour whose three channels are equal is the value of these channels.
pub proof fn lemma_luma_of_gray(c: int)
    requires
        0 <= c,
    ensures
        luma_of(c, c, c) == c,
{
}

/// Computes the luma of a colour in the storage type of its channels.
pub fn luma<T: Channel>(r: T, g: T, b: T) -> (y: T)
    ensures
        y == T::of_value(luma_of(r.value(), g.value(), b.value())),
{
    proof {
        r.lemma_value();
        g.lemma_value();
        b.lemma_value();
        T::lemma_limit_bounds();
        lemma_luma_bounds(r.value(), g.value(), b.value(), T::limit());
    }
    let sum: i32 = 2126 * r.as_i32() + 7152 * g.as_i32() + 722 * b.as_i32() + 5000;
    let y = T::from_i32(sum / 10000);
    y.unwrap()
}

impl<T: Copy, const R: usize, const G: usize, const B: usize> Rgb<T, R, G, B> {
    /// Whether the places of the channels are an order.
    pub open spec fn valid() -> bool {
        is_order3(R, G, B)
    }

    /// The pixel of the given colour.
    pub open spec fn of(red: T, green: T, blue: T) -> Self {
        Rgb(place3(R, G, B, red, green, blue))
    }

    /// The red channel.
    pub open spec fn spec_red(self) -> T {
        self.0[R as int]
    }

    /// The green channel.
    pub open spec fn spec_green(self) -> T {
        self.0[G as int]
    }

    /// The blue channel.
    pub open spec fn spec_blue(self) -> T {
        self.0[B as int]
    }

    /// Returns a new pixel
    pub fn new(channels: [T; 3]) -> (pix: Self)
        ensures
            pix.0 == channels,
    {
        Rgb(channels)
    }

    /// Returns the pixel of the given colour.
    pub fn from_rgb(red: T, green: T, blue: T) -> (pix: Self)
        requires
            Self::valid(),
        ensures
            pix == Self::of(red, green, blue),
    {
        Rgb(arrange3(R, G, B, red, green, blue))
    }

    /// The red channel.
    #[verifier::when_used_as_spec(spec_red)]
    pub fn red(self) -> (v: T)
        requires
            Self::valid(),
        ensures
            v == self.spec_red(),
    {
        self.0[R]
    }

    /// The green channel.
    #[verifier::when_used_as_spec(spec_green)]
    pub fn green(self) -> (v: T)
        requires
            Self::valid(),
        ensures
            v == self.spec_green(),
    {
        self.0[G]
    }

    /// The blue channel.
    #[verifier::when_used_as_spec(spec_blue)]
    pub fn blue(self) -> (v: T)
        requires
            Self::valid(),
        ensures
            v == self.spec_blue(),
    {
        self.0[B]
    }

    /// A pixel holds the colour it was made of, and is the pixel of the colour it holds.
    pub proof fn lemma_of(red: T, green: T, blue: T, pix: Self)
        requires
            Self::valid(),
        ensures
            Self::of(red, green, blue).red() == red,
            Self::of(red, green, blue).green() == green,
            Self::of(red, green, blue).blue() == blue,
            Self::of(pix.red(), pix.green(), pix.blue()) == pix,
    {
        lemma_place3(R, G, B, red, green, blue);
        lemma_place3_same(R, G, B, pix.0);
    }
}

impl<T: Copy, const R: usize, const G: usize, const B: usize> Pixel for Rgb<T, R, G, B> {
    type T = T;

    open spec fn spec_channels() -> u8 {
        3
    }

    open spec fn spec_subpixels() -> u8 {
        1
    }

    open spec fn values(self) -> Seq<T> {
        self.0@
    }

    open spec fn from_values(values: Seq<T>) -> Self {
        Rgb([values[0], values[1], values[2]])
    }

    proof fn lemma_shape() {
    }

    proof fn lemma_values(self) {
        assert(Self::from_values(self.values()).0 =~= self.0);
    }

    proof fn lemma_from_values(values: Seq<T>) {
    }

    fn channels() -> (n: u8) {
        3
    }

    fn subpixels() -> (n: u8) {
        1
    }

    fn try_from(raw: &[T]) -> (pix: Result<Self, Error>) {
        if raw.len() != 3 {
            return Err(Error::OutOfBounds);
        }
        Ok(Rgb([raw[0], raw[1], raw[2]]))
    }

    fn at(&self, i: usize) -> (v: T) {
        self.0[i]
    }
}

impl<T: Copy, const R: usize, const G: usize, const B: usize> std::ops::Index<usize> for Rgb<T, R, G, B> {
    type Output = T;

    fn index(&self, i: usize) -> (v: &T)
        ensures
            *v == self.0[i as int],
    {
        &self.0[i]
    }
}

impl<T: Copy, const R: usize, const G: usize, const B: usize> vstd::std_specs::core::IndexSpecImpl<usize> for Rgb<T, R, G, B> {
    open spec fn index_req(&self, i: &usize) -> bool {
        *i < 3
    }
}

impl<T: Copy, const R: usize, const G: usize, const B: usize> From<[T; 3]> for Rgb<T, R, G, B> {
    fn from(array: [T; 3]) -> (pix: Self) {
        Rgb(array)
    }
}

impl<T: Copy, const R: usize, const G: usize, const B: usize> vstd::std_specs::convert::FromSpecImpl<[T; 3]> for Rgb<T, R, G, B> {
    open spec fn obeys_from_spec() -> bool {
        true
    }

    open spec fn from_spec(array: [T; 3]) -> Self {
        Rgb(array)
    }
}

impl<T: Copy, const R: usize, const G: usize, const B: usize, const A: usize> Rgba<T, R, G, B, A> {
    /// Whether the places of the channels are an order.
    pub open spec fn valid() -> bool {
        is_order4(R, G, B, A)
    }

    /// The pixel of the given colour and alpha.
    pub open spec fn of(red: T, green: T, blue: T, alpha: T) -> Self {
        Rgba(place4(R, G, B, A, red, green, blue, alpha))
    }

    /// The red channel.
    pub open spec fn spec_red(self) -> T {
        self.0[R as int]
    }

    /// The green channel.
    pub open spec fn spec_green(self) -> T {
        self.0[G as int]
    }

    /// The blue channel.
    pub open spec fn spec_blue(self) -> T {
        self.0[B as int]
    }

    /// The alpha channel.
    pub open spec fn spec_alpha(self) -> T {
        self.0[A as int]
    }

    /// Returns a new pixel
    pub fn new(channels: [T; 4]) -> (pix: Self)
        ensures
            pix.0 == channels,
    {
        Rgba(channels)
    }

    /// Returns the pixel of the given colour and alpha.
    pub fn from_rgba(red: T, green: T, blue: T, alpha: T) -> (pix: Self)
        requires
            Self::valid(),
        ensures
            pix == Self::of(red, green, blue, alpha),
    {
        Rgba(arrange4(R, G, B, A, red, green, blue, alpha))
    }

    /// The red channel.
    #[verifier::when_used_as_spec(spec_red)]
    pub fn red(self) -> (v: T)
        requires
            Self::valid(),
        ensures
            v == self.spec_red(),
    {
        self.0[R]
    }

    /// The green channel.
    #[verifier::when_used_as_spec(spec_green)]
    pub fn green(self) -> (v: T)
        requires
            Self::valid(),
        ensures
            v == self.spec_green(),
    {
        self.0[G]
    }

    /// The blue channel.
    #[verifier::when_used_as_spec(spec_blue)]
    pub fn blue(self) -> (v: T)
        requires
            Self::valid(),
        ensures
            v == self.spec_blue(),
    {
        self.0[B]
    }

    /// The alpha channel.
    #[verifier::when_used_as_spec(spec_alpha)]
    pub fn alpha(self) -> (v: T)
        requires
            Self::valid(),
        ensures
            v == self.spec_alpha(),
    {
        self.0[A]
    }

    /// A pixel holds the colour and alpha it was made of, and is the pixel of what it holds.
    pub proof fn lemma_of(red: T, green: T, blue: T, alpha: T, pix: Self)
        requires
            Self::valid(),
        ensures
            Self::of(red, green, blue, alpha).red() == red,
            Self::of(red, green, blue, alpha).green() == green,
            Self::of(red, green, blue, alpha).blue() == blue,
            Self::of(red, green, blue, alpha).alpha() == alpha,
            Self::of(pix.red(), pix.green(), pix.blue(), pix.alpha()) == pix,
    {
        lemma_place4(R, G, B, A, red, green, blue, alpha);
        lemma_place4_same(R, G, B, A, pix.0);
    }
}

impl<T: Copy, const R: usize, const G: usize, const B: usize, const A: usize> Pixel for Rgba<T, R, G, B, A> {
    type T = T;

    open spec fn spec_channels() -> u8 {
        4
    }

    open spec fn spec_subpixels() -> u8 {
        1
    }

    open spec fn values(self) -> Seq<T> {
        self.0@
    }

    open spec fn from_values(values: Seq<T>) -> Self {
        Rgba([values[0], values[1], values[2], values[3]])
    }

    proof fn lemma_shape() {
    }

    proof fn lemma_values(self) {
        assert(Self::from_values(self.values()).0 =~= self.0);
    }

    proof fn lemma_from_values(values: Seq<T>) {
    }

    fn channels() -> (n: u8) {
        4
    }

    fn subpixels() -> (n: u8) {
        1
    }

    fn try_from(raw: &[T]) -> (pix: Result<Self, Error>) {
        if raw.len() != 4 {
            return Err(Error::OutOfBounds);
        }
        Ok(Rgba([raw[0], raw[1], raw[2], raw[3]]))
    }

    fn at(&self, i: usize) -> (v: T) {
        self.0[i]
    }
}

impl<T: Copy, const R: usize, const G: usize, const B: usize, const A: usize> std::ops::Index<usize> for Rgba<T, R, G, B, A> {
    type Output = T;

    fn index(&self, i: usize) -> (v: &T)
        ensures
            *v == self.0[i as int],
    {
        &self.0[i]
    }
}

impl<T: Copy, const R: usize, const G: usize, const B: usize, const A: usize> vstd::std_specs::core::IndexSpecImpl<usize> for Rgba<T, R, G, B, A> {
    open spec fn index_req(&self, i: &usize) -> bool {
        *i < 4
    }
}

impl<T: Copy, const R: usize, const G: usize, const B: usize, const A: usize> From<[T; 4]> for Rgba<T, R, G, B, A> {
    fn from(array: [T; 4]) -> (pix: Self) {
        Rgba(array)
    }
}

impl<T: Copy, const R: usize, const G: usize, const B: usize, const A: usize> vstd::std_specs::convert::FromSpecImpl<[T; 4]> for Rgba<T, R, G, B, A> {
    open spec fn obeys_from_spec() -> bool {
        true
    }

    open spec fn from_spec(array: [T; 4]) -> Self {
        Rgba(array)
    }
}

} // verus!

//! YUV 4:2:2 macropixels.
//!
//! A macropixel holds the luma of two neighbouring image pixels and one pair of chroma values
//! that both of them share.

use crate::error::Error;
use crate::layout::{arrange4, is_order4, place4};
use crate::layout::{lemma_place4, lemma_place4_same};
use crate::traits::{Macropixel, MapPixels, Pixel};
use crate::yuv::yuv::Yuv;
use vstd::prelude::*;

verus! {

/// YUV 4:2:2 macropixel
///
/// `Y0` and `Y1` are the places of the luma of the first and of the second image pixel, `U`
/// and `V` those of the chroma that the two share.
#[derive(Debug, Clone, Copy, PartialEq, Eq)]
pub struct Yuv422<T, const Y0: usize, const Y1: usize, const U: usize, const V: usize>(pub [T; 4]);

/// YUV 4:2:2 in the order luma, blue chroma, luma, red chroma
pub type Yuyv<T> = Yuv422<T, 0, 2, 1, 3>;

/// YUV 4:2:2 in the order blue chroma, luma, red chroma, luma
pub type Uyvy<T> = Yuv422<T, 1, 3, 0, 2>;

impl<T: Copy, const Y0: usize, const Y1: usize, const U: usize, const V: usize> Yuv422<T, Y0, Y1, U, V> {
    /// Whether the places of the channels are an order.
    pub open spec fn valid() -> bool {
        is_order4(Y0, Y1, U, V)
    }

    /// The macropixel of the given two luma values and chroma.
    pub open spec fn of(y0: T, y1: T, u: T, v: T) -> Self {
        Yuv422(place4(Y0, Y1, U, V, y0, y1, u, v))
    }

    /// The luma of the first image pixel.
    pub open spec fn spec_y0(self) -> T {
        self.0[Y0 as int]
    }

    /// The luma of the second image pixel.
    pub open spec fn spec_y1(self) -> T {
        self.0[Y1 as int]
    }

    /// The blue chroma of both image pixels.
    pub open spec fn spec_u(self) -> T {
        self.0[U as int]
    }

    /// The red chroma of both image pixels.
    pub open spec fn spec_v(self) -> T {
        self.0[V as int]
    }

    /// The macropixel of two image pixels: the luma of each, and the chroma of the first. The
    /// chroma of the second is lost.
    pub open spec fn pair_merged(first: Yuv<T, 0, 1, 2>, second: Yuv<T, 0, 1, 2>) -> Self {
        Self::of(first.y(), second.y(), first.u(), first.v())
    }

    /// The two image pixels of the macropixel: each has its own luma and the chroma of the
    /// macropixel.
    pub open spec fn pair_split(self) -> [Yuv<T, 0, 1, 2>; 2] {
        [
            Yuv::<T, 0, 1, 2>::of(self.y0(), self.u(), self.v()),
            Yuv::<T, 0, 1, 2>::of(self.y1(), self.u(), self.v()),
        ]
    }

    /// Returns a new pixel
    pub fn new(channels: [T; 4]) -> (pix: Self)
        ensures
            pix.0 == channels,
    {
        Yuv422(channels)
    }

    /// Returns the macropixel of the given two luma values and chroma.
    pub fn from_yyuv(y0: T, y1: T, u: T, v: T) -> (pix: Self)
        requires
            Self::valid(),
        ensures
            pix == Self::of(y0, y1, u, v),
    {
        Yuv422(arrange4(Y0, Y1, U, V, y0, y1, u, v))
    }

    /// The luma of the first image pixel.
    #[verifier::when_used_as_spec(spec_y0)]
    pub fn y0(self) -> (v: T)
        requires
            Self::valid(),
        ensures
            v == self.spec_y0(),
    {
        self.0[Y0]
    }

    /// The luma of the second image pixel.
    #[verifier::when_used_as_spec(spec_y1)]
    pub fn y1(self) -> (v: T)
        requires
            Self::valid(),
        ensures
            v == self.spec_y1(),
    {
        self.0[Y1]
    }

    /// The blue chroma of both image pixels.
    #[verifier::when_used_as_spec(spec_u)]
    pub fn u(self) -> (v: T)
        requires
            Self::valid(),
        ensures
            v == self.spec_u(),
    {
        self.0[U]
    }

    /// The red chroma of both image pixels.
    #[verifier::when_used_as_spec(spec_v)]
    pub fn v(self) -> (v: T)
        requires
            Self::valid(),
        ensures
            v == self.spec_v(),
    {
        self.0[V]
    }

    /// Packs two image pixels into one macropixel.
    pub fn merge(pair: [Yuv<T, 0, 1, 2>; 2]) -> (pix: Self)
        requires
            Self::valid(),
        ensures
            pix == Self::pair_merged(pair[0], pair[1]),
    {
        Self::from_yyuv(pair[0].y(), pair[1].y(), pair[0].u(), pair[0].v())
    }

    /// Unpacks the two image pixels of a macropixel.
    pub fn unmerge(self) -> (pair: [Yuv<T, 0, 1, 2>; 2])
        requires
            Self::valid(),
        ensures
            pair == self.pair_split(),
    {
        let pair = [
            Yuv::<T, 0, 1, 2>::from_yuv(self.y0(), self.u(), self.v()),
            Yuv::<T, 0, 1, 2>::from_yuv(self.y1(), self.u(), self.v()),
        ];
        pair
    }

    /// A macropixel holds what it was made of, and is the macropixel of what it holds.
    pub proof fn lemma_of(y0: T, y1: T, u: T, v: T, pix: Self)
        requires
            Self::valid(),
        ensures
            Self::of(y0, y1, u, v).y0() == y0,
            Self::of(y0, y1, u, v).y1() == y1,
            Self::of(y0, y1, u, v).u() == u,
            Self::of(y0, y1, u, v).v() == v,
            Self::of(pix.y0(), pix.y1(), pix.u(), pix.v()) == pix,
    {
        lemma_place4(Y0, Y1, U, V, y0, y1, u, v);
        lemma_place4_same(Y0, Y1, U, V, pix.0);
    }

    /// Two image pixels that are packed into a macropixel and unpacked again keep their luma,
    /// and both come back with the chroma of the first.
    pub proof fn lemma_merge_then_split(first: Yuv<T, 0, 1, 2>, second: Yuv<T, 0, 1, 2>)
        requires
            Self::valid(),
        ensures
            ({
                let pair = Self::pair_merged(first, second).pair_split();
                &&& pair[0] == first
                &&& pair[1].y() == second.y()
                &&& pair[1].u() == first.u()
                &&& pair[1].v() == first.v()
                &&& pair[1] == Yuv::<T, 0, 1, 2>::of(second.y(), first.u(), first.v())
            }),
    {
        let merged = Self::pair_merged(first, second);
        Self::lemma_of(first.y(), second.y(), first.u(), first.v(), merged);
        Yuv::<T, 0, 1, 2>::lemma_of(second.y(), first.u(), first.v(), first);
    }

    /// A macropixel that is unpacked into its two image pixels and packed again is the
    /// macropixel it was.
    pub proof fn lemma_split_then_merge(pix: Self)
        requires
            Self::valid(),
        ensures
            Self::pair_merged(pix.pair_split()[0], pix.pair_split()[1]) == pix,
    {
        Yuv::<T, 0, 1, 2>::lemma_of(pix.y0(), pix.u(), pix.v(), pix.pair_split()[0]);
        Yuv::<T, 0, 1, 2>::lemma_of(pix.y1(), pix.u(), pix.v(), pix.pair_split()[1]);
        Self::lemma_of(pix.y0(), pix.y1(), pix.u(), pix.v(), pix);
    }
}

impl<T: Copy, const Y0: usize, const Y1: usize, const U: usize, const V: usize> Pixel for Yuv422<T, Y0, Y1, U, V> {
    type T = T;

    open spec fn spec_channels() -> u8 {
        4
    }

    open spec fn spec_subpixels() -> u8 {
        2
    }

    open spec fn values(self) -> Seq<T> {
        self.0@
    }

    open spec fn from_values(values: Seq<T>) -> Self {
        Yuv422([values[0], values[1], values[2], values[3]])
    }

    proof fn lemma_shape() {
    }

    proof fn lemma_values(self) {
        assert(Self::from_values(self.values()).0 =~= self.0);
    }

    proof fn lemma_from_values(values: Seq<T>) {
    }

    fn channels() -> (n: u8) {
        4
    }

    fn subpixels() -> (n: u8) {
        2
    }

    fn try_from(raw: &[T]) -> (pix: Result<Self, Error>) {
        if raw.len() != 4 {
            return Err(Error::OutOfBounds);
        }
        Ok(Yuv422([raw[0], raw[1], raw[2], raw[3]]))
    }

    fn at(&self, i: usize) -> (v: T) {
        self.0[i]
    }
}

impl<T: Copy, const Y0: usize, const Y1: usize, const U: usize, const V: usize> Macropixel for Yuv422<T, Y0, Y1, U, V> {
    type Subpixel = Yuv<T, 0, 1, 2>;

    open spec fn well_formed() -> bool {
        Self::valid()
    }

    open spec fn merged(pixels: Seq<Yuv<T, 0, 1, 2>>) -> Self {
        Self::pair_merged(pixels[0], pixels[1])
    }

    open spec fn split(self) -> Seq<Yuv<T, 0, 1, 2>> {
        self.pair_split()@
    }

    fn from_subpixels(pixels: &[Yuv<T, 0, 1, 2>]) -> (pix: Self) {
        Self::merge([pixels[0], pixels[1]])
    }

    fn to_subpixels(&self) -> (pixels: Vec<Yuv<T, 0, 1, 2>>) {
        let pair = self.unmerge();
        let mut pixels = Vec::new();
        pixels.push(pair[0]);
        pixels.push(pair[1]);
        pixels
    }
}

impl<T: Copy, const Y0: usize, const Y1: usize, const U: usize, const V: usize> std::ops::Index<usize> for Yuv422<T, Y0, Y1, U, V> {
    type Output = T;

    fn index(&self, i: usize) -> (v: &T)
        ensures
            *v == self.0[i as int],
    {
        &self.0[i]
    }
}

impl<T: Copy, const Y0: usize, const Y1: usize, const U: usize, const V: usize> vstd::std_specs::core::IndexSpecImpl<usize> for Yuv422<T, Y0, Y1, U, V> {
    open spec fn index_req(&self, i: &usize) -> bool {
        *i < 4
    }
}

impl<T: Copy, const Y0: usize, const Y1: usize, const U: usize, const V: usize> From<[T; 4]> for Yuv422<T, Y0, Y1, U, V> {
    fn from(array: [T; 4]) -> (pix: Self) {
        Yuv422(array)
    }
}

impl<T: Copy, const Y0: usize, const Y1: usize, const U: usize, const V: usize> vstd::std_specs::convert::FromSpecImpl<[T; 4]> for Yuv422<T, Y0, Y1, U, V> {
    open spec fn obeys_from_spec() -> bool {
        true
    }

    open spec fn from_spec(array: [T; 4]) -> Self {
        Yuv422(array)
    }
}

// One macropixel becomes two image pixels.
impl<T: Copy, const Y0: usize, const Y1: usize, const U: usize, const V: usize> MapPixels<Yuv422<T, Y0, Y1, U, V>, Yuv<T, 0, 1, 2>> for Yuv422<T, Y0, Y1, U, V> {
    open spec fn written(input_len: nat, output_len: nat) -> nat {
        if input_len < output_len / 2 {
            2 * input_len
        } else {
            2 * (output_len / 2)
        }
    }

    open spec fn mappable(input: Seq<Yuv422<T, Y0, Y1, U, V>>, output_len: nat) -> bool {
        Self::valid()
    }

    open spec fn mapped(input: Seq<Yuv422<T, Y0, Y1, U, V>>, k: int) -> Yuv<T, 0, 1, 2> {
        input[k / 2].pair_split()[k % 2]
    }

    proof fn lemma_written(input_len: nat, output_len: nat) {
    }

    fn map_pixels(input: &[Yuv422<T, Y0, Y1, U, V>], output: &mut [Yuv<T, 0, 1, 2>]) {
        let len = output.len();
        let count = if input.len() < len / 2 {
            input.len()
        } else {
            len / 2
        };
        let mut k: usize = 0;
        while k < count
            invariant
                Self::valid(),
                output@.len() == len,
                k <= count,
                count <= input@.len(),
                2 * count <= output@.len(),
                2 * count == <Self as MapPixels<Yuv422<T, Y0, Y1, U, V>, Yuv<T, 0, 1, 2>>>::written(
                    input@.len(),
                    old(output)@.len(),
                ),
                output@.len() == old(output)@.len(),
                forall|j: int|
                    0 <= j < output@.len() ==> output@[j] == if j < 2 * k {
                        input@[j / 2].pair_split()[j % 2]
                    } else {
                        old(output)@[j]
                    },
            decreases count - k,
        {
            let pair = input[k].unmerge();
            output[2 * k] = pair[0];
            output[2 * k + 1] = pair[1];
            k += 1;
        }
    }
}

// Two image pixels become one macropixel.
impl<T: Copy, const Y0: usize, const Y1: usize, const U: usize, const V: usize> MapPixels<Yuv<T, 0, 1, 2>, Yuv422<T, Y0, Y1, U, V>> for Yuv<T, 0, 1, 2> {
    open spec fn written(input_len: nat, output_len: nat) -> nat {
        if input_len / 2 < output_len {
            input_len / 2
        } else {
            output_len
        }
    }

    open spec fn mappable(input: Seq<Yuv<T, 0, 1, 2>>, output_len: nat) -> bool {
        Yuv422::<T, Y0, Y1, U, V>::valid()
    }

    open spec fn mapped(input: Seq<Yuv<T, 0, 1, 2>>, k: int) -> Yuv422<T, Y0, Y1, U, V> {
        Yuv422::<T, Y0, Y1, U, V>::pair_merged(input[2 * k], input[2 * k + 1])
    }

    proof fn lemma_written(input_len: nat, output_len: nat) {
    }

    fn map_pixels(input: &[Yuv<T, 0, 1, 2>], output: &mut [Yuv422<T, Y0, Y1, U, V>]) {
        let len = input.len();
        let count = if len / 2 < output.len() {
            len / 2
        } else {
            output.len()
        };
        let mut k: usize = 0;
        while k < count
            invariant
                Yuv422::<T, Y0, Y1, U, V>::valid(),
                input@.len() == len,
                k <= count,
                2 * count <= input@.len(),
                count <= output@.len(),
                count == <Self as MapPixels<Yuv<T, 0, 1, 2>, Yuv422<T, Y0, Y1, U, V>>>::written(
                    input@.len(),
                    old(output)@.len(),
                ),
                output@.len() == old(output)@.len(),
                forall|j: int|
                    0 <= j < output@.len() ==> output@[j] == if j < k {
                        Yuv422::<T, Y0, Y1, U, V>::pair_merged(input@[2 * j], input@[2 * j + 1])
                    } else {
                        old(output)@[j]
                    },
            decreases count - k,
        {
            output[k] = Yuv422::<T, Y0, Y1, U, V>::merge([input[2 * k], input[2 * k + 1]]);
            k += 1;
        }
    }
}

/// Two image pixels become one YUYV macropixel: the luma of each, and the chroma of the first.
impl<T: Copy> From<[Yuv<T, 0, 1, 2>; 2]> for Yuv422<T, 0, 2, 1, 3> {
    fn from(src: [Yuv<T, 0, 1, 2>; 2]) -> (dst: Self) {
        Self::merge(src)
    }
}

impl<T: Copy> vstd::std_specs::convert::FromSpecImpl<[Yuv<T, 0, 1, 2>; 2]> for Yuv422<T, 0, 2, 1, 3> {
    open spec fn obeys_from_spec() -> bool {
        true
    }

    open spec fn from_spec(src: [Yuv<T, 0, 1, 2>; 2]) -> Self {
        Self::pair_merged(src[0], src[1])
    }
}

/// A YUYV macropixel becomes its two image pixels.
impl<T: Copy> From<Yuv422<T, 0, 2, 1, 3>> for [Yuv<T, 0, 1, 2>; 2] {
    fn from(src: Yuv422<T, 0, 2, 1, 3>) -> (dst: Self) {
        src.unmerge()
    }
}

impl<T: Copy> vstd::std_specs::convert::FromSpecImpl<Yuv422<T, 0, 2, 1, 3>> for [Yuv<T, 0, 1, 2>; 2] {
    open spec fn obeys_from_spec() -> bool {
        true
    }

    open spec fn from_spec(src: Yuv422<T, 0, 2, 1, 3>) -> Self {
        src.pair_split()
    }
}

/// Two image pixels become one UYVY macropixel: the luma of each, and the chroma of the first.
impl<T: Copy> From<[Yuv<T, 0, 1, 2>; 2]> for Yuv422<T, 1, 3, 0, 2> {
    fn from(src: [Yuv<T, 0, 1, 2>; 2]) -> (dst: Self) {
        Self::merge(src)
    }
}

impl<T: Copy> vstd::std_specs::convert::FromSpecImpl<[Yuv<T, 0, 1, 2>; 2]> for Yuv422<T, 1, 3, 0, 2> {
    open spec fn obeys_from_spec() -> bool {
        true
    }

    open spec fn from_spec(src: [Yuv<T, 0, 1, 2>; 2]) -> Self {
        Self::pair_merged(src[0], src[1])
    }
}

/// A UYVY macropixel becomes its two image pixels.
impl<T: Copy> From<Yuv422<T, 1, 3, 0, 2>> for [Yuv<T, 0, 1, 2>; 2] {
    fn from(src: Yuv422<T, 1, 3, 0, 2>) -> (dst: Self) {
        src.unmerge()
    }
}

impl<T: Copy> vstd::std_specs::convert::FromSpecImpl<Yuv422<T, 1, 3, 0, 2>> for [Yuv<T, 0, 1, 2>; 2] {
    open spec fn obeys_from_spec() -> bool {
        true
    }

    open spec fn from_spec(src: Yuv422<T, 1, 3, 0, 2>) -> Self {
        src.pair_split()
    }
}

} // verus!

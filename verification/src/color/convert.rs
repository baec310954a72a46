//! The rules between gray and RGB pixels.
//!
//! Between two RGB formats a rule moves each channel to its place in the other format. Where
//! the destination has an alpha channel that the source lacks, alpha becomes the largest value
//! of the storage type; where the source has one that the destination lacks, it is dropped.
//! A gray pixel becomes the colour whose three channels hold its luma, and a colour becomes the
//! gray pixel of its luma.

use crate::color::gray::Gray;
use crate::color::rgb::{luma, luma_of, Rgb, Rgba};
use crate::layout::{lemma_place3, lemma_place4};
use crate::storage::Channel;
use crate::traits::FromPixel;
use vstd::prelude::*;

verus! {

impl<T: Copy, const R: usize, const G: usize, const B: usize> FromPixel<Gray<T>> for Rgb<T, R, G, B> {
    open spec fn convertible(src: Gray<T>) -> bool {
        true
    }

    open spec fn converted(src: Gray<T>) -> Self {
        Rgb([src.luma(), src.luma(), src.luma()])
    }

    fn from_pixel(src: Gray<T>) -> (dst: Self) {
        let l = src.0[0];
        Rgb([l, l, l])
    }
}

impl<T: Channel, const R: usize, const G: usize, const B: usize, const A: usize> FromPixel<Gray<T>> for Rgba<T, R, G, B, A> {
    open spec fn convertible(src: Gray<T>) -> bool {
        Self::valid()
    }

    open spec fn converted(src: Gray<T>) -> Self {
        Self::of(src.luma(), src.luma(), src.luma(), T::of_value(T::limit()))
    }

    fn from_pixel(src: Gray<T>) -> (dst: Self) {
        let l = src.0[0];
        Self::from_rgba(l, l, l, T::max_value())
    }
}

impl<T: Copy, const R: usize, const G: usize, const B: usize, const R2: usize, const G2: usize, const B2: usize> FromPixel<Rgb<T, R2, G2, B2>> for Rgb<T, R, G, B> {
    open spec fn convertible(src: Rgb<T, R2, G2, B2>) -> bool {
        Self::valid() && Rgb::<T, R2, G2, B2>::valid()
    }

    open spec fn converted(src: Rgb<T, R2, G2, B2>) -> Self {
        Self::of(src.red(), src.green(), src.blue())
    }

    fn from_pixel(src: Rgb<T, R2, G2, B2>) -> (dst: Self) {
        Self::from_rgb(src.red(), src.green(), src.blue())
    }
}

impl<T: Copy, const R: usize, const G: usize, const B: usize, const R2: usize, const G2: usize, const B2: usize, const A2: usize> FromPixel<Rgba<T, R2, G2, B2, A2>> for Rgb<T, R, G, B> {
    open spec fn convertible(src: Rgba<T, R2, G2, B2, A2>) -> bool {
        Self::valid() && Rgba::<T, R2, G2, B2, A2>::valid()
    }

    open spec fn converted(src: Rgba<T, R2, G2, B2, A2>) -> Self {
        Self::of(src.red(), src.green(), src.blue())
    }

    fn from_pixel(src: Rgba<T, R2, G2, B2, A2>) -> (dst: Self) {
        Self::from_rgb(src.red(), src.green(), src.blue())
    }
}

impl<T: Channel, const R: usize, const G: usize, const B: usize, const A: usize, const R2: usize, const G2: usize, const B2: usize> FromPixel<Rgb<T, R2, G2, B2>> for Rgba<T, R, G, B, A> {
    open spec fn convertible(src: Rgb<T, R2, G2, B2>) -> bool {
        Self::valid() && Rgb::<T, R2, G2, B2>::valid()
    }

    open spec fn converted(src: Rgb<T, R2, G2, B2>) -> Self {
        Self::of(src.red(), src.green(), src.blue(), T::of_value(T::limit()))
    }

    fn from_pixel(src: Rgb<T, R2, G2, B2>) -> (dst: Self) {
        Self::from_rgba(src.red(), src.green(), src.blue(), T::max_value())
    }
}

impl<T: Copy, const R: usize, const G: usize, const B: usize, const A: usize, const R2: usize, const G2: usize, const B2: usize, const A2: usize> FromPixel<Rgba<T, R2, G2, B2, A2>> for Rgba<T, R, G, B, A> {
    open spec fn convertible(src: Rgba<T, R2, G2, B2, A2>) -> bool {
        Self::valid() && Rgba::<T, R2, G2, B2, A2>::valid()
    }

    open spec fn converted(src: Rgba<T, R2, G2, B2, A2>) -> Self {
        Self::of(src.red(), src.green(), src.blue(), src.alpha())
    }

    fn from_pixel(src: Rgba<T, R2, G2, B2, A2>) -> (dst: Self) {
        Self::from_rgba(src.red(), src.green(), src.blue(), src.alpha())
    }
}

impl<T: Channel, const R: usize, const G: usize, const B: usize> FromPixel<Rgb<T, R, G, B>> for Gray<T> {
    open spec fn convertible(src: Rgb<T, R, G, B>) -> bool {
        Rgb::<T, R, G, B>::valid()
    }

    open spec fn converted(src: Rgb<T, R, G, B>) -> Self {
        Gray::of_luma(
            T::of_value(luma_of(src.red().value(), src.green().value(), src.blue().value())),
        )
    }

    fn from_pixel(src: Rgb<T, R, G, B>) -> (dst: Self) {
        Gray([luma(src.red(), src.green(), src.blue())])
    }
}

impl<T: Channel, const R: usize, const G: usize, const B: usize, const A: usize> FromPixel<Rgba<T, R, G, B, A>> for Gray<T> {
    open spec fn convertible(src: Rgba<T, R, G, B, A>) -> bool {
        Rgba::<T, R, G, B, A>::valid()
    }

    open spec fn converted(src: Rgba<T, R, G, B, A>) -> Self {
        Gray::of_luma(
            T::of_value(luma_of(src.red().value(), src.green().value(), src.blue().value())),
        )
    }

    fn from_pixel(src: Rgba<T, R, G, B, A>) -> (dst: Self) {
        Gray([luma(src.red(), src.green(), src.blue())])
    }
}

/// Between two RGB formats the way there and back gives every pixel back as it was: the rule
/// only moves channels.
pub proof fn lemma_rgb_there_and_back<T: Copy, const R: usize, const G: usize, const B: usize, const R2: usize, const G2: usize, const B2: usize>(pix: Rgb<T, R, G, B>)
    requires
        Rgb::<T, R, G, B>::valid(),
        Rgb::<T, R2, G2, B2>::valid(),
    ensures
        Rgb::<T, R, G, B>::converted(Rgb::<T, R2, G2, B2>::converted(pix)) == pix,
{
    let there = Rgb::<T, R2, G2, B2>::converted(pix);
    Rgb::<T, R2, G2, B2>::lemma_of(pix.red(), pix.green(), pix.blue(), there);
    Rgb::<T, R, G, B>::lemma_of(pix.red(), pix.green(), pix.blue(), pix);
}

/// Between two RGB formats with alpha the way there and back gives every pixel back as it
/// was.
pub proof fn lemma_rgba_there_and_back<T: Copy, const R: usize, const G: usize, const B: usize, const A: usize, const R2: usize, const G2: usize, const B2: usize, const A2: usize>(pix: Rgba<T, R, G, B, A>)
    requires
        Rgba::<T, R, G, B, A>::valid(),
        Rgba::<T, R2, G2, B2, A2>::valid(),
    ensures
        Rgba::<T, R, G, B, A>::converted(Rgba::<T, R2, G2, B2, A2>::converted(pix)) == pix,
{
    let there = Rgba::<T, R2, G2, B2, A2>::converted(pix);
    Rgba::<T, R2, G2, B2, A2>::lemma_of(pix.red(), pix.green(), pix.blue(), pix.alpha(), there);
    Rgba::<T, R, G, B, A>::lemma_of(pix.red(), pix.green(), pix.blue(), pix.alpha(), pix);
}

/// A colour that gains an alpha channel keeps red, green and blue, and its alpha is the
/// largest value of the storage type.
pub proof fn lemma_rgb_gains_alpha<T: Channel, const R: usize, const G: usize, const B: usize, const A: usize, const R2: usize, const G2: usize, const B2: usize>(pix: Rgb<T, R2, G2, B2>)
    requires
        Rgba::<T, R, G, B, A>::valid(),
        Rgb::<T, R2, G2, B2>::valid(),
    ensures
        Rgba::<T, R, G, B, A>::converted(pix).alpha().value() == T::limit(),
        Rgba::<T, R, G, B, A>::converted(pix).red() == pix.red(),
        Rgba::<T, R, G, B, A>::converted(pix).green() == pix.green(),
        Rgba::<T, R, G, B, A>::converted(pix).blue() == pix.blue(),
{
    T::lemma_limit_bounds();
    T::lemma_of_value(T::limit());
    lemma_place4(R, G, B, A, pix.red(), pix.green(), pix.blue(), T::of_value(T::limit()));
}

/// A gray pixel that becomes a colour with alpha has its luma in red, green and blue, and its
/// alpha is the largest value of the storage type.
pub proof fn lemma_gray_gains_alpha<T: Channel, const R: usize, const G: usize, const B: usize, const A: usize>(pix: Gray<T>)
    requires
        Rgba::<T, R, G, B, A>::valid(),
    ensures
        Rgba::<T, R, G, B, A>::converted(pix).alpha().value() == T::limit(),
        Rgba::<T, R, G, B, A>::converted(pix).red() == pix.luma(),
        Rgba::<T, R, G, B, A>::converted(pix).green() == pix.luma(),
        Rgba::<T, R, G, B, A>::converted(pix).blue() == pix.luma(),
{
    T::lemma_limit_bounds();
    T::lemma_of_value(T::limit());
    lemma_place4(R, G, B, A, pix.luma(), pix.luma(), pix.luma(), T::of_value(T::limit()));
}

/// The gray pixel of a colour whose red, green and blue are equal holds the value of these
/// channels.
pub proof fn lemma_gray_of_equal_channels<T: Channel, const R: usize, const G: usize, const B: usize>(pix: Rgb<T, R, G, B>)
    requires
        Rgb::<T, R, G, B>::valid(),
        pix.red() == pix.green(),
        pix.green() == pix.blue(),
    ensures
        Gray::<T>::converted(pix).luma() == pix.red(),
{
    pix.red().lemma_value();
    crate::color::rgb::lemma_luma_of_gray(pix.red().value());
}

// The rules between the formats in the usual channel orders, as conversions of the standard
// library.

/// A gray pixel becomes the colour whose channels hold its luma.
impl<T: Copy, const R: usize, const G: usize, const B: usize> From<Gray<T>> for Rgb<T, R, G, B> {
    fn from(src: Gray<T>) -> (dst: Self) {
        Self::from_pixel(src)
    }
}

impl<T: Copy, const R: usize, const G: usize, const B: usize> vstd::std_specs::convert::FromSpecImpl<Gray<T>> for Rgb<T, R, G, B> {
    open spec fn obeys_from_spec() -> bool {
        true
    }

    open spec fn from_spec(src: Gray<T>) -> Self {
        <Self as FromPixel<Gray<T>>>::converted(src)
    }
}

/// A gray pixel becomes the RGBA pixel whose colour channels hold its luma, with full alpha.
impl<T: Channel> From<Gray<T>> for Rgba<T, 0, 1, 2, 3> {
    fn from(src: Gray<T>) -> (dst: Self) {
        Self::from_pixel(src)
    }
}

impl<T: Channel> vstd::std_specs::convert::FromSpecImpl<Gray<T>> for Rgba<T, 0, 1, 2, 3> {
    open spec fn obeys_from_spec() -> bool {
        true
    }

    open spec fn from_spec(src: Gray<T>) -> Self {
        <Self as FromPixel<Gray<T>>>::converted(src)
    }
}

/// A gray pixel becomes the BGRA pixel whose colour channels hold its luma, with full alpha.
impl<T: Channel> From<Gray<T>> for Rgba<T, 2, 1, 0, 3> {
    fn from(src: Gray<T>) -> (dst: Self) {
        Self::from_pixel(src)
    }
}

impl<T: Channel> vstd::std_specs::convert::FromSpecImpl<Gray<T>> for Rgba<T, 2, 1, 0, 3> {
    open spec fn obeys_from_spec() -> bool {
        true
    }

    open spec fn from_spec(src: Gray<T>) -> Self {
        <Self as FromPixel<Gray<T>>>::converted(src)
    }
}

/// A BGR pixel becomes the RGB pixel of the same colour.
impl<T: Copy> From<Rgb<T, 2, 1, 0>> for Rgb<T, 0, 1, 2> {
    fn from(src: Rgb<T, 2, 1, 0>) -> (dst: Self) {
        Self::from_pixel(src)
    }
}

impl<T: Copy> vstd::std_specs::convert::FromSpecImpl<Rgb<T, 2, 1, 0>> for Rgb<T, 0, 1, 2> {
    open spec fn obeys_from_spec() -> bool {
        true
    }

    open spec fn from_spec(src: Rgb<T, 2, 1, 0>) -> Self {
        <Self as FromPixel<Rgb<T, 2, 1, 0>>>::converted(src)
    }
}

/// An RGB pixel becomes the BGR pixel of the same colour.
impl<T: Copy> From<Rgb<T, 0, 1, 2>> for Rgb<T, 2, 1, 0> {
    fn from(src: Rgb<T, 0, 1, 2>) -> (dst: Self) {
        Self::from_pixel(src)
    }
}

impl<T: Copy> vstd::std_specs::convert::FromSpecImpl<Rgb<T, 0, 1, 2>> for Rgb<T, 2, 1, 0> {
    open spec fn obeys_from_spec() -> bool {
        true
    }

    open spec fn from_spec(src: Rgb<T, 0, 1, 2>) -> Self {
        <Self as FromPixel<Rgb<T, 0, 1, 2>>>::converted(src)
    }
}

/// A BGRA pixel becomes the RGBA pixel of the same colour and alpha.
impl<T: Copy> From<Rgba<T, 2, 1, 0, 3>> for Rgba<T, 0, 1, 2, 3> {
    fn from(src: Rgba<T, 2, 1, 0, 3>) -> (dst: Self) {
        Self::from_pixel(src)
    }
}

impl<T: Copy> vstd::std_specs::convert::FromSpecImpl<Rgba<T, 2, 1, 0, 3>> for Rgba<T, 0, 1, 2, 3> {
    open spec fn obeys_from_spec() -> bool {
        true
    }

    open spec fn from_spec(src: Rgba<T, 2, 1, 0, 3>) -> Self {
        <Self as FromPixel<Rgba<T, 2, 1, 0, 3>>>::converted(src)
    }
}

/// An RGBA pixel becomes the BGRA pixel of the same colour and alpha.
impl<T: Copy> From<Rgba<T, 0, 1, 2, 3>> for Rgba<T, 2, 1, 0, 3> {
    fn from(src: Rgba<T, 0, 1, 2, 3>) -> (dst: Self) {
        Self::from_pixel(src)
    }
}

impl<T: Copy> vstd::std_specs::convert::FromSpecImpl<Rgba<T, 0, 1, 2, 3>> for Rgba<T, 2, 1, 0, 3> {
    open spec fn obeys_from_spec() -> bool {
        true
    }

    open spec fn from_spec(src: Rgba<T, 0, 1, 2, 3>) -> Self {
        <Self as FromPixel<Rgba<T, 0, 1, 2, 3>>>::converted(src)
    }
}

/// An RGB pixel becomes the RGBA pixel of the same colour, with full alpha.
impl<T: Channel> From<Rgb<T, 0, 1, 2>> for Rgba<T, 0, 1, 2, 3> {
    fn from(src: Rgb<T, 0, 1, 2>) -> (dst: Self) {
        Self::from_pixel(src)
    }
}

impl<T: Channel> vstd::std_specs::convert::FromSpecImpl<Rgb<T, 0, 1, 2>> for Rgba<T, 0, 1, 2, 3> {
    open spec fn obeys_from_spec() -> bool {
        true
    }

    open spec fn from_spec(src: Rgb<T, 0, 1, 2>) -> Self {
        <Self as FromPixel<Rgb<T, 0, 1, 2>>>::converted(src)
    }
}

/// An RGB pixel becomes the BGRA pixel of the same colour, with full alpha.
impl<T: Channel> From<Rgb<T, 0, 1, 2>> for Rgba<T, 2, 1, 0, 3> {
    fn from(src: Rgb<T, 0, 1, 2>) -> (dst: Self) {
        Self::from_pixel(src)
    }
}

impl<T: Channel> vstd::std_specs::convert::FromSpecImpl<Rgb<T, 0, 1, 2>> for Rgba<T, 2, 1, 0, 3> {
    open spec fn obeys_from_spec() -> bool {
        true
    }

    open spec fn from_spec(src: Rgb<T, 0, 1, 2>) -> Self {
        <Self as FromPixel<Rgb<T, 0, 1, 2>>>::converted(src)
    }
}

/// A BGR pixel becomes the RGBA pixel of the same colour, with full alpha.
impl<T: Channel> From<Rgb<T, 2, 1, 0>> for Rgba<T, 0, 1, 2, 3> {
    fn from(src: Rgb<T, 2, 1, 0>) -> (dst: Self) {
        Self::from_pixel(src)
    }
}

impl<T: Channel> vstd::std_specs::convert::FromSpecImpl<Rgb<T, 2, 1, 0>> for Rgba<T, 0, 1, 2, 3> {
    open spec fn obeys_from_spec() -> bool {
        true
    }

    open spec fn from_spec(src: Rgb<T, 2, 1, 0>) -> Self {
        <Self as FromPixel<Rgb<T, 2, 1, 0>>>::converted(src)
    }
}

/// A BGR pixel becomes the BGRA pixel of the same colour, with full alpha.
impl<T: Channel> From<Rgb<T, 2, 1, 0>> for Rgba<T, 2, 1, 0, 3> {
    fn from(src: Rgb<T, 2, 1, 0>) -> (dst: Self) {
        Self::from_pixel(src)
    }
}

impl<T: Channel> vstd::std_specs::convert::FromSpecImpl<Rgb<T, 2, 1, 0>> for Rgba<T, 2, 1, 0, 3> {
    open spec fn obeys_from_spec() -> bool {
        true
    }

    open spec fn from_spec(src: Rgb<T, 2, 1, 0>) -> Self {
        <Self as FromPixel<Rgb<T, 2, 1, 0>>>::converted(src)
    }
}

/// An RGBA pixel becomes the RGB pixel of the same colour; its alpha is dropped.
impl<T: Copy> From<Rgba<T, 0, 1, 2, 3>> for Rgb<T, 0, 1, 2> {
    fn from(src: Rgba<T, 0, 1, 2, 3>) -> (dst: Self) {
        Self::from_pixel(src)
    }
}

impl<T: Copy> vstd::std_specs::convert::FromSpecImpl<Rgba<T, 0, 1, 2, 3>> for Rgb<T, 0, 1, 2> {
    open spec fn obeys_from_spec() -> bool {
        true
    }

    open spec fn from_spec(src: Rgba<T, 0, 1, 2, 3>) -> Self {
        <Self as FromPixel<Rgba<T, 0, 1, 2, 3>>>::converted(src)
    }
}

/// An RGBA pixel becomes the BGR pixel of the same colour; its alpha is dropped.
impl<T: Copy> From<Rgba<T, 0, 1, 2, 3>> for Rgb<T, 2, 1, 0> {
    fn from(src: Rgba<T, 0, 1, 2, 3>) -> (dst: Self) {
        Self::from_pixel(src)
    }
}

impl<T: Copy> vstd::std_specs::convert::FromSpecImpl<Rgba<T, 0, 1, 2, 3>> for Rgb<T, 2, 1, 0> {
    open spec fn obeys_from_spec() -> bool {
        true
    }

    open spec fn from_spec(src: Rgba<T, 0, 1, 2, 3>) -> Self {
        <Self as FromPixel<Rgba<T, 0, 1, 2, 3>>>::converted(src)
    }
}

/// A BGRA pixel becomes the RGB pixel of the same colour; its alpha is dropped.
impl<T: Copy> From<Rgba<T, 2, 1, 0, 3>> for Rgb<T, 0, 1, 2> {
    fn from(src: Rgba<T, 2, 1, 0, 3>) -> (dst: Self) {
        Self::from_pixel(src)
    }
}

impl<T: Copy> vstd::std_specs::convert::FromSpecImpl<Rgba<T, 2, 1, 0, 3>> for Rgb<T, 0, 1, 2> {
    open spec fn obeys_from_spec() -> bool {
        true
    }

    open spec fn from_spec(src: Rgba<T, 2, 1, 0, 3>) -> Self {
        <Self as FromPixel<Rgba<T, 2, 1, 0, 3>>>::converted(src)
    }
}

/// A BGRA pixel becomes the BGR pixel of the same colour; its alpha is dropped.
impl<T: Copy> From<Rgba<T, 2, 1, 0, 3>> for Rgb<T, 2, 1, 0> {
    fn from(src: Rgba<T, 2, 1, 0, 3>) -> (dst: Self) {
        Self::from_pixel(src)
    }
}

impl<T: Copy> vstd::std_specs::convert::FromSpecImpl<Rgba<T, 2, 1, 0, 3>> for Rgb<T, 2, 1, 0> {
    open spec fn obeys_from_spec() -> bool {
        true
    }

    open spec fn from_spec(src: Rgba<T, 2, 1, 0, 3>) -> Self {
        <Self as FromPixel<Rgba<T, 2, 1, 0, 3>>>::converted(src)
    }
}

/// An RGB pixel becomes the gray pixel of its luma.
impl<T: Channel> From<Rgb<T, 0, 1, 2>> for Gray<T> {
    fn from(src: Rgb<T, 0, 1, 2>) -> (dst: Self) {
        Self::from_pixel(src)
    }
}

impl<T: Channel> vstd::std_specs::convert::FromSpecImpl<Rgb<T, 0, 1, 2>> for Gray<T> {
    open spec fn obeys_from_spec() -> bool {
        true
    }

    open spec fn from_spec(src: Rgb<T, 0, 1, 2>) -> Self {
        <Self as FromPixel<Rgb<T, 0, 1, 2>>>::converted(src)
    }
}

/// A BGR pixel becomes the gray pixel of its luma.
impl<T: Channel> From<Rgb<T, 2, 1, 0>> for Gray<T> {
    fn from(src: Rgb<T, 2, 1, 0>) -> (dst: Self) {
        Self::from_pixel(src)
    }
}

impl<T: Channel> vstd::std_specs::convert::FromSpecImpl<Rgb<T, 2, 1, 0>> for Gray<T> {
    open spec fn obeys_from_spec() -> bool {
        true
    }

    open spec fn from_spec(src: Rgb<T, 2, 1, 0>) -> Self {
        <Self as FromPixel<Rgb<T, 2, 1, 0>>>::converted(src)
    }
}

/// An RGBA pixel becomes the gray pixel of its luma.
impl<T: Channel> From<Rgba<T, 0, 1, 2, 3>> for Gray<T> {
    fn from(src: Rgba<T, 0, 1, 2, 3>) -> (dst: Self) {
        Self::from_pixel(src)
    }
}

impl<T: Channel> vstd::std_specs::convert::FromSpecImpl<Rgba<T, 0, 1, 2, 3>> for Gray<T> {
    open spec fn obeys_from_spec() -> bool {
        true
    }

    open spec fn from_spec(src: Rgba<T, 0, 1, 2, 3>) -> Self {
        <Self as FromPixel<Rgba<T, 0, 1, 2, 3>>>::converted(src)
    }
}

/// A BGRA pixel becomes the gray pixel of its luma.
impl<T: Channel> From<Rgba<T, 2, 1, 0, 3>> for Gray<T> {
    fn from(src: Rgba<T, 2, 1, 0, 3>) -> (dst: Self) {
        Self::from_pixel(src)
    }
}

impl<T: Channel> vstd::std_specs::convert::FromSpecImpl<Rgba<T, 2, 1, 0, 3>> for Gray<T> {
    open spec fn obeys_from_spec() -> bool {
        true
    }

    open spec fn from_spec(src: Rgba<T, 2, 1, 0, 3>) -> Self {
        <Self as FromPixel<Rgba<T, 2, 1, 0, 3>>>::converted(src)
    }
}

/// A BGR pixel that is turned into an RGB pixel and back is the pixel it was.
pub proof fn lemma_bgr_rgb_bgr<T: Copy>(pix: Rgb<T, 2, 1, 0>)
    ensures
        <Rgb<T, 2, 1, 0> as vstd::std_specs::convert::FromSpec<Rgb<T, 0, 1, 2>>>::from_spec(
            <Rgb<T, 0, 1, 2> as vstd::std_specs::convert::FromSpec<Rgb<T, 2, 1, 0>>>::from_spec(pix),
        ) == pix,
{
    lemma_rgb_there_and_back::<T, 2, 1, 0, 0, 1, 2>(pix);
}

/// An RGB pixel that is turned into a BGR pixel and back is the pixel it was.
pub proof fn lemma_rgb_bgr_rgb<T: Copy>(pix: Rgb<T, 0, 1, 2>)
    ensures
        <Rgb<T, 0, 1, 2> as vstd::std_specs::convert::FromSpec<Rgb<T, 2, 1, 0>>>::from_spec(
            <Rgb<T, 2, 1, 0> as vstd::std_specs::convert::FromSpec<Rgb<T, 0, 1, 2>>>::from_spec(pix),
        ) == pix,
{
    lemma_rgb_there_and_back::<T, 0, 1, 2, 2, 1, 0>(pix);
}

} // verus!

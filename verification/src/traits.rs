//! The capabilities that pixels share.

use crate::error::Error;
use crate::layout::divided;
use vstd::prelude::*;

verus! {

/// A pixel: a fixed number of channel values of one storage type.
///
/// The number of channels and the number of image pixels that one value stands for belong to
/// the type. A pixel is no more than its channel values in storage order: [`Pixel::values`]
/// and [`Pixel::from_values`] are inverse to each other.
pub trait Pixel: Copy {
    /// The storage type of the channels.
    type T: Copy;

    /// The number of channels of the pixel type.
    spec fn spec_channels() -> u8;

    /// The number of image pixels that one value of the type stands for.
    spec fn spec_subpixels() -> u8;

    /// The channel values in storage order.
    spec fn values(self) -> Seq<Self::T>;

    /// The pixel that holds the given channel values.
    spec fn from_values(values: Seq<Self::T>) -> Self;

    /// A pixel type has at least one channel and stands for at least one image pixel.
    proof fn lemma_shape()
        ensures
            Self::spec_channels() >= 1,
            Self::spec_subpixels() >= 1,
    ;

    /// A pixel holds as many values as its type has channels, and is the pixel of its values.
    proof fn lemma_values(self)
        ensures
            self.values().len() == Self::spec_channels(),
            Self::from_values(self.values()) == self,
    ;

    /// The pixel of a full set of values holds these values.
    proof fn lemma_from_values(values: Seq<Self::T>)
        requires
            values.len() == Self::spec_channels(),
        ensures
            Self::from_values(values).values() == values,
    ;

    /// Number of channels for this pixel
    fn channels() -> (n: u8)
        ensures
            n == Self::spec_channels(),
    ;

    /// Number of image pixels for this pixel
    fn subpixels() -> (n: u8)
        ensures
            n == Self::spec_subpixels(),
    ;

    /// The pixel made of the channel values in `raw`, which must be exactly as many as the
    /// type has channels.
    fn try_from(raw: &[Self::T]) -> (pix: Result<Self, Error>)
        ensures
            pix is Ok <==> raw@.len() == Self::spec_channels(),
            pix is Ok ==> pix->Ok_0 == Self::from_values(raw@),
            pix is Err ==> pix->Err_0 == Error::OutOfBounds,
    ;

    /// The value of channel `i`.
    fn at(&self, i: usize) -> (v: Self::T)
        requires
            i < Self::spec_channels(),
        ensures
            v == self.values()[i as int],
    ;
}

/// A rule that turns a pixel of format `S` into a pixel of this format.
///
/// The rule is a function of the source pixel alone. [`FromPixel::convertible`] says for which
/// sources it exists: a format whose channel order is no arrangement of its channels has no
/// rule, and a number that the storage type cannot hold has no pixel.
pub trait FromPixel<S>: Sized {
    /// Whether the rule has a result for `src`.
    spec fn convertible(src: S) -> bool;

    /// The result of the rule.
    spec fn converted(src: S) -> Self;

    /// Applies the rule.
    fn from_pixel(src: S) -> (dst: Self)
        requires
            Self::convertible(src),
        ensures
            dst == Self::converted(src),
    ;
}

/// A pixel that stands for several image pixels at once.
///
/// Formats with subsampled chroma store a run of neighbouring image pixels in one value. The
/// image pixels of such a value are its subpixels; there are as many of them as
/// [`Pixel::spec_subpixels`] says.
pub trait Macropixel: Pixel {
    /// Type of the image pixel
    type Subpixel: Pixel;

    /// Whether the channel order of the format is an order.
    spec fn well_formed() -> bool;

    /// The macropixel that stands for the given image pixels.
    spec fn merged(pixels: Seq<Self::Subpixel>) -> Self;

    /// The image pixels that the macropixel stands for.
    spec fn split(self) -> Seq<Self::Subpixel>;

    /// Convert image pixels into a macropixel
    fn from_subpixels(pixels: &[Self::Subpixel]) -> (pix: Self)
        requires
            Self::well_formed(),
            pixels@.len() == Self::spec_subpixels(),
        ensures
            pix == Self::merged(pixels@),
    ;

    /// Convert into image pixels
    fn to_subpixels(&self) -> (pixels: Vec<Self::Subpixel>)
        requires
            Self::well_formed(),
        ensures
            pixels@ == self.split(),
            pixels@.len() == Self::spec_subpixels(),
    ;
}

/// Map pixels from one format to another in place
///
/// A rule on rows: it reads the pixels of a source row and writes the pixels of a destination
/// row that stand for the same image pixels. Where one of the rows is too short for the other,
/// the rule goes as far as both reach, and leaves the rest of the destination as it was.
pub trait MapPixels<T, U> {
    /// The number of destination pixels that the rule writes for rows of the given lengths.
    spec fn written(input_len: nat, output_len: nat) -> nat;

    /// Whether the rule has a result for every pixel that it writes.
    spec fn mappable(input: Seq<T>, output_len: nat) -> bool;

    /// The destination pixel in place `k` of its row.
    spec fn mapped(input: Seq<T>, k: int) -> U;

    /// The rule writes no more pixels than the destination has.
    proof fn lemma_written(input_len: nat, output_len: nat)
        ensures
            Self::written(input_len, output_len) <= output_len,
    ;

    /// Converts a number of pixels into a (possibly different) number of pixels with another
    /// format
    fn map_pixels(input: &[T], output: &mut [U])
        requires
            Self::mappable(input@, old(output)@.len()),
        ensures
            final(output)@.len() == old(output)@.len(),
            forall|k: int|
                0 <= k < old(output)@.len() ==> #[trigger] final(output)@[k] == if k
                    < Self::written(input@.len(), old(output)@.len()) {
                    Self::mapped(input@, k)
                } else {
                    old(output)@[k]
                },
    ;
}

/// A destination row after the rule `M` has been applied to a source row: what
/// [`MapPixels::map_pixels`] leaves in `output`.
pub open spec fn map_row<M: MapPixels<T, U> + ?Sized, T, U>(input: Seq<T>, output: Seq<U>) -> Seq<U> {
    Seq::new(
        output.len(),
        |k: int|
            if k < M::written(input.len(), output.len()) {
                M::mapped(input, k)
            } else {
                output[k]
            },
    )
}

// If we know how to convert a single pixel into another one, we can convert between rows of
// them as well. This does not work for macropixels, where one pixel may transform into
// several: those formats have rules of their own.
impl<T: Copy, U: FromPixel<T>> MapPixels<T, U> for T {
    open spec fn written(input_len: nat, output_len: nat) -> nat {
        if input_len < output_len {
            input_len
        } else {
            output_len
        }
    }

    open spec fn mappable(input: Seq<T>, output_len: nat) -> bool {
        forall|k: int|
            0 <= k < <Self as MapPixels<T, U>>::written(input.len(), output_len) ==> U::convertible(
                #[trigger] input[k],
            )
    }

    open spec fn mapped(input: Seq<T>, k: int) -> U {
        U::converted(input[k])
    }

    proof fn lemma_written(input_len: nat, output_len: nat) {
    }

    fn map_pixels(input: &[T], output: &mut [U]) {
        let count = if input.len() < output.len() {
            input.len()
        } else {
            output.len()
        };
        let mut k: usize = 0;
        while k < count
            invariant
                k <= count,
                count == <Self as MapPixels<T, U>>::written(input@.len(), old(output)@.len()),
                output@.len() == old(output)@.len(),
                <Self as MapPixels<T, U>>::mappable(input@, old(output)@.len()),
                forall|j: int|
                    0 <= j < output@.len() ==> output@[j] == if j < k {
                        U::converted(input@[j])
                    } else {
                        old(output)@[j]
                    },
            decreases count - k,
        {
            output[k] = U::from_pixel(input[k]);
            k += 1;
        }
    }
}

/// Whether the image pixels at two coordinates belong to one stored pixel of format `P`: they
/// lie in the same row, in the same run of as many image pixels as the format has subpixels.
pub open spec fn same_stored_pixel<P: Pixel>(x: u32, y: u32, x2: u32, y2: u32) -> bool {
    y == y2 && divided(x as int, P::spec_subpixels() as int) == divided(
        x2 as int,
        P::spec_subpixels() as int,
    )
}

/// View into an image, provides read-only pixel access
pub trait GenericImageView {
    /// Pixel type
    type T: Pixel;

    /// The invariant of the image.
    spec fn valid(&self) -> bool;

    /// Width in pixels
    spec fn width_spec(&self) -> u32;

    /// Height in pixels
    spec fn height_spec(&self) -> u32;

    /// The pixel that holds the image pixel at the given coordinates, where the image has
    /// one.
    spec fn pixel_spec(&self, x: u32, y: u32) -> Option<Self::T>;

    /// An image has no pixel beyond its width or its height.
    proof fn lemma_pixel_in_bounds(&self, x: u32, y: u32)
        requires
            self.valid(),
            x >= self.width_spec() || y >= self.height_spec(),
        ensures
            self.pixel_spec(x, y) is None,
    ;

    /// Width in pixels
    fn width(&self) -> (width: u32)
        ensures
            width == self.width_spec(),
    ;

    /// Height in pixels
    fn height(&self) -> (height: u32)
        ensures
            height == self.height_spec(),
    ;

    /// Returns the pixel at the specified coordinates
    ///
    /// Beyond the width or the height of the image there is no pixel, and None is returned.
    fn pixel(&self, x: u32, y: u32) -> (pix: Option<Self::T>)
        requires
            self.valid(),
        ensures
            pix == self.pixel_spec(x, y),
            x >= self.width_spec() || y >= self.height_spec() ==> pix is None,
    ;
}

/// Buffered image, provides read-write pixel access
pub trait GenericImage: GenericImageView {
    /// Sets the pixel values at the specified coordinates
    ///
    /// Fails with [`Error::OutOfBounds`] where the image has no pixel at the coordinates, and
    /// changes nothing then. Where it succeeds, the pixel is found afterwards at the
    /// coordinates of every image pixel that it stands for, and nowhere else has the image
    /// changed. The width and the height of the image are what they were.
    fn set_pixel(&mut self, x: u32, y: u32, pix: &Self::T) -> (done: Result<(), Error>)
        requires
            old(self).valid(),
        ensures
            final(self).valid(),
            final(self).width_spec() == old(self).width_spec(),
            final(self).height_spec() == old(self).height_spec(),
            done is Ok <==> old(self).pixel_spec(x, y) is Some,
            done is Err ==> done->Err_0 == Error::OutOfBounds,
            forall|x2: u32, y2: u32|
                #[trigger] final(self).pixel_spec(x2, y2) == if done is Ok && old(self).pixel_spec(
                    x2,
                    y2,
                ) is Some && same_stored_pixel::<Self::T>(x, y, x2, y2) {
                    Some(*pix)
                } else {
                    old(self).pixel_spec(x2, y2)
                },
    ;
}

/// Convert between images
///
/// The conversion never fails. A destination that owns its pixels takes the width and the
/// height of the source; one of fixed size is written as far as it and the source overlap.
pub trait Convert<B> {
    /// What the conversion needs of the source and of the destination.
    spec fn convertible_into(&self, output: &B) -> bool;

    /// How the destination after the conversion relates to the source and to the destination
    /// before it.
    spec fn converted_into(&self, before: &B, after: &B) -> bool;

    /// Converts the buffer into another, possibly with a different format
    fn convert(&self, output: &mut B)
        requires
            self.convertible_into(old(output)),
        ensures
            self.converted_into(old(output), final(output)),
    ;
}

/// Convert between images, where the destination may be too small
///
/// The conversion fails with [`Error::TooSmall`] where the destination cannot take the whole
/// source, and writes nothing then.
pub trait TryConvert<B> {
    /// What the conversion needs of the source and of the destination.
    spec fn try_convertible_into(&self, output: &B) -> bool;

    /// Whether the destination can take the whole source.
    spec fn fits_into(&self, output: &B) -> bool;

    /// How the destination after a conversion that took place relates to the source and to
    /// the destination before it.
    spec fn try_converted_into(&self, before: &B, after: &B) -> bool;

    /// Converts the buffer into another, possibly with a different format
    fn try_convert(&self, output: &mut B) -> (done: Result<(), Error>)
        requires
            self.try_convertible_into(old(output)),
        ensures
            done is Ok <==> self.fits_into(old(output)),
            done is Ok ==> self.try_converted_into(old(output), final(output)),
            done is Err ==> done->Err_0 == Error::TooSmall && *final(output) == *old(output),
    ;
}

} // verus!

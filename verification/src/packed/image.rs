//! Images of one pixel format over a buffer of channel values.

use crate::error::Error;
use crate::layout::{lemma_divided, lemma_scaled, divided, scaled};
use crate::packed::buffer::{Buffer, BufferMut};
use crate::packed::matrix::{lemma_product_bounds, patched, Matrix};
use crate::traits::{GenericImage, GenericImageView, Pixel};
use std::marker::PhantomData;
use vstd::prelude::*;

verus! {

/// Image view parametrized by its pixel type
///
/// The image is a matrix of channel values with one row for each row of pixels. A row holds
/// the pixels from left to right, each with its channels in storage order; behind them the row
/// may have padding. A format that stands for several image pixels at once stores one pixel
/// for each full run of them, so that a row of `width` image pixels holds `width` divided by
/// the number of subpixels stored pixels.
#[derive(Debug)]
pub struct Image<P: Pixel, B> {
    raw: Matrix<P::T, B>,
    width: u32,
    height: u32,
    marker: PhantomData<P>,
}

/// A view of pixels that somebody else owns.
pub type ImageView<'a, P> = Image<P, &'a [<P as Pixel>::T]>;

/// A view of pixels that somebody else owns and that can be written.
pub type ImageViewMut<'a, P> = Image<P, &'a mut [<P as Pixel>::T]>;

/// An image that owns its pixels.
pub type ImageBuffer<P> = Image<P, Vec<<P as Pixel>::T>>;

/// The number of pixels that a row of `width` image pixels stores in full. It is also the
/// place in its row of the stored pixel that holds image pixel `width`.
pub open spec fn stored_per_row<P: Pixel>(width: u32) -> int {
    divided(width as int, P::spec_subpixels() as int)
}

/// The number of channel values that a row of `width` image pixels stores.
pub open spec fn min_stride<P: Pixel>(width: u32) -> int {
    scaled(stored_per_row::<P>(width), P::spec_channels() as int)
}

/// Computes the number of channel values that a row of `width` image pixels stores.
pub fn row_values<P: Pixel>(width: u32) -> (n: u64)
    ensures
        n == min_stride::<P>(width),
        n <= 255 * 0xffff_ffff,
{
    proof {
        P::lemma_shape();
        lemma_divided(width as int, P::spec_subpixels() as int);
        lemma_scaled(stored_per_row::<P>(width), P::spec_channels() as int);
    }
    let per_row = width / P::subpixels() as u32;
    assert(per_row * P::spec_channels() <= 0xffff_ffff * 255) by (nonlinear_arith)
        requires
            0 <= per_row <= 0xffff_ffff,
            0 <= P::spec_channels() <= 255,
    ;
    per_row as u64 * P::channels() as u64
}

/// What an image is, apart from who owns its buffer: the mathematical model of [`Image`].
pub struct Grid<T> {
    /// Width in image pixels
    pub width: int,
    /// Height in image pixels
    pub height: int,
    /// The length of one pixel row with its padding, in channel values
    pub stride: int,
    /// The channel values in the buffer
    pub data: Seq<T>,
}

impl<T> Grid<T> {
    /// The number of pixels of format `P` that a row stores.
    pub open spec fn per_row<P: Pixel<T = T>>(self) -> int {
        divided(self.width, P::spec_subpixels() as int)
    }

    /// Where the stored pixel `i` of row `y` starts in the buffer.
    pub open spec fn pixel_start<P: Pixel<T = T>>(self, i: int, y: int) -> int {
        y * self.stride + i * P::spec_channels()
    }

    /// The stored pixel `i` of row `y`.
    pub open spec fn stored<P: Pixel<T = T>>(self, i: int, y: int) -> P {
        P::from_values(
            self.data.subrange(
                self.pixel_start::<P>(i, y),
                self.pixel_start::<P>(i, y) + P::spec_channels(),
            ),
        )
    }

    /// The stored pixels of row `y`.
    pub open spec fn row_pixels<P: Pixel<T = T>>(self, y: int) -> Seq<P> {
        Seq::new(self.per_row::<P>() as nat, |i: int| self.stored::<P>(i, y))
    }

    /// Whether place `k` of the buffer belongs to a stored pixel of row `y`.
    pub open spec fn in_row<P: Pixel<T = T>>(self, k: int, y: int) -> bool {
        self.pixel_start::<P>(0, y) <= k < self.pixel_start::<P>(self.per_row::<P>(), y)
    }

    /// Whether the buffer holds the grid: the stride covers the pixels of a row, and the
    /// buffer the rows.
    pub open spec fn fits<P: Pixel<T = T>>(self) -> bool {
        &&& 0 <= self.width <= u32::MAX
        &&& 0 <= self.height <= u32::MAX
        &&& 0 <= self.per_row::<P>() * P::spec_channels() <= self.stride
        &&& self.height * self.stride <= self.data.len()
    }

    /// The grid of the given width and height without padding, with `value` in every
    /// channel.
    pub open spec fn filled<P: Pixel<T = T>>(width: u32, height: u32, value: T) -> Self {
        Grid {
            width: width as int,
            height: height as int,
            stride: min_stride::<P>(width),
            data: Seq::new((height * min_stride::<P>(width)) as nat, |k: int| value),
        }
    }
}

impl<P: Pixel, B: Buffer<P::T>> Image<P, B> {
    /// The invariant of the image: the matrix has a row for each row of pixels and a column
    /// for each channel value of a row.
    pub closed spec fn wf(&self) -> bool {
        &&& self.raw.wf()
        &&& self.raw.rows() == self.height
        &&& self.raw.cols() == min_stride::<P>(self.width)
    }

    /// Width in pixels
    pub closed spec fn spec_width(&self) -> u32 {
        self.width
    }

    /// Height in pixels
    pub closed spec fn spec_height(&self) -> u32 {
        self.height
    }

    /// The length of one pixel row with its padding, in channel values.
    pub closed spec fn spec_stride(&self) -> usize {
        self.raw.row_stride()
    }

    /// The channel values in the buffer.
    pub closed spec fn data(&self) -> Seq<P::T> {
        self.raw.data()
    }

    /// The image as a grid.
    pub open spec fn grid(&self) -> Grid<P::T> {
        Grid {
            width: self.spec_width() as int,
            height: self.spec_height() as int,
            stride: self.spec_stride() as int,
            data: self.data(),
        }
    }

    /// The number of pixels that a row stores.
    pub open spec fn per_row(&self) -> int {
        self.grid().per_row::<P>()
    }

    /// Where the stored pixel `i` of row `y` starts in the buffer.
    pub open spec fn pixel_start(&self, i: int, y: int) -> int {
        self.grid().pixel_start::<P>(i, y)
    }

    /// The stored pixel `i` of row `y`.
    pub open spec fn stored(&self, i: int, y: int) -> P {
        self.grid().stored::<P>(i, y)
    }

    /// The stored pixels of row `y`.
    pub open spec fn row_pixels(&self, y: int) -> Seq<P> {
        self.grid().row_pixels::<P>(y)
    }

    /// Whether the image stores a pixel for the image pixel at the given coordinates.
    pub open spec fn holds(&self, x: u32, y: u32) -> bool {
        &&& x < self.spec_width()
        &&& y < self.spec_height()
        &&& stored_per_row::<P>(x) < self.per_row()
    }

    /// Whether place `k` of the buffer belongs to a stored pixel of row `y`.
    pub open spec fn in_row(&self, k: int, y: int) -> bool {
        self.grid().in_row::<P>(k, y)
    }

    /// What the invariant says, for those who cannot see the fields: every stored pixel lies
    /// within its row, and every row within the buffer.
    pub proof fn lemma_wf(&self)
        requires
            self.wf(),
        ensures
            self.grid().fits::<P>(),
            0 <= self.per_row() <= self.spec_width(),
            min_stride::<P>(self.spec_width()) <= self.spec_stride(),
            self.spec_height() * self.spec_stride() <= self.data().len(),
            forall|i: int, y: int|
                0 <= i < self.per_row() && 0 <= y < self.spec_height() ==> {
                    &&& y * self.spec_stride() <= #[trigger] self.pixel_start(i, y)
                    &&& self.pixel_start(i, y) + P::spec_channels() <= y * self.spec_stride()
                        + self.spec_stride()
                    &&& self.pixel_start(i, y) + P::spec_channels() <= self.data().len()
                },
    {
        P::lemma_shape();
        self.raw.lemma_wf();
        assert forall|i: int, y: int|
            0 <= i < self.per_row() && 0 <= y < self.spec_height() implies {
            &&& y * self.spec_stride() <= #[trigger] self.pixel_start(i, y)
            &&& self.pixel_start(i, y) + P::spec_channels() <= y * self.spec_stride()
                + self.spec_stride()
            &&& self.pixel_start(i, y) + P::spec_channels() <= self.data().len()
        } by {
            lemma_product_bounds(i, self.per_row() - 1, P::spec_channels() as int);
            lemma_product_bounds(self.per_row() - 1, self.per_row() - 1, P::spec_channels() as int);
            assert(0 <= self.raw.row_start(y));
        }
    }

    /// Decomposes the image and returns the backing buffer
    pub fn into_buf(self) -> (buf: B)
        ensures
            buf.elems() == self.data(),
    {
        self.raw.into_buf()
    }

    /// Returns the length of one pixel row in channel values
    #[verifier::when_used_as_spec(spec_stride)]
    pub fn stride(&self) -> (stride: usize)
        ensures
            stride == self.spec_stride(),
    {
        self.raw.row_stride()
    }

    /// Returns an image view with pixel accessors
    ///
    /// The backing memory storage must have the same element type as the underlying pixel type
    /// of the image. It must hold the pixels of `height` rows at least, or None is returned.
    ///
    /// # Arguments
    ///
    /// * `buf` - Raw memory region to interpret as typed image
    /// * `width` - Width in pixels
    /// * `height` - Height in pixels
    pub fn from_buf(buf: B, width: u32, height: u32) -> (image: Option<Self>)
        ensures
            image is Some <==> min_stride::<P>(width) <= u32::MAX && height * min_stride::<P>(width)
                <= buf.elems().len(),
            buf.elems().len() < height * min_stride::<P>(width) ==> image is None,
            image is Some ==> {
                let image = image->0;
                &&& image.wf()
                &&& image.spec_width() == width
                &&& image.spec_height() == height
                &&& image.spec_stride() == min_stride::<P>(width)
                &&& image.data() == buf.elems()
            },
    {
        let stride = row_values::<P>(width);
        if stride > usize::MAX as u64 {
            proof {
                lemma_product_bounds(0, 0, 0);
            }
            return None;
        }
        Self::from_buf_with_stride(buf, width, height, stride as usize)
    }

    /// Returns an image view with pixel accessors
    ///
    /// The backing memory storage must have the same element type as the underlying pixel type
    /// of the image. The stride must cover the pixels of a row, and the buffer `height` rows
    /// of the stride, or None is returned.
    ///
    /// # Arguments
    ///
    /// * `buf` - Raw memory region to interpret as typed image
    /// * `width` - Width in pixels
    /// * `height` - Height in pixels
    /// * `stride` - Length of one pixel row in channel values
    pub fn from_buf_with_stride(buf: B, width: u32, height: u32, stride: usize) -> (image: Option<
        Self,
    >)
        ensures
            image is Some <==> min_stride::<P>(width) <= u32::MAX && min_stride::<P>(width)
                <= stride && height * stride <= buf.elems().len(),
            buf.elems().len() < height * stride ==> image is None,
            image is Some ==> {
                let image = image->0;
                &&& image.wf()
                &&& image.spec_width() == width
                &&& image.spec_height() == height
                &&& image.spec_stride() == stride
                &&& image.data() == buf.elems()
            },
    {
        let cols = row_values::<P>(width);
        if cols > u32::MAX as u64 {
            return None;
        }
        match Matrix::from_buf_with_stride(buf, height, stride, cols as u32) {
            Some(raw) => Some(Image { raw, width, height, marker: PhantomData }),
            None => None,
        }
    }

    /// Returns the channel values in the buffer.
    pub fn as_slice(&self) -> (slice: &[P::T])
        ensures
            slice@ == self.data(),
    {
        self.raw.as_slice()
    }
}

impl<P: Pixel, B: Buffer<P::T>> Image<P, B> {
    /// Returns the stored pixel `i` of row `y`.
    pub fn load(&self, i: u32, y: u32) -> (pix: P)
        requires
            self.wf(),
            i < self.per_row(),
            y < self.spec_height(),
        ensures
            pix == self.stored(i as int, y as int),
    {
        let slice = self.raw.as_slice();
        let len = slice.len();
        proof {
            P::lemma_shape();
            self.lemma_wf();
            assert(y * self.spec_stride() <= self.pixel_start(i as int, y as int));
            lemma_product_bounds(y as int, self.spec_height() - 1, self.spec_stride() as int);
            lemma_product_bounds(i as int, self.per_row() - 1, P::spec_channels() as int);
        }
        let channels = P::channels() as usize;
        let start = y as usize * self.raw.row_stride() + i as usize * channels;
        let chunk = vstd::slice::slice_subrange(slice, start, start + channels);
        <P as Pixel>::try_from(chunk).unwrap()
    }

    /// Returns an image with memory of its own that holds a copy of the buffer.
    pub fn to_buffer(&self) -> (copy: Image<P, Vec<P::T>>)
        requires
            self.wf(),
        ensures
            copy.wf(),
            copy.grid() == self.grid(),
    {
        proof {
            self.raw.lemma_wf();
        }
        let mem = vstd::slice::slice_to_vec(self.raw.as_slice());
        let raw = Matrix::from_buf_with_stride(
            mem,
            self.raw.rows(),
            self.raw.row_stride(),
            self.raw.cols(),
        );
        Image { raw: raw.unwrap(), width: self.width, height: self.height, marker: PhantomData }
    }

    /// Returns the stored pixels of row `y`.
    pub fn row(&self, y: u32) -> (pixels: Vec<P>)
        requires
            self.wf(),
            y < self.spec_height(),
        ensures
            pixels@ == self.row_pixels(y as int),
    {
        proof {
            P::lemma_shape();
            lemma_divided(self.width as int, P::spec_subpixels() as int);
        }
        let per_row = self.width / P::subpixels() as u32;
        let mut pixels: Vec<P> = Vec::new();
        let mut i: u32 = 0;
        while i < per_row
            invariant
                self.wf(),
                y < self.spec_height(),
                per_row == self.per_row(),
                i <= per_row,
                pixels@.len() == i,
                forall|j: int| 0 <= j < i ==> pixels@[j] == self.stored(j, y as int),
            decreases per_row - i,
        {
            pixels.push(self.load(i, y));
            i += 1;
        }
        pixels
    }
}

impl<P: Pixel, B: Buffer<P::T>> GenericImageView for Image<P, B> {
    type T = P;

    open spec fn valid(&self) -> bool {
        self.wf()
    }

    open spec fn width_spec(&self) -> u32 {
        self.spec_width()
    }

    open spec fn height_spec(&self) -> u32 {
        self.spec_height()
    }

    open spec fn pixel_spec(&self, x: u32, y: u32) -> Option<P> {
        if self.holds(x, y) {
            Some(self.stored(stored_per_row::<P>(x), y as int))
        } else {
            None
        }
    }

    proof fn lemma_pixel_in_bounds(&self, x: u32, y: u32) {
    }

    fn width(&self) -> (width: u32) {
        self.width
    }

    fn height(&self) -> (height: u32) {
        self.height
    }

    fn pixel(&self, x: u32, y: u32) -> (pix: Option<P>) {
        if x >= self.width || y >= self.height {
            return None;
        }
        proof {
            P::lemma_shape();
            lemma_divided(x as int, P::spec_subpixels() as int);
            lemma_divided(self.width as int, P::spec_subpixels() as int);
        }
        let subpixels = P::subpixels() as u32;
        let i = x / subpixels;
        if i >= self.width / subpixels {
            return None;
        }
        Some(self.load(i, y))
    }
}

impl<P: Pixel, B: BufferMut<P::T>> Image<P, B> {
    /// Two stored pixels of an image share no place in the buffer.
    pub proof fn lemma_pixels_apart(&self, i: int, y: int, i2: int, y2: int)
        requires
            self.wf(),
            0 <= i < self.per_row(),
            0 <= y < self.spec_height(),
            0 <= i2 < self.per_row(),
            0 <= y2 < self.spec_height(),
            i != i2 || y != y2,
        ensures
            self.pixel_start(i, y) + P::spec_channels() <= self.pixel_start(i2, y2)
                || self.pixel_start(i2, y2) + P::spec_channels() <= self.pixel_start(i, y),
    {
        self.lemma_wf();
        let stride = self.spec_stride() as int;
        let channels = P::spec_channels() as int;
        if y < y2 {
            lemma_product_bounds(y + 1, y2, stride);
            lemma_product_bounds(y, y, stride);
        } else if y2 < y {
            lemma_product_bounds(y2 + 1, y, stride);
            lemma_product_bounds(y2, y2, stride);
        } else if i < i2 {
            lemma_product_bounds(i + 1, i2, channels);
            lemma_product_bounds(i, i, channels);
        } else {
            lemma_product_bounds(i2 + 1, i, channels);
            lemma_product_bounds(i2, i2, channels);
        }
    }

    /// Where two images of one shape agree outside of the pixels of row `y`, they hold the same
    /// pixels in every other row.
    pub proof fn lemma_other_rows(before: &Self, after: &Self, y: int, y2: int)
        requires
            before.wf(),
            0 <= y < before.spec_height(),
            0 <= y2 < before.spec_height(),
            y != y2,
            after.spec_width() == before.spec_width(),
            after.spec_height() == before.spec_height(),
            after.spec_stride() == before.spec_stride(),
            after.data().len() == before.data().len(),
            forall|k: int|
                0 <= k < before.data().len() && !before.in_row(k, y) ==> #[trigger] after.data()[k]
                    == before.data()[k],
        ensures
            after.row_pixels(y2) == before.row_pixels(y2),
    {
        before.lemma_wf();
        let channels = P::spec_channels() as int;
        let stride = before.spec_stride() as int;
        assert forall|i: int| 0 <= i < before.per_row() implies #[trigger] after.grid().stored::<P>(
            i,
            y2,
        ) == before.grid().stored::<P>(i, y2) by {
            let start = before.pixel_start(i, y2);
            lemma_product_bounds(0, 0, channels);
            if y < y2 {
                lemma_product_bounds(y + 1, y2, stride);
                lemma_product_bounds(y, y, stride);
            } else {
                lemma_product_bounds(y2 + 1, y, stride);
                lemma_product_bounds(y2, y2, stride);
            }
            assert(after.data().subrange(start, start + channels) =~= before.data().subrange(
                start,
                start + channels,
            ));
        }
    }

    /// Writes `pix` as the stored pixel `i` of row `y`.
    fn store(&mut self, i: u32, y: u32, pix: &P)
        requires
            old(self).wf(),
            i < old(self).per_row(),
            y < old(self).spec_height(),
        ensures
            final(self).wf(),
            final(self).spec_width() == old(self).spec_width(),
            final(self).spec_height() == old(self).spec_height(),
            final(self).spec_stride() == old(self).spec_stride(),
            final(self).data() == patched(
                old(self).data(),
                old(self).pixel_start(i as int, y as int),
                pix.values(),
            ),
    {
        let len = self.raw.as_slice().len();
        proof {
            P::lemma_shape();
            pix.lemma_values();
            self.lemma_wf();
            assert(y * self.spec_stride() <= self.pixel_start(i as int, y as int));
            lemma_product_bounds(y as int, self.spec_height() - 1, self.spec_stride() as int);
            lemma_product_bounds(i as int, self.per_row() - 1, P::spec_channels() as int);
        }
        let channels = P::channels() as usize;
        let start = y as usize * self.raw.row_stride() + i as usize * channels;
        let mut k: usize = 0;
        while k < channels
            invariant
                self.raw.wf(),
                self.raw.rows() == old(self).raw.rows(),
                self.raw.cols() == old(self).raw.cols(),
                self.raw.row_stride() == old(self).raw.row_stride(),
                self.width == old(self).width,
                self.height == old(self).height,
                channels == P::spec_channels(),
                pix.values().len() == channels,
                k <= channels,
                start + channels <= len,
                self.raw.data().len() == len,
                len == old(self).raw.data().len(),
                self.raw.data() == patched(
                    old(self).raw.data(),
                    start as int,
                    pix.values().subrange(0, k as int),
                ),
            decreases channels - k,
        {
            self.raw.put(start + k, pix.at(k));
            k += 1;
            assert(self.raw.data() =~= patched(
                old(self).raw.data(),
                start as int,
                pix.values().subrange(0, k as int),
            ));
        }
    }

    /// A pixel that is written is found in its place, and every other stored pixel is what it
    /// was.
    proof fn lemma_stored_after_store(before: &Self, after: &Self, i: int, y: int, pix: P)
        requires
            before.wf(),
            after.wf(),
            0 <= i < before.per_row(),
            0 <= y < before.spec_height(),
            after.spec_width() == before.spec_width(),
            after.spec_height() == before.spec_height(),
            after.spec_stride() == before.spec_stride(),
            after.data() == patched(before.data(), before.pixel_start(i, y), pix.values()),
        ensures
            after.stored(i, y) == pix,
            forall|i2: int, y2: int|
                0 <= i2 < before.per_row() && 0 <= y2 < before.spec_height() && (i2 != i || y2 != y)
                    ==> #[trigger] after.stored(i2, y2) == before.stored(i2, y2),
    {
        let channels = P::spec_channels() as int;
        let start = before.pixel_start(i, y);
        pix.lemma_values();
        before.lemma_wf();
        assert(after.data().subrange(start, start + channels) =~= pix.values());
        assert forall|i2: int, y2: int|
            0 <= i2 < before.per_row() && 0 <= y2 < before.spec_height() && (i2 != i || y2
                != y) implies #[trigger] after.stored(i2, y2) == before.stored(i2, y2) by {
            before.lemma_pixels_apart(i, y, i2, y2);
            let start2 = before.pixel_start(i2, y2);
            assert(after.data().subrange(start2, start2 + channels) =~= before.data().subrange(
                start2,
                start2 + channels,
            ));
        }
    }

    /// Writes `pixels` as the stored pixels of row `y`, from the left, as far as the row or
    /// the pixels go. Nothing else in the buffer changes.
    pub fn set_row(&mut self, y: u32, pixels: &[P])
        requires
            old(self).wf(),
            y < old(self).spec_height(),
        ensures
            final(self).wf(),
            final(self).spec_width() == old(self).spec_width(),
            final(self).spec_height() == old(self).spec_height(),
            final(self).spec_stride() == old(self).spec_stride(),
            final(self).data().len() == old(self).data().len(),
            forall|i: int|
                0 <= i < old(self).per_row() ==> #[trigger] final(self).stored(i, y as int) == if i
                    < pixels@.len() {
                    pixels@[i]
                } else {
                    old(self).stored(i, y as int)
                },
            forall|k: int|
                0 <= k < old(self).data().len() && !old(self).in_row(k, y as int)
                    ==> #[trigger] final(self).data()[k] == old(self).data()[k],
    {
        proof {
            P::lemma_shape();
            lemma_divided(self.width as int, P::spec_subpixels() as int);
        }
        let per_row = self.width / P::subpixels() as u32;
        let mut i: u32 = 0;
        while i < per_row && (i as usize) < pixels.len()
            invariant
                self.wf(),
                old(self).wf(),
                y < old(self).spec_height(),
                per_row == old(self).per_row(),
                self.spec_width() == old(self).spec_width(),
                self.spec_height() == old(self).spec_height(),
                self.spec_stride() == old(self).spec_stride(),
                self.data().len() == old(self).data().len(),
                i <= per_row,
                i <= pixels@.len(),
                forall|j: int|
                    0 <= j < per_row ==> #[trigger] self.stored(j, y as int) == if j < i {
                        pixels@[j]
                    } else {
                        old(self).stored(j, y as int)
                    },
                forall|k: int|
                    0 <= k < old(self).data().len() && !old(self).in_row(k, y as int)
                        ==> #[trigger] self.data()[k] == old(self).data()[k],
            decreases per_row - i,
        {
            let ghost before = *self;
            self.store(i, y, &pixels[i as usize]);
            proof {
                Self::lemma_stored_after_store(&before, self, i as int, y as int, pixels@[i as int]);
                pixels@[i as int].lemma_values();
                before.lemma_wf();
                lemma_product_bounds(i as int + 1, per_row as int, P::spec_channels() as int);
                lemma_product_bounds(i as int, i as int, P::spec_channels() as int);
            }
            i += 1;
        }
    }
}

impl<P: Pixel, B: BufferMut<P::T>> GenericImage for Image<P, B> {
    fn set_pixel(&mut self, x: u32, y: u32, pix: &P) -> (done: Result<(), Error>)
        ensures
            final(self).spec_stride() == old(self).spec_stride(),
            done is Ok ==> final(self).data() == patched(
                old(self).data(),
                old(self).pixel_start(stored_per_row::<P>(x), y as int),
                pix.values(),
            ),
            done is Err ==> final(self).data() == old(self).data(),
    {
        if x >= self.width || y >= self.height {
            return Err(Error::OutOfBounds);
        }
        proof {
            P::lemma_shape();
            lemma_divided(x as int, P::spec_subpixels() as int);
            lemma_divided(self.width as int, P::spec_subpixels() as int);
        }
        let subpixels = P::subpixels() as u32;
        let i = x / subpixels;
        if i >= self.width / subpixels {
            return Err(Error::OutOfBounds);
        }
        let ghost before = *self;
        self.store(i, y, pix);
        proof {
            Self::lemma_stored_after_store(&before, self, i as int, y as int, *pix);
        }
        Ok(())
    }
}

impl<P: Pixel> Image<P, Vec<P::T>> {
    /// Returns a newly allocated image.
    ///
    /// # Arguments
    ///
    /// * `width` - Number of columns
    /// * `height` - Number of rows
    /// * `value` - Initial value for all channels
    pub fn new(width: u32, height: u32, value: P::T) -> (image: Self)
        requires
            min_stride::<P>(width) <= u32::MAX,
            height * min_stride::<P>(width) <= usize::MAX,
        ensures
            image.wf(),
            image.spec_width() == width,
            image.spec_height() == height,
            image.spec_stride() == min_stride::<P>(width),
            image.data() == Seq::new((height * min_stride::<P>(width)) as nat, |k: int| value),
    {
        let cols = row_values::<P>(width) as u32;
        Image { raw: Matrix::new(height, cols, value), width, height, marker: PhantomData }
    }

    /// Gives the image a new width and height, without padding.
    ///
    /// The buffer is cut or grows to what the new shape takes. The channel values that stay
    /// keep their place in the buffer, not in the image; those that are added are `value`.
    pub fn resize(&mut self, width: u32, height: u32, value: P::T)
        requires
            min_stride::<P>(width) <= u32::MAX,
            height * min_stride::<P>(width) <= usize::MAX,
        ensures
            final(self).wf(),
            final(self).spec_width() == width,
            final(self).spec_height() == height,
            final(self).spec_stride() == min_stride::<P>(width),
            final(self).data() == Seq::new(
                (height * min_stride::<P>(width)) as nat,
                (|k: int|
                    if k < old(self).data().len() {
                        old(self).data()[k]
                    } else {
                        value
                    }),
            ),
    {
        let cols = row_values::<P>(width) as u32;
        self.raw.resize(height, cols, value);
        self.width = width;
        self.height = height;
    }
}

} // verus!

//! Images as foreign code hands them over: with strides in bytes.
//!
//! Drivers and decoders describe a frame by its width, its height and the number of bytes from
//! the start of one row to the start of the next. The three types of this module take such a
//! description, check it once, and are images from then on: [`GenericView`] over memory that
//! is only read, [`GenericFlatBuffer`] over memory that may be written, and [`GenericBuffer`]
//! with memory of its own.

use crate::error::Error;
use crate::packed::convert::{overlap, rows_converted, rows_mappable};
use crate::layout::{lemma_scaled, scaled};
use crate::packed::image::{min_stride, row_values, Grid, Image};
use crate::storage::Channel;
use crate::traits::{Convert, GenericImage, GenericImageView, MapPixels, Pixel, TryConvert};
use vstd::prelude::*;

verus! {

/// The number of bytes that a row of `width` image pixels of format `P` takes.
pub open spec fn min_stride_bytes<P: Pixel>(width: u32) -> int where P::T: Channel {
    scaled(min_stride::<P>(width), <P::T as Channel>::spec_size() as int)
}

/// Whether memory of `len` channel values holds an image of format `P` with the given width
/// and height whose rows lie `stride` bytes apart: the stride is a whole number of channel
/// values, it covers the pixels of a row, and the memory covers the rows.
pub open spec fn layout_fits<P: Pixel>(len: int, width: u32, height: u32, stride: int) -> bool where
    P::T: Channel,
 {
    let size = <P::T as Channel>::spec_size() as int;
    &&& min_stride::<P>(width) <= u32::MAX
    &&& stride % size == 0
    &&& min_stride_bytes::<P>(width) <= stride
    &&& height * stride <= scaled(len, size)
}

/// Checks a layout, and returns the stride in channel values where it fits.
fn check_layout<P: Pixel>(len: usize, width: u32, height: u32, stride: usize) -> (elems: Option<
    usize,
>) where P::T: Channel
    ensures
        elems is Some <==> layout_fits::<P>(len as int, width, height, stride as int),
        elems is Some ==> {
            &&& elems->0 * <P::T as Channel>::spec_size() == stride
            &&& min_stride::<P>(width) <= elems->0
            &&& height * elems->0 <= len
        },
{
    let size = <P::T as Channel>::size();
    proof {
        lemma_scaled(min_stride::<P>(width), size as int);
        lemma_scaled(len as int, size as int);
    }
    if stride % size != 0 {
        return None;
    }
    let elems = stride / size;
    assert(elems * size == stride) by (nonlinear_arith)
        requires
            stride % size == 0,
            elems == stride / size,
            0 < size,
    ;
    let cols = row_values::<P>(width);
    if cols > u32::MAX as u64 || cols > elems as u64 {
        proof {
            assert(min_stride::<P>(width) * size <= stride ==> min_stride::<P>(width) <= elems)
                by (nonlinear_arith)
                requires
                    elems * size == stride,
                    1 <= size,
            ;
        }
        return None;
    }
    assert(height * elems <= 0xffff_ffff * 0xffff_ffff_ffff_ffff) by (nonlinear_arith)
        requires
            0 <= height <= 0xffff_ffff,
            0 <= elems <= 0xffff_ffff_ffff_ffff,
    ;
    assert(height * stride == height * elems * size && cols * size <= elems * size)
        by (nonlinear_arith)
        requires
            elems * size == stride,
            cols <= elems,
            1 <= size,
    ;
    assert(height * elems * size <= len * size <==> height * elems <= len) by (nonlinear_arith)
        requires
            1 <= size,
    ;
    if (len as u128) < height as u128 * elems as u128 {
        return None;
    }
    Some(elems)
}

/// Image view parametrized by its pixel type
#[derive(Debug)]
pub struct GenericView<'a, P: Pixel> {
    image: Image<P, &'a [P::T]>,
}

impl<'a, P: Pixel> GenericView<'a, P> where P::T: Channel {
    /// The image that the view is.
    pub closed spec fn image(&self) -> Image<P, &'a [P::T]> {
        self.image
    }

    /// The invariant of the view.
    pub open spec fn wf(&self) -> bool {
        &&& self.image().wf()
        &&& self.image().spec_stride() * <P::T as Channel>::spec_size() <= usize::MAX
    }

    /// The length of one pixel row in bytes
    pub open spec fn spec_stride(&self) -> int {
        self.image().spec_stride() * <P::T as Channel>::spec_size()
    }

    /// Returns an image view with pixel accessors
    ///
    /// The backing memory storage must have the same element type as the underlying pixel type
    /// of the image. The rows lie next to each other without padding. None is returned where
    /// the memory does not hold `height` rows.
    ///
    /// # Arguments
    ///
    /// * `raw` - Raw memory region to interpret as typed image
    /// * `width` - Width in pixels
    /// * `height` - Height in pixels
    pub fn new(raw: &'a [P::T], width: u32, height: u32) -> (view: Option<Self>)
        ensures
            view is Some <==> min_stride_bytes::<P>(width) <= usize::MAX && layout_fits::<P>(
                raw@.len() as int,
                width,
                height,
                min_stride_bytes::<P>(width),
            ),
            scaled(raw@.len() as int, <P::T as Channel>::spec_size() as int) < height * min_stride_bytes::<P>(width)
                ==> view is None,
            view is Some ==> {
                let view = view->0;
                &&& view.wf()
                &&& view.image().spec_width() == width
                &&& view.image().spec_height() == height
                &&& view.spec_stride() == min_stride_bytes::<P>(width)
                &&& view.image().data() == raw@
            },
    {
        let cols = row_values::<P>(width);
        let size = <P::T as Channel>::size();
        proof {
            lemma_scaled(min_stride::<P>(width), size as int);
        }
        assert(cols * size <= 255 * 0xffff_ffff * 2) by (nonlinear_arith)
            requires
                0 <= cols <= 255 * 0xffff_ffff,
                0 <= size <= 2,
        ;
        let bytes = cols as u128 * size as u128;
        if bytes > usize::MAX as u128 {
            return None;
        }
        Self::with_stride(raw, width, height, bytes as usize)
    }

    /// Returns an image view with pixel accessors
    ///
    /// The backing memory storage must have the same element type as the underlying pixel type
    /// of the image. This constructor takes an additional stride for strided image buffers.
    /// None is returned where the stride is no multiple of the size of the storage type, where
    /// it does not cover the pixels of a row, or where the memory does not hold `height` rows
    /// of it.
    ///
    /// # Arguments
    ///
    /// * `raw` - Raw memory region to interpret as typed image
    /// * `width` - Width in pixels
    /// * `height` - Height in pixels
    /// * `stride` - Length of a pixel row in bytes
    pub fn with_stride(raw: &'a [P::T], width: u32, height: u32, stride: usize) -> (view: Option<
        Self,
    >)
        ensures
            view is Some <==> layout_fits::<P>(raw@.len() as int, width, height, stride as int),
            scaled(raw@.len() as int, <P::T as Channel>::spec_size() as int) < height * stride ==> view is None,
            view is Some ==> {
                let view = view->0;
                &&& view.wf()
                &&& view.image().spec_width() == width
                &&& view.image().spec_height() == height
                &&& view.spec_stride() == stride
                &&& view.image().data() == raw@
            },
    {
        let elems = check_layout::<P>(raw.len(), width, height, stride)?;
        match Image::from_buf_with_stride(raw, width, height, elems) {
            Some(image) => Some(GenericView { image }),
            None => None,
        }
    }

    /// Returns the raw memory
    pub fn raw(&self) -> (raw: &[P::T])
        ensures
            raw@ == self.image().data(),
    {
        self.image.as_slice()
    }

    /// Returns the length of one pixel row in bytes
    pub fn stride(&self) -> (stride: usize)
        requires
            self.wf(),
        ensures
            stride == self.spec_stride(),
    {
        self.image.stride() * <P::T as Channel>::size()
    }

    /// Returns the view as an image.
    pub fn as_image(&self) -> (image: &Image<P, &'a [P::T]>)
        ensures
            *image == self.image(),
    {
        &self.image
    }
}

/// Something that is an image of a pixel format over a buffer.
pub trait ImageSource {
    /// The pixel format
    type P: Pixel;

    /// The buffer
    type B: crate::packed::buffer::Buffer<<Self::P as Pixel>::T>;

    /// The image.
    spec fn source(&self) -> Image<Self::P, Self::B>;

    /// Returns the image.
    fn as_image(&self) -> (image: &Image<Self::P, Self::B>)
        ensures
            *image == self.source(),
    ;
}

impl<P: Pixel, B: crate::packed::buffer::Buffer<P::T>> ImageSource for Image<P, B> {
    type P = P;

    type B = B;

    open spec fn source(&self) -> Image<P, B> {
        *self
    }

    fn as_image(&self) -> (image: &Image<P, B>) {
        self
    }
}

impl<'a, P: Pixel> GenericImageView for GenericView<'a, P> where P::T: Channel {
    type T = P;

    open spec fn valid(&self) -> bool {
        self.wf()
    }

    open spec fn width_spec(&self) -> u32 {
        self.image().spec_width()
    }

    open spec fn height_spec(&self) -> u32 {
        self.image().spec_height()
    }

    open spec fn pixel_spec(&self, x: u32, y: u32) -> Option<P> {
        self.image().pixel_spec(x, y)
    }

    proof fn lemma_pixel_in_bounds(&self, x: u32, y: u32) {
    }

    fn width(&self) -> (width: u32) {
        self.image.width()
    }

    fn height(&self) -> (height: u32) {
        self.image.height()
    }

    fn pixel(&self, x: u32, y: u32) -> (pix: Option<P>) {
        self.image.pixel(x, y)
    }
}

impl<'a, P: Pixel> ImageSource for GenericView<'a, P> where P::T: Channel {
    type P = P;

    type B = &'a [P::T];

    open spec fn source(&self) -> Image<P, &'a [P::T]> {
        self.image()
    }

    fn as_image(&self) -> (image: &Image<P, &'a [P::T]>) {
        &self.image
    }
}

/// Image over memory of somebody else that can be written
///
/// 'Flat' means that the backing memory of the image is not allocated by the struct. Thus, this
/// struct allows for reusing existing (mutable) buffers and still having images defined by
/// their pixel types.
#[derive(Debug)]
pub struct GenericFlatBuffer<'a, P: Pixel> {
    image: Image<P, &'a mut [P::T]>,
}

impl<'a, P: Pixel> GenericFlatBuffer<'a, P> where P::T: Channel {
    /// The image that the buffer is.
    pub closed spec fn image(&self) -> Image<P, &'a mut [P::T]> {
        self.image
    }

    /// The invariant of the buffer.
    pub open spec fn wf(&self) -> bool {
        &&& self.image().wf()
        &&& self.image().spec_stride() * <P::T as Channel>::spec_size() <= usize::MAX
    }

    /// The length of one pixel row in bytes
    pub open spec fn spec_stride(&self) -> int {
        self.image().spec_stride() * <P::T as Channel>::spec_size()
    }

    /// Returns a flat image buffer with pixel accessors
    ///
    /// The rows lie next to each other without padding. None is returned where the memory
    /// does not hold `height` rows.
    ///
    /// # Arguments
    ///
    /// * `raw` - Raw memory region
    /// * `width` - Width in pixels
    /// * `height` - Height in pixels
    pub fn new(raw: &'a mut [P::T], width: u32, height: u32) -> (buf: Option<Self>)
        ensures
            buf is Some <==> min_stride_bytes::<P>(width) <= usize::MAX && layout_fits::<P>(
                old(raw)@.len() as int,
                width,
                height,
                min_stride_bytes::<P>(width),
            ),
            scaled(old(raw)@.len() as int, <P::T as Channel>::spec_size() as int) < height * min_stride_bytes::<P>(width)
                ==> buf is None,
            buf is Some ==> {
                let buf = buf->0;
                &&& buf.wf()
                &&& buf.image().spec_width() == width
                &&& buf.image().spec_height() == height
                &&& buf.spec_stride() == min_stride_bytes::<P>(width)
                &&& buf.image().data() == old(raw)@
            },
    {
        let cols = row_values::<P>(width);
        let size = <P::T as Channel>::size();
        proof {
            lemma_scaled(min_stride::<P>(width), size as int);
        }
        assert(cols * size <= 255 * 0xffff_ffff * 2) by (nonlinear_arith)
            requires
                0 <= cols <= 255 * 0xffff_ffff,
                0 <= size <= 2,
        ;
        let bytes = cols as u128 * size as u128;
        if bytes > usize::MAX as u128 {
            return None;
        }
        Self::with_stride(raw, width, height, bytes as usize)
    }

    /// Returns a flat image buffer with pixel accessors
    ///
    /// None is returned where the stride is no multiple of the size of the storage type, where
    /// it does not cover the pixels of a row, or where the memory does not hold `height` rows
    /// of it.
    ///
    /// # Arguments
    ///
    /// * `raw` - Raw memory region
    /// * `width` - Width in pixels
    /// * `height` - Height in pixels
    /// * `stride` - Length of a pixel row in bytes
    pub fn with_stride(raw: &'a mut [P::T], width: u32, height: u32, stride: usize) -> (buf:
        Option<Self>)
        ensures
            buf is Some <==> layout_fits::<P>(old(raw)@.len() as int, width, height, stride as int),
            scaled(old(raw)@.len() as int, <P::T as Channel>::spec_size() as int) < height * stride ==> buf is None,
            buf is Some ==> {
                let buf = buf->0;
                &&& buf.wf()
                &&& buf.image().spec_width() == width
                &&& buf.image().spec_height() == height
                &&& buf.spec_stride() == stride
                &&& buf.image().data() == old(raw)@
            },
    {
        let elems = check_layout::<P>(raw.len(), width, height, stride)?;
        match Image::from_buf_with_stride(raw, width, height, elems) {
            Some(image) => Some(GenericFlatBuffer { image }),
            None => None,
        }
    }

    /// Returns the raw memory
    pub fn raw(&self) -> (raw: &[P::T])
        ensures
            raw@ == self.image().data(),
    {
        self.image.as_slice()
    }

    /// Returns the length of one pixel row in bytes
    pub fn stride(&self) -> (stride: usize)
        requires
            self.wf(),
        ensures
            stride == self.spec_stride(),
    {
        self.image.stride() * <P::T as Channel>::size()
    }
}

impl<'a, P: Pixel> GenericImageView for GenericFlatBuffer<'a, P> where P::T: Channel {
    type T = P;

    open spec fn valid(&self) -> bool {
        self.wf()
    }

    open spec fn width_spec(&self) -> u32 {
        self.image().spec_width()
    }

    open spec fn height_spec(&self) -> u32 {
        self.image().spec_height()
    }

    open spec fn pixel_spec(&self, x: u32, y: u32) -> Option<P> {
        self.image().pixel_spec(x, y)
    }

    proof fn lemma_pixel_in_bounds(&self, x: u32, y: u32) {
    }

    fn width(&self) -> (width: u32) {
        self.image.width()
    }

    fn height(&self) -> (height: u32) {
        self.image.height()
    }

    fn pixel(&self, x: u32, y: u32) -> (pix: Option<P>) {
        self.image.pixel(x, y)
    }
}

impl<'a, P: Pixel> ImageSource for GenericFlatBuffer<'a, P> where P::T: Channel {
    type P = P;

    type B = &'a mut [P::T];

    open spec fn source(&self) -> Image<P, &'a mut [P::T]> {
        self.image()
    }

    fn as_image(&self) -> (image: &Image<P, &'a mut [P::T]>) {
        &self.image
    }
}

impl<'a, P: Pixel> GenericImage for GenericFlatBuffer<'a, P> where P::T: Channel {
    fn set_pixel(&mut self, x: u32, y: u32, pix: &P) -> (done: Result<(), Error>)
        ensures
            final(self).spec_stride() == old(self).spec_stride(),
    {
        self.image.set_pixel(x, y, pix)
    }
}

/// Image with memory of its own
#[derive(Debug)]
pub struct GenericBuffer<P: Pixel> {
    image: Image<P, Vec<P::T>>,
}

impl<P: Pixel> GenericBuffer<P> where P::T: Channel {
    /// The image that the buffer is.
    pub closed spec fn image(&self) -> Image<P, Vec<P::T>> {
        self.image
    }

    /// The invariant of the buffer.
    pub open spec fn wf(&self) -> bool {
        &&& self.image().wf()
        &&& self.image().spec_stride() * <P::T as Channel>::spec_size() <= usize::MAX
    }

    /// The length of one pixel row in bytes
    pub open spec fn spec_stride(&self) -> int {
        self.image().spec_stride() * <P::T as Channel>::spec_size()
    }

    /// Whether an image of the given width and height can be allocated.
    pub open spec fn allocatable(width: u32, height: u32) -> bool {
        &&& min_stride::<P>(width) <= u32::MAX
        &&& min_stride_bytes::<P>(width) <= usize::MAX
        &&& height * min_stride::<P>(width) <= usize::MAX
    }

    /// Returns an image buffer with pixel accessors
    ///
    /// The backing memory is allocated by this struct. There is no padding added so only the
    /// minimum amount of memory is consumed. Every channel of every pixel is zero.
    ///
    /// # Arguments
    ///
    /// * `width` - Width in pixels
    /// * `height` - Height in pixels
    pub fn new(width: u32, height: u32) -> (buf: Self)
        requires
            Self::allocatable(width, height),
        ensures
            buf.wf(),
            buf.image().grid() == Grid::filled::<P>(width, height, <P::T as Channel>::of_value(0)),
    {
        GenericBuffer { image: Image::new(width, height, <P::T as Channel>::zero()) }
    }

    /// Returns an image buffer with pixel accessors
    ///
    /// The pixel memory is copied into an allocated buffer owned by this struct. None is
    /// returned where the memory does not hold `height` rows.
    ///
    /// # Arguments
    ///
    /// * `width` - Width in pixels
    /// * `height` - Height in pixels
    /// * `raw` - Pixel memory storage to copy
    pub fn with_raw(width: u32, height: u32, raw: &[P::T]) -> (buf: Option<Self>)
        ensures
            buf is Some <==> min_stride_bytes::<P>(width) <= usize::MAX && layout_fits::<P>(
                raw@.len() as int,
                width,
                height,
                min_stride_bytes::<P>(width),
            ),
            scaled(raw@.len() as int, <P::T as Channel>::spec_size() as int) < height * min_stride_bytes::<P>(width)
                ==> buf is None,
            buf is Some ==> {
                let buf = buf->0;
                &&& buf.wf()
                &&& buf.image().spec_width() == width
                &&& buf.image().spec_height() == height
                &&& buf.spec_stride() == min_stride_bytes::<P>(width)
                &&& buf.image().data() == raw@
            },
    {
        let cols = row_values::<P>(width);
        let size = <P::T as Channel>::size();
        proof {
            lemma_scaled(min_stride::<P>(width), size as int);
        }
        assert(cols * size <= 255 * 0xffff_ffff * 2) by (nonlinear_arith)
            requires
                0 <= cols <= 255 * 0xffff_ffff,
                0 <= size <= 2,
        ;
        let bytes = cols as u128 * size as u128;
        if bytes > usize::MAX as u128 {
            return None;
        }
        let elems = check_layout::<P>(raw.len(), width, height, bytes as usize)?;
        match Image::from_buf_with_stride(vstd::slice::slice_to_vec(raw), width, height, elems) {
            Some(image) => Some(GenericBuffer { image }),
            None => None,
        }
    }

    /// Returns the raw memory
    pub fn raw(&self) -> (raw: &[P::T])
        ensures
            raw@ == self.image().data(),
    {
        self.image.as_slice()
    }

    /// Returns the length of one pixel row in bytes
    pub fn stride(&self) -> (stride: usize)
        requires
            self.wf(),
        ensures
            stride == self.spec_stride(),
    {
        self.image.stride() * <P::T as Channel>::size()
    }

    /// Gives the image a new width and height, without padding.
    ///
    /// The memory is cut or grows to what the new shape takes. The channel values that stay
    /// keep their place in the memory, not in the image; those that are added are zero.
    pub fn resize(&mut self, width: u32, height: u32)
        requires
            Self::allocatable(width, height),
        ensures
            final(self).wf(),
            final(self).image().spec_width() == width,
            final(self).image().spec_height() == height,
            final(self).spec_stride() == min_stride_bytes::<P>(width),
            final(self).image().data() == Seq::new(
                (height * min_stride::<P>(width)) as nat,
                (|k: int|
                    if k < old(self).image().data().len() {
                        old(self).image().data()[k]
                    } else {
                        <P::T as Channel>::of_value(0)
                    }),
            ),
    {
        self.image.resize(width, height, <P::T as Channel>::zero());
    }
}

impl<P: Pixel> GenericImageView for GenericBuffer<P> where P::T: Channel {
    type T = P;

    open spec fn valid(&self) -> bool {
        self.wf()
    }

    open spec fn width_spec(&self) -> u32 {
        self.image().spec_width()
    }

    open spec fn height_spec(&self) -> u32 {
        self.image().spec_height()
    }

    open spec fn pixel_spec(&self, x: u32, y: u32) -> Option<P> {
        self.image().pixel_spec(x, y)
    }

    proof fn lemma_pixel_in_bounds(&self, x: u32, y: u32) {
    }

    fn width(&self) -> (width: u32) {
        self.image.width()
    }

    fn height(&self) -> (height: u32) {
        self.image.height()
    }

    fn pixel(&self, x: u32, y: u32) -> (pix: Option<P>) {
        self.image.pixel(x, y)
    }
}

impl<P: Pixel> ImageSource for GenericBuffer<P> where P::T: Channel {
    type P = P;

    type B = Vec<P::T>;

    open spec fn source(&self) -> Image<P, Vec<P::T>> {
        self.image()
    }

    fn as_image(&self) -> (image: &Image<P, Vec<P::T>>) {
        &self.image
    }
}

impl<P: Pixel> GenericImage for GenericBuffer<P> where P::T: Channel {
    fn set_pixel(&mut self, x: u32, y: u32, pix: &P) -> (done: Result<(), Error>)
        ensures
            final(self).spec_stride() == old(self).spec_stride(),
    {
        self.image.set_pixel(x, y, pix)
    }
}

// Whatever is an image converts into a buffer with memory of its own, which takes the width
// and the height of the source.
impl<S: ImageSource, DP: Pixel> Convert<GenericBuffer<DP>> for S where
    S::P: MapPixels<S::P, DP>,
    DP::T: Channel,
 {
    open spec fn convertible_into(&self, output: &GenericBuffer<DP>) -> bool {
        &&& self.source().convertible_into(&output.image())
        &&& GenericBuffer::<DP>::allocatable(
            self.source().spec_width(),
            self.source().spec_height(),
        )
        &&& output.wf()
    }

    open spec fn converted_into(&self, before: &GenericBuffer<DP>, after: &GenericBuffer<DP>) -> bool {
        &&& after.wf()
        &&& self.source().converted_into(&before.image(), &after.image())
    }

    fn convert(&self, output: &mut GenericBuffer<DP>) {
        self.as_image().convert(&mut output.image);
    }
}

// Whatever is an image converts into a flat buffer as far as the two overlap.
impl<'a, S: ImageSource, DP: Pixel> Convert<GenericFlatBuffer<'a, DP>> for S where
    S::P: MapPixels<S::P, DP>,
    DP::T: Channel,
 {
    open spec fn convertible_into(&self, output: &GenericFlatBuffer<'a, DP>) -> bool {
        &&& self.source().convertible_into(&output.image())
        &&& output.wf()
    }

    open spec fn converted_into(
        &self,
        before: &GenericFlatBuffer<'a, DP>,
        after: &GenericFlatBuffer<'a, DP>,
    ) -> bool {
        &&& after.wf()
        &&& self.source().converted_into(&before.image(), &after.image())
    }

    fn convert(&self, output: &mut GenericFlatBuffer<'a, DP>) {
        self.as_image().convert(&mut output.image);
    }
}

// Whatever is an image converts into a flat buffer that is wide and high enough for it, and is
// refused by one that is not.
impl<'a, S: ImageSource, DP: Pixel> TryConvert<GenericFlatBuffer<'a, DP>> for S where
    S::P: MapPixels<S::P, DP>,
    DP::T: Channel,
 {
    open spec fn try_convertible_into(&self, output: &GenericFlatBuffer<'a, DP>) -> bool {
        &&& self.source().try_convertible_into(&output.image())
        &&& output.wf()
    }

    open spec fn fits_into(&self, output: &GenericFlatBuffer<'a, DP>) -> bool {
        self.source().fits_into(&output.image())
    }

    open spec fn try_converted_into(
        &self,
        before: &GenericFlatBuffer<'a, DP>,
        after: &GenericFlatBuffer<'a, DP>,
    ) -> bool {
        &&& after.wf()
        &&& self.source().try_converted_into(&before.image(), &after.image())
    }

    fn try_convert(&self, output: &mut GenericFlatBuffer<'a, DP>) -> (done: Result<(), Error>) {
        self.as_image().try_convert(&mut output.image)
    }
}

} // verus!

//! Images whose storage type is known only when the program runs.
//!
//! A dynamic image carries its channel values under a tag that names their storage type, and
//! knows nothing of pixel formats. Before its pixels can be read it is turned into an image of
//! a pixel format; that step checks the tag and the layout once more.

use crate::error::Error;
use crate::packed::image::{min_stride, Image};
use crate::traits::Pixel;
use vstd::prelude::*;

verus! {

/// Runtime storage type
#[derive(Debug, Clone, Copy, PartialEq, Eq, Structural)]
pub enum StorageType {
    /// Eight bits, without sign
    U8,
    /// Sixteen bits, without sign
    U16,
}

impl StorageType {
    /// The size of one value in bytes.
    pub open spec fn spec_size(self) -> usize {
        match self {
            StorageType::U8 => 1,
            StorageType::U16 => 2,
        }
    }

    /// Returns the size of one value in bytes.
    #[verifier::when_used_as_spec(spec_size)]
    pub fn size(self) -> (bytes: usize)
        ensures
            bytes == self.spec_size(),
    {
        match self {
            StorageType::U8 => 1,
            StorageType::U16 => 2,
        }
    }
}

/// Runtime memory view
#[derive(Debug, Clone, Copy)]
pub enum MemoryView<'a> {
    /// Values of eight bits
    U8(&'a [u8]),
    /// Values of sixteen bits
    U16(&'a [u16]),
}

impl<'a> MemoryView<'a> {
    /// The storage type of the values.
    pub open spec fn spec_storage(&self) -> StorageType {
        match self {
            MemoryView::U8(_) => StorageType::U8,
            MemoryView::U16(_) => StorageType::U16,
        }
    }

    /// The number of values in the view.
    pub open spec fn spec_len(&self) -> usize {
        match self {
            MemoryView::U8(view) => view.len(),
            MemoryView::U16(view) => view.len(),
        }
    }

    /// Returns the storage type of the values.
    #[verifier::when_used_as_spec(spec_storage)]
    pub fn storage(&self) -> (typ: StorageType)
        ensures
            typ == self.spec_storage(),
    {
        match self {
            MemoryView::U8(_) => StorageType::U8,
            MemoryView::U16(_) => StorageType::U16,
        }
    }

    /// Returns the values where they are of eight bits.
    pub fn as_u8(&self) -> (slice: Option<&'a [u8]>)
        ensures
            slice == match *self {
                MemoryView::U8(view) => Some(view),
                MemoryView::U16(_) => None,
            },
    {
        match self {
            MemoryView::U8(view) => Some(*view),
            MemoryView::U16(_) => None,
        }
    }

    /// Returns the values where they are of sixteen bits.
    pub fn as_u16(&self) -> (slice: Option<&'a [u16]>)
        ensures
            slice == match *self {
                MemoryView::U8(_) => None,
                MemoryView::U16(view) => Some(view),
            },
    {
        match self {
            MemoryView::U8(_) => None,
            MemoryView::U16(view) => Some(*view),
        }
    }

    /// Returns the number of elements in the view
    #[verifier::when_used_as_spec(spec_len)]
    pub fn len(&self) -> (len: usize)
        ensures
            len == self.spec_len(),
    {
        match self {
            MemoryView::U8(view) => view.len(),
            MemoryView::U16(view) => view.len(),
        }
    }

    /// Returns true if there are no elements in the view
    pub fn is_empty(&self) -> (empty: bool)
        ensures
            empty <==> self.spec_len() == 0,
    {
        match self {
            MemoryView::U8(view) => view.len() == 0,
            MemoryView::U16(view) => view.len() == 0,
        }
    }
}

/// Runtime memory buffer
#[derive(Debug, Clone)]
pub enum MemoryBuffer {
    /// Values of eight bits
    U8(Vec<u8>),
    /// Values of sixteen bits
    U16(Vec<u16>),
}

impl MemoryBuffer {
    /// The storage type of the values.
    pub open spec fn spec_storage(&self) -> StorageType {
        match self {
            MemoryBuffer::U8(_) => StorageType::U8,
            MemoryBuffer::U16(_) => StorageType::U16,
        }
    }

    /// The number of values in the buffer.
    pub open spec fn spec_len(&self) -> usize {
        match self {
            MemoryBuffer::U8(buf) => buf.len(),
            MemoryBuffer::U16(buf) => buf.len(),
        }
    }

    /// Whether the buffer holds the values of the view, of the same storage type.
    pub open spec fn holds(&self, view: &MemoryView) -> bool {
        match (self, view) {
            (MemoryBuffer::U8(buf), MemoryView::U8(view)) => buf@ == view@,
            (MemoryBuffer::U16(buf), MemoryView::U16(view)) => buf@ == view@,
            _ => false,
        }
    }

    /// Returns the storage type of the values.
    #[verifier::when_used_as_spec(spec_storage)]
    pub fn storage(&self) -> (typ: StorageType)
        ensures
            typ == self.spec_storage(),
    {
        match self {
            MemoryBuffer::U8(_) => StorageType::U8,
            MemoryBuffer::U16(_) => StorageType::U16,
        }
    }

    /// Returns a buffer with a copy of the values of a view.
    pub fn from_view(view: &MemoryView) -> (buf: Self)
        ensures
            buf.holds(view),
    {
        match view {
            MemoryView::U8(raw) => MemoryBuffer::U8(vstd::slice::slice_to_vec(raw)),
            MemoryView::U16(raw) => MemoryBuffer::U16(vstd::slice::slice_to_vec(raw)),
        }
    }

    /// Returns a view of the values.
    pub fn as_view(&self) -> (view: MemoryView<'_>)
        ensures
            self.holds(&view),
    {
        match self {
            MemoryBuffer::U8(buf) => MemoryView::U8(buf.as_slice()),
            MemoryBuffer::U16(buf) => MemoryView::U16(buf.as_slice()),
        }
    }

    /// Returns the values where they are of eight bits.
    pub fn as_u8(&self) -> (slice: Option<&[u8]>)
        ensures
            match *self {
                MemoryBuffer::U8(buf) => slice is Some && slice->0@ == buf@,
                MemoryBuffer::U16(_) => slice is None,
            },
    {
        match self {
            MemoryBuffer::U8(buf) => Some(buf.as_slice()),
            MemoryBuffer::U16(_) => None,
        }
    }

    /// Returns the values where they are of sixteen bits.
    pub fn as_u16(&self) -> (slice: Option<&[u16]>)
        ensures
            match *self {
                MemoryBuffer::U8(_) => slice is None,
                MemoryBuffer::U16(buf) => slice is Some && slice->0@ == buf@,
            },
    {
        match self {
            MemoryBuffer::U8(_) => None,
            MemoryBuffer::U16(buf) => Some(buf.as_slice()),
        }
    }

    /// Returns the vector of the values where they are of eight bits.
    pub fn into_u8(self) -> (vec: Option<Vec<u8>>)
        ensures
            vec == match self {
                MemoryBuffer::U8(buf) => Some(buf),
                MemoryBuffer::U16(_) => None,
            },
    {
        match self {
            MemoryBuffer::U8(buf) => Some(buf),
            MemoryBuffer::U16(_) => None,
        }
    }

    /// Returns the vector of the values where they are of sixteen bits.
    pub fn into_u16(self) -> (vec: Option<Vec<u16>>)
        ensures
            vec == match self {
                MemoryBuffer::U8(_) => None,
                MemoryBuffer::U16(buf) => Some(buf),
            },
    {
        match self {
            MemoryBuffer::U8(_) => None,
            MemoryBuffer::U16(buf) => Some(buf),
        }
    }

    /// Returns the number of elements in the buffer
    #[verifier::when_used_as_spec(spec_len)]
    pub fn len(&self) -> (len: usize)
        ensures
            len == self.spec_len(),
    {
        match self {
            MemoryBuffer::U8(buf) => buf.len(),
            MemoryBuffer::U16(buf) => buf.len(),
        }
    }

    /// Returns true if there are no elements in the buffer
    pub fn is_empty(&self) -> (empty: bool)
        ensures
            empty <==> self.spec_len() == 0,
    {
        match self {
            MemoryBuffer::U8(buf) => buf.len() == 0,
            MemoryBuffer::U16(buf) => buf.len() == 0,
        }
    }

    /// Returns the values where they are of eight bits, to be written.
    pub fn as_mut_u8(&mut self) -> (slice: Option<&mut [u8]>)
        ensures
            match *old(self) {
                MemoryBuffer::U8(buf) => slice is Some && slice->0@ == buf@ && match *final(self) {
                    MemoryBuffer::U8(after) => after@ == final(slice->0)@,
                    MemoryBuffer::U16(_) => false,
                },
                MemoryBuffer::U16(_) => slice is None && *final(self) == *old(self),
            },
    {
        match self {
            MemoryBuffer::U8(buf) => Some(buf.as_mut_slice()),
            MemoryBuffer::U16(_) => None,
        }
    }

    /// Returns the values where they are of sixteen bits, to be written.
    pub fn as_mut_u16(&mut self) -> (slice: Option<&mut [u16]>)
        ensures
            match *old(self) {
                MemoryBuffer::U8(_) => slice is None && *final(self) == *old(self),
                MemoryBuffer::U16(buf) => slice is Some && slice->0@ == buf@ && match *final(self) {
                    MemoryBuffer::U8(_) => false,
                    MemoryBuffer::U16(after) => after@ == final(slice->0)@,
                },
            },
    {
        match self {
            MemoryBuffer::U8(_) => None,
            MemoryBuffer::U16(buf) => Some(buf.as_mut_slice()),
        }
    }
}

/// Image view with a storage type that is known when the program runs
#[derive(Debug, Clone, Copy)]
pub struct DynamicView<'a> {
    raw: MemoryView<'a>,
    width: u32,
    height: u32,
    stride: usize,
}

impl<'a> DynamicView<'a> {
    /// The raw memory
    pub closed spec fn spec_raw(&self) -> MemoryView<'a> {
        self.raw
    }

    /// The width in pixels
    pub closed spec fn spec_width(&self) -> u32 {
        self.width
    }

    /// The height in pixels
    pub closed spec fn spec_height(&self) -> u32 {
        self.height
    }

    /// The length of one image row in values
    pub closed spec fn spec_stride(&self) -> usize {
        self.stride
    }

    /// Whether the view is the one of the given parts.
    pub open spec fn is(&self, raw: MemoryView<'a>, width: u32, height: u32, stride: usize) -> bool {
        &&& self.spec_raw() == raw
        &&& self.spec_width() == width
        &&& self.spec_height() == height
        &&& self.spec_stride() == stride
    }

    /// Returns an image view with unknown pixel type
    ///
    /// The rows share the memory in equal parts: the stride is the length of the memory
    /// divided by the height. None is returned where the height is zero, where the memory does
    /// not divide into as many rows, or where a row is shorter than `width` values of the
    /// storage type take bytes.
    ///
    /// # Arguments
    ///
    /// * `raw` - Raw memory region to interpret as typed image
    /// * `width` - Width in pixels
    /// * `height` - Height in pixels
    pub fn new(raw: MemoryView<'a>, width: u32, height: u32) -> (view: Option<Self>)
        ensures
            view is Some <==> height > 0 && raw.len() % (height as usize) == 0 && width
                * raw.storage().size() <= raw.len() / (height as usize),
            view is Some ==> view->0.is(raw, width, height, raw.len() / (height as usize)),
    {
        if height == 0 {
            return None;
        }
        // require the same amount of elements per row
        let len = raw.len();
        if len % height as usize != 0 {
            return None;
        }
        // validate bytes per line
        let size = raw.storage().size();
        assert(width * size <= 0xffff_ffff * 2) by (nonlinear_arith)
            requires
                0 <= width <= 0xffff_ffff,
                0 <= size <= 2,
        ;
        let min_stride = width as u64 * size as u64;
        let stride = len / height as usize;
        if (stride as u64) < min_stride {
            return None;
        }
        Some(DynamicView { raw, width, height, stride })
    }

    /// Returns an image view with unknown pixel type
    ///
    /// None is returned where the stride is not zero and the memory is not exactly `height`
    /// rows of it.
    ///
    /// # Arguments
    ///
    /// * `raw` - Raw memory region to interpret as typed image
    /// * `width` - Width in pixels
    /// * `height` - Height in pixels
    /// * `stride` - Length of a pixel row in values
    pub fn with_stride(raw: MemoryView<'a>, width: u32, height: u32, stride: usize) -> (view:
        Option<Self>)
        ensures
            view is Some <==> stride == 0 || raw.len() == height * stride,
            view is Some ==> view->0.is(raw, width, height, stride),
    {
        assert(height * stride <= 0xffff_ffff * 0xffff_ffff_ffff_ffff) by (nonlinear_arith)
            requires
                0 <= height <= 0xffff_ffff,
                0 <= stride <= 0xffff_ffff_ffff_ffff,
        ;
        if stride > 0 && raw.len() as u128 != height as u128 * stride as u128 {
            return None;
        }
        Some(DynamicView { raw, width, height, stride })
    }

    /// Returns the raw memory
    #[verifier::when_used_as_spec(spec_raw)]
    pub fn raw(&self) -> (raw: MemoryView<'a>)
        ensures
            raw == self.spec_raw(),
    {
        self.raw
    }

    /// Returns the width in pixels
    #[verifier::when_used_as_spec(spec_width)]
    pub fn width(&self) -> (width: u32)
        ensures
            width == self.spec_width(),
    {
        self.width
    }

    /// Returns the height in pixels
    #[verifier::when_used_as_spec(spec_height)]
    pub fn height(&self) -> (height: u32)
        ensures
            height == self.spec_height(),
    {
        self.height
    }

    /// Returns the length of one image row in values
    #[verifier::when_used_as_spec(spec_stride)]
    pub fn stride(&self) -> (stride: usize)
        ensures
            stride == self.spec_stride(),
    {
        self.stride
    }

    /// Returns the view as an image of a pixel format of eight bits.
    ///
    /// Fails with [`Error::StorageMismatch`] where the values are not of eight bits, and with
    /// [`Error::OutOfBounds`] where the stride does not cover a row of `P`, or the memory does
    /// not cover the rows.
    pub fn typed_u8<P: Pixel<T = u8>>(&self) -> (image: Result<Image<P, &'a [u8]>, Error>)
        ensures
            match self.raw() {
                MemoryView::U8(raw) => {
                    let fits = min_stride::<P>(self.width()) <= u32::MAX && min_stride::<P>(
                        self.width(),
                    ) <= self.stride() && self.height() * self.stride() <= raw@.len();
                    &&& image is Ok <==> fits
                    &&& image is Err ==> image->Err_0 == Error::OutOfBounds
                    &&& image is Ok ==> {
                        let image = image->Ok_0;
                        &&& image.wf()
                        &&& image.spec_width() == self.width()
                        &&& image.spec_height() == self.height()
                        &&& image.spec_stride() == self.stride()
                        &&& image.data() == raw@
                    }
                },
                MemoryView::U16(_) => image is Err && image->Err_0 == Error::StorageMismatch,
            },
    {
        match self.raw {
            MemoryView::U8(raw) => {
                match Image::from_buf_with_stride(raw, self.width, self.height, self.stride) {
                    Some(image) => Ok(image),
                    None => Err(Error::OutOfBounds),
                }
            },
            MemoryView::U16(_) => Err(Error::StorageMismatch),
        }
    }

    /// Returns the view as an image of a pixel format of sixteen bits.
    ///
    /// Fails with [`Error::StorageMismatch`] where the values are not of sixteen bits, and
    /// with [`Error::OutOfBounds`] where the stride does not cover a row of `P`, or the memory
    /// does not cover the rows.
    pub fn typed_u16<P: Pixel<T = u16>>(&self) -> (image: Result<Image<P, &'a [u16]>, Error>)
        ensures
            match self.raw() {
                MemoryView::U8(_) => image is Err && image->Err_0 == Error::StorageMismatch,
                MemoryView::U16(raw) => {
                    let fits = min_stride::<P>(self.width()) <= u32::MAX && min_stride::<P>(
                        self.width(),
                    ) <= self.stride() && self.height() * self.stride() <= raw@.len();
                    &&& image is Ok <==> fits
                    &&& image is Err ==> image->Err_0 == Error::OutOfBounds
                    &&& image is Ok ==> {
                        let image = image->Ok_0;
                        &&& image.wf()
                        &&& image.spec_width() == self.width()
                        &&& image.spec_height() == self.height()
                        &&& image.spec_stride() == self.stride()
                        &&& image.data() == raw@
                    }
                },
            },
    {
        match self.raw {
            MemoryView::U8(_) => Err(Error::StorageMismatch),
            MemoryView::U16(raw) => {
                match Image::from_buf_with_stride(raw, self.width, self.height, self.stride) {
                    Some(image) => Ok(image),
                    None => Err(Error::OutOfBounds),
                }
            },
        }
    }
}

/// Image buffer with a storage type that is known when the program runs
#[derive(Debug, Clone)]
pub struct DynamicBuffer {
    raw: MemoryBuffer,
    width: u32,
    height: u32,
    stride: usize,
}

/// The length of a row of `width` pixels with `channels` channels each in values of the given
/// size, as a dynamic buffer without padding counts it.
pub open spec fn dynamic_stride(width: u32, channels: u32, size: usize) -> int {
    width * channels * size
}

impl DynamicBuffer {
    /// The raw memory
    pub closed spec fn spec_raw(&self) -> &MemoryBuffer {
        &self.raw
    }

    /// The width in pixels
    pub closed spec fn spec_width(&self) -> u32 {
        self.width
    }

    /// The height in pixels
    pub closed spec fn spec_height(&self) -> u32 {
        self.height
    }

    /// The length of one image row in values
    pub closed spec fn spec_stride(&self) -> usize {
        self.stride
    }

    /// Whether every value of the raw memory is zero.
    pub open spec fn is_zeroed(&self) -> bool {
        match *self.spec_raw() {
            MemoryBuffer::U8(buf) => forall|k: int| 0 <= k < buf@.len() ==> buf@[k] == 0,
            MemoryBuffer::U16(buf) => forall|k: int| 0 <= k < buf@.len() ==> buf@[k] == 0,
        }
    }

    /// Returns an empty image buffer
    ///
    /// # Arguments
    ///
    /// * `typ` - Storage type
    pub fn empty(typ: StorageType) -> (buf: Self)
        ensures
            buf.raw().storage() == typ,
            buf.raw().len() == 0,
            buf.width() == 0,
            buf.height() == 0,
            buf.stride() == 0,
    {
        let raw = match typ {
            StorageType::U8 => MemoryBuffer::U8(Vec::new()),
            StorageType::U16 => MemoryBuffer::U16(Vec::new()),
        };
        DynamicBuffer { raw, width: 0, height: 0, stride: 0 }
    }

    /// Returns an image buffer with unknown pixel type
    ///
    /// The buffer has `height` rows of the stride, all of them zero.
    ///
    /// # Arguments
    ///
    /// * `width` - Width in pixels
    /// * `height` - Height in pixels
    /// * `channels` - Number of channels
    /// * `typ` - Storage type
    pub fn new(width: u32, height: u32, channels: u32, typ: StorageType) -> (buf: Self)
        requires
            height * dynamic_stride(width, channels, typ.size()) <= usize::MAX,
            dynamic_stride(width, channels, typ.size()) <= usize::MAX,
        ensures
            buf.raw().storage() == typ,
            buf.raw().len() == height * dynamic_stride(width, channels, typ.size()),
            buf.is_zeroed(),
            buf.width() == width,
            buf.height() == height,
            buf.stride() == dynamic_stride(width, channels, typ.size()),
    {
        let mut buf = Self::empty(typ);
        buf.resize(width, height, channels);
        buf
    }

    /// Returns an image buffer with unknown pixel type
    ///
    /// The rows share the memory in equal parts: the stride is the length of the memory
    /// divided by the height. None is returned where the height is zero, where the memory does
    /// not divide into as many rows, or where a row is shorter than `width` values of the
    /// storage type take bytes.
    ///
    /// # Arguments
    ///
    /// * `width` - Width in pixels
    /// * `height` - Height in pixels
    /// * `raw` - Raw memory region owned by the instance
    pub fn from_raw(width: u32, height: u32, raw: MemoryBuffer) -> (buf: Option<Self>)
        ensures
            buf is Some <==> height > 0 && raw.len() % (height as usize) == 0 && width
                * raw.storage().size() <= raw.len() / (height as usize),
            buf is Some ==> {
                let buf = buf->0;
                &&& *buf.raw() == raw
                &&& buf.width() == width
                &&& buf.height() == height
                &&& buf.stride() == raw.len() / (height as usize)
            },
    {
        if height == 0 {
            return None;
        }
        // require the same amount of elements per row
        let len = raw.len();
        if len % height as usize != 0 {
            return None;
        }
        // validate bytes per line
        let size = raw.storage().size();
        assert(width * size <= 0xffff_ffff * 2) by (nonlinear_arith)
            requires
                0 <= width <= 0xffff_ffff,
                0 <= size <= 2,
        ;
        let min_stride = width as u64 * size as u64;
        let stride = len / height as usize;
        if (stride as u64) < min_stride {
            return None;
        }
        Some(DynamicBuffer { raw, width, height, stride })
    }

    /// Returns an image buffer of eight bits with a copy of the given memory
    ///
    /// # Arguments
    ///
    /// * `width` - Width in pixels
    /// * `height` - Height in pixels
    /// * `channels` - Number of channels
    /// * `raw` - Raw memory region to copy
    pub fn with_raw(width: u32, height: u32, channels: u32, raw: &[u8]) -> (buf: Self)
        requires
            width * channels <= usize::MAX,
        ensures
            *buf.raw() == MemoryBuffer::U8(buf.raw()->U8_0),
            buf.raw()->U8_0@ == raw@,
            buf.width() == width,
            buf.height() == height,
            buf.stride() == width * channels,
    {
        assert(width as usize * channels as usize == width * channels) by (nonlinear_arith)
            requires
                width * channels <= usize::MAX,
        ;
        let stride = width as usize * channels as usize;
        DynamicBuffer {
            raw: MemoryBuffer::U8(vstd::slice::slice_to_vec(raw)),
            width,
            height,
            stride,
        }
    }

    /// Returns a buffer with a copy of what a view shows.
    pub fn from_view(view: &DynamicView) -> (buf: Self)
        ensures
            buf.raw().holds(&view.raw()),
            buf.width() == view.width(),
            buf.height() == view.height(),
            buf.stride() == view.stride(),
    {
        DynamicBuffer {
            raw: MemoryBuffer::from_view(&view.raw),
            width: view.width,
            height: view.height,
            stride: view.stride,
        }
    }

    /// Decomposes the image and returns the raw memory
    pub fn into_buf(self) -> (raw: MemoryBuffer)
        ensures
            raw == *self.raw(),
    {
        self.raw
    }

    /// Returns the raw memory
    #[verifier::when_used_as_spec(spec_raw)]
    pub fn raw(&self) -> (raw: &MemoryBuffer)
        ensures
            raw == self.spec_raw(),
    {
        &self.raw
    }

    /// Returns the raw memory
    pub fn raw_mut(&mut self) -> (raw: &mut MemoryBuffer)
        ensures
            *raw == *old(self).raw(),
            *final(self).raw() == *final(raw),
            final(self).width() == old(self).width(),
            final(self).height() == old(self).height(),
            final(self).stride() == old(self).stride(),
    {
        &mut self.raw
    }

    /// Returns the width in pixels
    #[verifier::when_used_as_spec(spec_width)]
    pub fn width(&self) -> (width: u32)
        ensures
            width == self.spec_width(),
    {
        self.width
    }

    /// Returns the height in pixels
    #[verifier::when_used_as_spec(spec_height)]
    pub fn height(&self) -> (height: u32)
        ensures
            height == self.spec_height(),
    {
        self.height
    }

    /// Returns the length of one image row in values
    #[verifier::when_used_as_spec(spec_stride)]
    pub fn stride(&self) -> (stride: usize)
        ensures
            stride == self.spec_stride(),
    {
        self.stride
    }

    /// Gives the buffer a new width, height and number of channels, without padding.
    ///
    /// The memory is cut or grows to `height` rows of the new stride. The values that stay
    /// keep their place in the memory; those that are added are zero.
    pub fn resize(&mut self, width: u32, height: u32, channels: u32)
        requires
            height * dynamic_stride(width, channels, old(self).raw().storage().size())
                <= usize::MAX,
            dynamic_stride(width, channels, old(self).raw().storage().size()) <= usize::MAX,
        ensures
            final(self).width() == width,
            final(self).height() == height,
            final(self).stride() == dynamic_stride(
                width,
                channels,
                old(self).raw().storage().size(),
            ),
            final(self).raw().storage() == old(self).raw().storage(),
            final(self).raw().len() == height * final(self).stride(),
            match (*old(self).raw(), *final(self).raw()) {
                (MemoryBuffer::U8(before), MemoryBuffer::U8(after)) => forall|k: int|
                    0 <= k < after@.len() ==> after@[k] == if k < before@.len() {
                        before@[k]
                    } else {
                        0
                    },
                (MemoryBuffer::U16(before), MemoryBuffer::U16(after)) => forall|k: int|
                    0 <= k < after@.len() ==> after@[k] == if k < before@.len() {
                        before@[k]
                    } else {
                        0
                    },
                _ => false,
            },
    {
        let size = self.raw.storage().size();
        assert(width as usize * channels as usize * size == dynamic_stride(width, channels, size)
            && width as usize * channels as usize <= usize::MAX) by (nonlinear_arith)
            requires
                dynamic_stride(width, channels, size) <= usize::MAX,
                1 <= size,
                dynamic_stride(width, channels, size) == width * channels * size,
        ;
        let stride = width as usize * channels as usize * size;
        self.width = width;
        self.height = height;
        self.stride = stride;
        let len = height as usize * stride;
        match &mut self.raw {
            MemoryBuffer::U8(buf) => {
                buf.resize(len, 0);
            },
            MemoryBuffer::U16(buf) => {
                buf.resize(len, 0);
            },
        }
    }

    /// Returns a view of the buffer.
    pub fn as_view(&self) -> (view: DynamicView<'_>)
        ensures
            self.raw().holds(&view.raw()),
            view.width() == self.width(),
            view.height() == self.height(),
            view.stride() == self.stride(),
    {
        DynamicView {
            raw: self.raw.as_view(),
            width: self.width,
            height: self.height,
            stride: self.stride,
        }
    }
}

} // verus!

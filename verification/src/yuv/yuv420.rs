//! YUV 4:2:0 in planes.
//!
//! A planar frame keeps its luma in one plane with a sample for each pixel, and each of its
//! two chroma channels in a plane of half the width and half the height, with a sample for
//! each block of two by two pixels. Packing gives every pixel the chroma of its block;
//! unpacking keeps of every block the chroma of its top left pixel.

use crate::error::Error;
use crate::yuv::yuv::Yuv;
use vstd::prelude::*;

verus! {

/// YUV 4:2:0 (Planar)
///
/// This is a zero-sized struct, providing useful functions for handling planar YUV images.
/// The planar format is often used for video encoding / decoding usecases. Most cameras which
/// output YUV image frames will usually use a packet format, e.g. YUYV aka Y422.
pub struct Yuv420p;

/// The place in a chroma plane of the sample for the pixel in row `row` and column `col` of a
/// frame of the given width.
pub open spec fn chroma_index(width: int, row: int, col: int) -> int {
    (row / 2) * (width / 2) + col / 2
}

/// The number of samples in the luma plane of a frame.
pub open spec fn luma_count(width: int, height: int) -> int {
    width * height
}

/// The number of samples in each chroma plane of a frame.
pub open spec fn chroma_count(width: int, height: int) -> int {
    (width / 2) * (height / 2)
}

/// Whether a frame of the given width and height is made of whole blocks of two by two
/// pixels.
pub open spec fn in_blocks(width: int, height: int) -> bool {
    width % 2 == 0 && height % 2 == 0
}

/// The packed sample of pixel `k`, counted row by row, of a frame with the given planes.
pub open spec fn packed_sample<T>(y: Seq<T>, u: Seq<T>, v: Seq<T>, width: int, k: int) -> [T; 3] {
    [
        y[k],
        u[chroma_index(width, k / width, k % width)],
        v[chroma_index(width, k / width, k % width)],
    ]
}

/// The pixel, counted row by row, at the top left of the block that sample `c` of a chroma
/// plane belongs to.
pub open spec fn block_corner(width: int, c: int) -> int {
    2 * (c / (width / 2)) * width + 2 * (c % (width / 2))
}

/// The pixels of a frame lie in its rows and columns, and their chroma samples in the chroma
/// planes.
pub proof fn lemma_chroma_index(width: int, height: int, k: int)
    requires
        0 < width,
        0 <= height,
        in_blocks(width, height),
        0 <= k < luma_count(width, height),
    ensures
        0 <= k / width < height,
        0 <= k % width < width,
        0 <= chroma_index(width, k / width, k % width) < chroma_count(width, height),
{
    let row = k / width;
    let col = k % width;
    assert(0 <= row < height) by (nonlinear_arith)
        requires
            0 < width,
            0 <= k < width * height,
            row == k / width,
    ;
    assert((row / 2) * (width / 2) + (width / 2) <= (height / 2) * (width / 2))
        by (nonlinear_arith)
        requires
            0 <= row / 2 < height / 2,
            0 <= width / 2,
    ;
    assert(0 <= (row / 2) * (width / 2)) by (nonlinear_arith)
        requires
            0 <= row / 2,
            0 <= width / 2,
    ;
}

/// The top left pixel of a block is a pixel of the frame, and its chroma sample is that of
/// the block.
pub proof fn lemma_block_corner(width: int, height: int, c: int)
    requires
        0 < width,
        0 <= height,
        in_blocks(width, height),
        0 <= c < chroma_count(width, height),
    ensures
        0 <= block_corner(width, c) < luma_count(width, height),
        chroma_index(width, block_corner(width, c) / width, block_corner(width, c) % width) == c,
{
    let half = width / 2;
    let br = c / half;
    let bc = c % half;
    assert(0 <= br < height / 2) by (nonlinear_arith)
        requires
            0 < half,
            0 <= c < half * (height / 2),
            br == c / half,
    ;
    assert(c == br * half + bc) by (nonlinear_arith)
        requires
            0 < half,
            br == c / half,
            bc == c % half,
    ;
    let k = 2 * br * width + 2 * bc;
    assert(0 <= 2 * br * width && 2 * br * width + width <= (height - 1) * width)
        by (nonlinear_arith)
        requires
            0 <= br,
            2 * br + 1 <= height - 1,
            0 < width,
    ;
    assert((height - 1) * width + width == width * height) by (nonlinear_arith);
    assert(k / width == 2 * br && k % width == 2 * bc) by (nonlinear_arith)
        requires
            k == 2 * br * width + 2 * bc,
            0 <= 2 * bc < width,
            0 < width,
    ;
}

impl Yuv420p {
    /// Returns packed Yuv444 color samples from a given slice.
    ///
    /// The slice holds the three planes of a frame one after the other. Fails with
    /// [`Error::OutOfBounds`] where [`Yuv420p::pack_bytes`] does.
    pub fn pack<T: Copy>(buf: &[T], width: u32, height: u32) -> (pixels: Result<
        Vec<Yuv<T, 0, 1, 2>>,
        Error,
    >)
        ensures
            pixels is Ok <==> in_blocks(width as int, height as int) && buf@.len() == luma_count(
                width as int,
                height as int,
            ) + 2 * chroma_count(width as int, height as int),
            pixels is Err ==> pixels->Err_0 == Error::OutOfBounds,
            pixels is Ok ==> {
                let luma = luma_count(width as int, height as int);
                let chroma = chroma_count(width as int, height as int);
                &&& pixels->Ok_0@.len() == luma
                &&& forall|k: int|
                    0 <= k < luma ==> (#[trigger] pixels->Ok_0@[k]).0 == packed_sample(
                        buf@.subrange(0, luma),
                        buf@.subrange(luma, luma + chroma),
                        buf@.subrange(luma + chroma, luma + 2 * chroma),
                        width as int,
                        k,
                    )
            },
    {
        let chunks = Self::pack_bytes(buf, width, height)?;
        let mut pixels: Vec<Yuv<T, 0, 1, 2>> = Vec::new();
        let mut k: usize = 0;
        while k < chunks.len()
            invariant
                k <= chunks@.len(),
                pixels@.len() == k,
                forall|j: int| 0 <= j < k ==> (#[trigger] pixels@[j]).0 == chunks@[j],
            decreases chunks@.len() - k,
        {
            pixels.push(Yuv(chunks[k]));
            k += 1;
        }
        Ok(pixels)
    }

    /// Returns packed Yuv444 color samples as byte chunks from a given slice.
    ///
    /// The slice holds the three planes of a frame one after the other: luma, blue chroma, red
    /// chroma. Fails with [`Error::OutOfBounds`] where the width or the height of the frame
    /// is odd, or where the slice is not as long as the three planes of the frame.
    pub fn pack_bytes<T: Copy>(buf: &[T], width: u32, height: u32) -> (chunks: Result<
        Vec<[T; 3]>,
        Error,
    >)
        ensures
            chunks is Ok <==> in_blocks(width as int, height as int) && buf@.len() == luma_count(
                width as int,
                height as int,
            ) + 2 * chroma_count(width as int, height as int),
            chunks is Err ==> chunks->Err_0 == Error::OutOfBounds,
            chunks is Ok ==> {
                let luma = luma_count(width as int, height as int);
                let chroma = chroma_count(width as int, height as int);
                &&& chunks->Ok_0@.len() == luma
                &&& forall|k: int|
                    0 <= k < luma ==> #[trigger] chunks->Ok_0@[k] == packed_sample(
                        buf@.subrange(0, luma),
                        buf@.subrange(luma, luma + chroma),
                        buf@.subrange(luma + chroma, luma + 2 * chroma),
                        width as int,
                        k,
                    )
            },
    {
        assert(width * height <= 0xffff_ffff * 0xffff_ffff && (width / 2) * (height / 2)
            <= 0xffff_ffff * 0xffff_ffff && 0 <= (width / 2) * (height / 2)) by (nonlinear_arith)
            requires
                0 <= width <= 0xffff_ffff,
                0 <= height <= 0xffff_ffff,
        ;
        let luma = width as u64 * height as u64;
        let chroma = (width / 2) as u64 * (height / 2) as u64;
        let len = buf.len();
        if len as u128 != luma as u128 + 2 * chroma as u128 {
            return Err(Error::OutOfBounds);
        }
        let luma = luma as usize;
        let chroma = chroma as usize;
        let y = vstd::slice::slice_subrange(buf, 0, luma);
        let u = vstd::slice::slice_subrange(buf, luma, luma + chroma);
        let v = vstd::slice::slice_subrange(buf, luma + chroma, luma + 2 * chroma);
        Self::pack_planes(y, u, v, width, height)
    }

    /// Returns packed Yuv444 color samples as byte chunks from YUV planes.
    ///
    /// Every pixel gets its own luma and the chroma of the block of two by two pixels that it
    /// lies in. Fails with [`Error::OutOfBounds`] where the width or the height of the frame
    /// is odd, or where a plane does not have the length that the frame gives it.
    pub fn pack_planes<T: Copy>(y: &[T], u: &[T], v: &[T], width: u32, height: u32) -> (chunks:
        Result<Vec<[T; 3]>, Error>)
        ensures
            chunks is Ok <==> {
                &&& in_blocks(width as int, height as int)
                &&& y@.len() == luma_count(width as int, height as int)
                &&& u@.len() == chroma_count(width as int, height as int)
                &&& v@.len() == chroma_count(width as int, height as int)
            },
            chunks is Err ==> chunks->Err_0 == Error::OutOfBounds,
            chunks is Ok ==> {
                &&& chunks->Ok_0@.len() == y@.len()
                &&& forall|k: int|
                    0 <= k < y@.len() ==> #[trigger] chunks->Ok_0@[k] == packed_sample(
                        y@,
                        u@,
                        v@,
                        width as int,
                        k,
                    )
            },
    {
        if !Self::planes_match(y.len(), u.len(), v.len(), width, height) {
            return Err(Error::OutOfBounds);
        }
        let count = y.len();
        let chroma = u.len();
        let mut chunks: Vec<[T; 3]> = Vec::new();
        let mut k: usize = 0;
        while k < count
            invariant
                in_blocks(width as int, height as int),
                count == y@.len(),
                chroma == u@.len(),
                y@.len() == luma_count(width as int, height as int),
                u@.len() == chroma_count(width as int, height as int),
                v@.len() == chroma_count(width as int, height as int),
                k <= count,
                chunks@.len() == k,
                forall|j: int|
                    0 <= j < k ==> #[trigger] chunks@[j] == packed_sample(
                        y@,
                        u@,
                        v@,
                        width as int,
                        j,
                    ),
            decreases count - k,
        {
            proof {
                assert(width > 0) by (nonlinear_arith)
                    requires
                        0 <= k < width * height,
                        0 <= width,
                ;
                lemma_chroma_index(width as int, height as int, k as int);
            }
            let row = k / width as usize;
            let col = k % width as usize;
            let half = (width / 2) as usize;
            assert(0 <= (row / 2) * half <= chroma_index(width as int, row as int, col as int))
                by (nonlinear_arith)
                requires
                    0 <= row,
                    0 <= col,
                    half == width / 2,
            ;
            let c = (row / 2) * half + col / 2;
            let chunk = [y[k], u[c], v[c]];
            chunks.push(chunk);
            k += 1;
        }
        Ok(chunks)
    }

    /// Unpacks packed Yuv444 color samples into Y, U, V planes.
    ///
    /// Fails with [`Error::OutOfBounds`] where [`Yuv420p::unpack_bytes`] does, and writes
    /// nothing then.
    ///
    /// # Arguments
    ///
    /// * `yuv444` - Yuv444 samples, row by row
    /// * `y` - Luma plane
    /// * `u` - Chroma (blue) plane
    /// * `v` - Chroma (red) plane
    /// * `width` - Width of the frame in pixels
    /// * `height` - Height of the frame in pixels
    pub fn unpack<T: Copy>(
        yuv444: &[Yuv<T, 0, 1, 2>],
        y: &mut [T],
        u: &mut [T],
        v: &mut [T],
        width: u32,
        height: u32,
    ) -> (done: Result<(), Error>)
        ensures
            final(y)@.len() == old(y)@.len(),
            final(u)@.len() == old(u)@.len(),
            final(v)@.len() == old(v)@.len(),
            done is Ok <==> {
                &&& in_blocks(width as int, height as int)
                &&& yuv444@.len() == luma_count(width as int, height as int)
                &&& old(y)@.len() == luma_count(width as int, height as int)
                &&& old(u)@.len() == chroma_count(width as int, height as int)
                &&& old(v)@.len() == chroma_count(width as int, height as int)
            },
            done is Err ==> done->Err_0 == Error::OutOfBounds && final(y)@ == old(y)@ && final(u)@
                == old(u)@ && final(v)@ == old(v)@,
            done is Ok ==> {
                &&& forall|k: int| 0 <= k < yuv444@.len() ==> #[trigger] final(y)@[k] == yuv444@[k].0[0]
                &&& forall|c: int|
                    0 <= c < old(u)@.len() ==> #[trigger] final(u)@[c] == yuv444@[block_corner(
                        width as int,
                        c,
                    )].0[1]
                &&& forall|c: int|
                    0 <= c < old(v)@.len() ==> #[trigger] final(v)@[c] == yuv444@[block_corner(
                        width as int,
                        c,
                    )].0[2]
            },
    {
        let mut chunks: Vec<[T; 3]> = Vec::new();
        let mut k: usize = 0;
        while k < yuv444.len()
            invariant
                k <= yuv444@.len(),
                chunks@.len() == k,
                forall|j: int| 0 <= j < k ==> #[trigger] chunks@[j] == yuv444@[j].0,
            decreases yuv444@.len() - k,
        {
            chunks.push(yuv444[k].0);
            k += 1;
        }
        let done = Self::unpack_bytes(chunks.as_slice(), y, u, v, width, height);
        proof {
            if done is Ok {
                assert forall|c: int| 0 <= c < old(u)@.len() implies 0 <= #[trigger] block_corner(
                    width as int,
                    c,
                ) < yuv444@.len() by {
                    if width > 0 {
                        lemma_block_corner(width as int, height as int, c);
                    } else {
                        assert(chroma_count(width as int, height as int) == 0) by (nonlinear_arith)
                            requires
                                width == 0,
                        ;
                    }
                }
            }
        }
        done
    }

    /// Unpacks packed Yuv444 color samples into Y, U, V planes.
    ///
    /// The luma plane gets the luma of every pixel. Each chroma plane gets, for every block of
    /// two by two pixels, the chroma of the pixel at the top left of the block; the chroma of
    /// the other three is lost. Fails with [`Error::OutOfBounds`] where the width or the
    /// height of the frame is odd, or where the samples or a plane do not have the length
    /// that the frame gives them, and writes nothing then.
    ///
    /// # Arguments
    ///
    /// * `yuv444` - Yuv444 byte chunks, row by row
    /// * `y` - Luma plane
    /// * `u` - Chroma (blue) plane
    /// * `v` - Chroma (red) plane
    /// * `width` - Width of the frame in pixels
    /// * `height` - Height of the frame in pixels
    pub fn unpack_bytes<T: Copy>(
        yuv444: &[[T; 3]],
        y: &mut [T],
        u: &mut [T],
        v: &mut [T],
        width: u32,
        height: u32,
    ) -> (done: Result<(), Error>)
        ensures
            final(y)@.len() == old(y)@.len(),
            final(u)@.len() == old(u)@.len(),
            final(v)@.len() == old(v)@.len(),
            done is Ok <==> {
                &&& in_blocks(width as int, height as int)
                &&& yuv444@.len() == luma_count(width as int, height as int)
                &&& old(y)@.len() == luma_count(width as int, height as int)
                &&& old(u)@.len() == chroma_count(width as int, height as int)
                &&& old(v)@.len() == chroma_count(width as int, height as int)
            },
            done is Err ==> done->Err_0 == Error::OutOfBounds && final(y)@ == old(y)@ && final(u)@
                == old(u)@ && final(v)@ == old(v)@,
            done is Ok ==> {
                &&& forall|k: int| 0 <= k < yuv444@.len() ==> #[trigger] final(y)@[k] == yuv444@[k][0]
                &&& forall|c: int|
                    0 <= c < old(u)@.len() ==> #[trigger] final(u)@[c] == yuv444@[block_corner(
                        width as int,
                        c,
                    )][1]
                &&& forall|c: int|
                    0 <= c < old(v)@.len() ==> #[trigger] final(v)@[c] == yuv444@[block_corner(
                        width as int,
                        c,
                    )][2]
            },
    {
        let luma = y.len();
        let chroma = u.len();
        if yuv444.len() != luma || !Self::planes_match(luma, chroma, v.len(), width, height) {
            return Err(Error::OutOfBounds);
        }
        let mut k: usize = 0;
        while k < luma
            invariant
                luma == yuv444@.len(),
                y@.len() == luma,
                k <= luma,
                forall|j: int| 0 <= j < k ==> #[trigger] y@[j] == yuv444@[j][0],
            decreases luma - k,
        {
            y[k] = yuv444[k][0];
            k += 1;
        }
        let half = (width / 2) as usize;
        let mut c: usize = 0;
        while c < chroma
            invariant
                in_blocks(width as int, height as int),
                half == width / 2,
                luma == yuv444@.len(),
                luma == luma_count(width as int, height as int),
                chroma == chroma_count(width as int, height as int),
                u@.len() == chroma,
                v@.len() == chroma,
                c <= chroma,
                forall|j: int|
                    0 <= j < c ==> #[trigger] u@[j] == yuv444@[block_corner(width as int, j)][1],
                forall|j: int|
                    0 <= j < c ==> #[trigger] v@[j] == yuv444@[block_corner(width as int, j)][2],
            decreases chroma - c,
        {
            proof {
                assert(half > 0) by (nonlinear_arith)
                    requires
                        0 <= c < half * (height / 2),
                        0 <= half,
                ;
                lemma_block_corner(width as int, height as int, c as int);
                assert(0 <= 2 * (c / half) * width <= block_corner(width as int, c as int))
                    by (nonlinear_arith)
                    requires
                        0 <= c,
                        0 < half,
                        0 <= width,
                        block_corner(width as int, c as int) == 2 * (c as int / half as int)
                            * width + 2 * (c as int % half as int),
                ;
                assert(0 <= 2 * (c / half) <= 2 * (c / half) * width) by (nonlinear_arith)
                    requires
                        0 <= c / half,
                        1 <= width,
                ;
            }
            let corner = 2 * (c / half) * width as usize + 2 * (c % half);
            let chunk = yuv444[corner];
            u[c] = chunk[1];
            v[c] = chunk[2];
            c += 1;
        }
        Ok(())
    }

    /// Whether planes of the given lengths are those of a frame of whole blocks with the
    /// given width and height.
    fn planes_match(y_len: usize, u_len: usize, v_len: usize, width: u32, height: u32) -> (ok:
        bool)
        ensures
            ok <==> {
                &&& in_blocks(width as int, height as int)
                &&& y_len == luma_count(width as int, height as int)
                &&& u_len == chroma_count(width as int, height as int)
                &&& v_len == chroma_count(width as int, height as int)
            },
    {
        assert(width * height <= 0xffff_ffff * 0xffff_ffff && (width / 2) * (height / 2)
            <= 0xffff_ffff * 0xffff_ffff && 0 <= (width / 2) * (height / 2)) by (nonlinear_arith)
            requires
                0 <= width <= 0xffff_ffff,
                0 <= height <= 0xffff_ffff,
        ;
        let luma = width as u64 * height as u64;
        let chroma = (width / 2) as u64 * (height / 2) as u64;
        width % 2 == 0 && height % 2 == 0 && y_len as u64 == luma && u_len as u64 == chroma
            && v_len as u64 == chroma
    }
}

/// The planes of a frame that is packed and unpacked again are what they were: packing gives
/// the top left pixel of every block the chroma sample of the block, and that is the one
/// that unpacking keeps.
pub proof fn lemma_pack_then_unpack<T>(y: Seq<T>, u: Seq<T>, v: Seq<T>, width: int, height: int)
    requires
        0 <= width,
        0 <= height,
        in_blocks(width, height),
        y.len() == luma_count(width, height),
        u.len() == chroma_count(width, height),
        v.len() == chroma_count(width, height),
    ensures
        forall|k: int| 0 <= k < y.len() ==> (#[trigger] packed_sample(y, u, v, width, k))[0] == y[k],
        forall|c: int|
            0 <= c < u.len() ==> packed_sample(y, u, v, width, block_corner(width, c))[1]
                == #[trigger] u[c],
        forall|c: int|
            0 <= c < v.len() ==> packed_sample(y, u, v, width, block_corner(width, c))[2]
                == #[trigger] v[c],
{
    if width == 0 {
        assert(chroma_count(width, height) == 0) by (nonlinear_arith)
            requires
                width == 0,
        ;
    } else {
        assert forall|c: int| 0 <= c < u.len() implies packed_sample(
            y,
            u,
            v,
            width,
            block_corner(width, c),
        )[1] == #[trigger] u[c] by {
            lemma_block_corner(width, height, c);
        }
        assert forall|c: int| 0 <= c < v.len() implies packed_sample(
            y,
            u,
            v,
            width,
            block_corner(width, c),
        )[2] == #[trigger] v[c] by {
            lemma_block_corner(width, height, c);
        }
    }
}

} // verus!

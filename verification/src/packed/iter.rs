//! Iteration over the pixels and the rows of an image.

use crate::iter::Stream;
use crate::packed::buffer::Buffer;
use crate::packed::image::{Grid, Image};
use crate::traits::{GenericImageView, Pixel};
use vstd::prelude::*;

verus! {

/// The stored pixels of a grid from place `start` on, counted row by row.
pub open spec fn pixels_from<P: Pixel>(grid: Grid<P::T>, start: int) -> Seq<P> {
    let per_row = grid.per_row::<P>();
    let total = grid.height * per_row;
    if 0 <= start < total {
        Seq::new(
            (total - start) as nat,
            |k: int| grid.stored::<P>((start + k) % per_row, (start + k) / per_row),
        )
    } else {
        Seq::empty()
    }
}

/// Where a pixel lies in its row and which row it lies in, from its place in the image.
pub proof fn lemma_place_in_row(per_row: int, height: int, x: int, y: int)
    by (nonlinear_arith)
    requires
        0 <= x < per_row,
        0 <= y < height,
    ensures
        (y * per_row + x) / per_row == y,
        (y * per_row + x) % per_row == x,
        0 <= y * per_row + x < height * per_row,
        (y + 1) * per_row == y * per_row + per_row,
{
}

/// An iterator type for images to iterate through pixels
///
/// The pixels come row by row, each row from the left to the right.
pub struct PixelIter<'a, P: Pixel, B> {
    img: &'a Image<P, B>,
    x: u32,
    y: u32,
}

impl<'a, P: Pixel, B: Buffer<P::T>> PixelIter<'a, P, B> {
    /// The image.
    pub closed spec fn image(&self) -> &'a Image<P, B> {
        self.img
    }

    /// The place in the image, counted row by row, of the pixel that comes next.
    pub closed spec fn place(&self) -> int {
        if self.x < self.img.per_row() {
            self.y * self.img.per_row() + self.x
        } else {
            (self.y + 1) * self.img.per_row()
        }
    }

    /// Returns an iterator which goes through all image pixels
    ///
    /// # Arguments
    ///
    /// * `img` - An image instance
    pub fn new(img: &'a Image<P, B>) -> (iter: Self)
        requires
            img.wf(),
        ensures
            iter.ready(),
            iter.image() == img,
            iter.rest() == pixels_from::<P>(img.grid(), 0),
    {
        let iter = PixelIter { img, x: 0, y: 0 };
        proof {
            img.lemma_wf();
            assert(0 * img.per_row() + 0 == 0 && (0 + 1) * img.per_row() == img.per_row())
                by (nonlinear_arith);
            if img.per_row() == 0 {
                assert(img.spec_height() * img.per_row() == 0) by (nonlinear_arith)
                    requires
                        img.per_row() == 0,
                ;
            }
        }
        iter
    }

    /// Returns an iterator which starts at the specified coordinate offsets
    ///
    /// # Arguments
    ///
    /// * `img` - An image instance
    /// * `x` - X offset, in stored pixels
    /// * `y` - Y offset
    pub fn with_offset(img: &'a Image<P, B>, x: u32, y: u32) -> (iter: Self)
        requires
            img.wf(),
        ensures
            iter.ready(),
            iter.image() == img,
            iter.rest() == pixels_from::<P>(
                img.grid(),
                if x < img.per_row() {
                    y * img.per_row() + x
                } else {
                    (y + 1) * img.per_row()
                },
            ),
    {
        PixelIter { img, x, y }
    }
}

impl<'a, P: Pixel, B: Buffer<P::T>> Stream for PixelIter<'a, P, B> {
    type Item = P;

    open spec fn ready(&self) -> bool {
        self.image().wf()
    }

    open spec fn rest(&self) -> Seq<P> {
        pixels_from::<P>(self.image().grid(), self.place())
    }

    fn next(&mut self) -> (item: Option<P>) {
        proof {
            P::lemma_shape();
            self.img.lemma_wf();
        }
        let per_row = self.img.width() / P::subpixels() as u32;
        let height = self.img.height();
        if self.y >= height || per_row == 0 {
            proof {
                if per_row > 0 {
                    assert(self.y * per_row >= height * per_row && (self.y + 1) * per_row
                        >= height * per_row) by (nonlinear_arith)
                        requires
                            self.y >= height,
                            per_row > 0,
                    ;
                } else {
                    assert(height * per_row == 0) by (nonlinear_arith)
                        requires
                            per_row == 0,
                    ;
                }
            }
            return None;
        }
        if self.x >= per_row {
            self.x = 0;
            self.y += 1;
            if self.y >= height {
                proof {
                    assert(self.y * per_row >= height * per_row) by (nonlinear_arith)
                        requires
                            self.y >= height,
                            per_row > 0,
                    ;
                }
                return None;
            }
        }
        proof {
            lemma_place_in_row(per_row as int, height as int, self.x as int, self.y as int);
        }
        let pix = self.img.load(self.x, self.y);
        self.x += 1;
        Some(pix)
    }
}

/// An iterator type for images to iterate through pixel rows
pub struct RowIter<'a, P: Pixel, B> {
    img: &'a Image<P, B>,
    y: u32,
}

impl<'a, P: Pixel, B: Buffer<P::T>> RowIter<'a, P, B> {
    /// The image.
    pub closed spec fn image(&self) -> &'a Image<P, B> {
        self.img
    }

    /// The row that comes next.
    pub closed spec fn row(&self) -> u32 {
        self.y
    }

    /// Returns an iterator which goes through all image pixel rows
    ///
    /// # Arguments
    ///
    /// * `img` - An image instance
    pub fn new(img: &'a Image<P, B>) -> (iter: Self)
        ensures
            iter.image() == img,
            iter.row() == 0,
    {
        RowIter { img, y: 0 }
    }

    /// Returns an iterator which starts at the specified row
    ///
    /// # Arguments
    ///
    /// * `img` - An image instance
    /// * `y` - Y offset
    pub fn with_offset(img: &'a Image<P, B>, y: u32) -> (iter: Self)
        ensures
            iter.image() == img,
            iter.row() == y,
    {
        RowIter { img, y }
    }

    /// Hands out the stored pixels of the next row, where there is one.
    pub fn next(&mut self) -> (pixels: Option<Vec<P>>)
        requires
            old(self).image().wf(),
        ensures
            final(self).image() == old(self).image(),
            old(self).row() >= old(self).image().spec_height() ==> pixels is None
                && final(self).row() == old(self).row(),
            old(self).row() < old(self).image().spec_height() ==> pixels is Some && pixels->0@
                == old(self).image().row_pixels(old(self).row() as int) && final(self).row()
                == old(self).row() + 1,
    {
        if self.y >= self.img.height() {
            return None;
        }
        let pixels = self.img.row(self.y);
        self.y += 1;
        Some(pixels)
    }
}

} // verus!

//! The conversion of whole images.
//!
//! An image is converted row by row: the rule of the two pixel formats turns each row of the
//! source into the row of the destination at the same height. Rows do not depend on each
//! other.

use crate::error::Error;
use crate::packed::buffer::{Buffer, BufferMut};
use crate::packed::image::{min_stride, stored_per_row, Grid, Image};
use crate::packed::matrix::lemma_product_bounds;
use crate::storage::Channel;
use crate::traits::{map_row, Convert, GenericImageView, MapPixels, Pixel, TryConvert};
use vstd::prelude::*;

verus! {

/// Whether the rule between the formats `SP` and `DP` has a result for every pixel that it
/// writes where the first `rows` rows of `input` are converted into rows of `per_row`
/// destination pixels.
pub open spec fn rows_mappable<SP: Pixel + MapPixels<SP, DP>, DP: Pixel>(
    input: Grid<SP::T>,
    per_row: int,
    rows: int,
) -> bool {
    forall|y: int|
        0 <= y < rows ==> <SP as MapPixels<SP, DP>>::mappable(
            #[trigger] input.row_pixels::<SP>(y),
            per_row as nat,
        )
}

/// Whether `after` is `before` with its first `rows` rows converted from those of `input`.
///
/// Each of these rows holds what the rule between the formats `SP` and `DP` makes of the row
/// of `input` at the same height. Every place of the buffer that belongs to no pixel of these
/// rows holds what it held before: the other rows, the padding, and what lies behind the last
/// row.
pub open spec fn rows_converted<SP: Pixel + MapPixels<SP, DP>, DP: Pixel>(
    input: Grid<SP::T>,
    before: Grid<DP::T>,
    after: Grid<DP::T>,
    rows: int,
) -> bool {
    &&& after.width == before.width
    &&& after.height == before.height
    &&& after.stride == before.stride
    &&& after.data.len() == before.data.len()
    &&& forall|y: int|
        0 <= y < rows ==> #[trigger] after.row_pixels::<DP>(y) == map_row::<SP, SP, DP>(
            input.row_pixels::<SP>(y),
            before.row_pixels::<DP>(y),
        )
    &&& forall|k: int|
        0 <= k < before.data.len() && (forall|y: int| 0 <= y < rows ==> !before.in_row::<DP>(k, y))
            ==> #[trigger] after.data[k] == before.data[k]
}

/// The number of rows that two images of the given heights share.
pub open spec fn overlap(a: u32, b: u32) -> int {
    if a < b {
        a as int
    } else {
        b as int
    }
}

/// Converts the first `rows` rows of `input` into those of `output`.
fn _convert<SP, DP, T, U>(input: &Image<SP, T>, output: &mut Image<DP, U>, rows: u32)
    where
        SP: Pixel + MapPixels<SP, DP>,
        DP: Pixel,
        T: Buffer<SP::T>,
        U: BufferMut<DP::T>,

    requires
        input.wf(),
        old(output).wf(),
        rows <= input.spec_height(),
        rows <= old(output).spec_height(),
        rows_mappable::<SP, DP>(input.grid(), old(output).per_row(), rows as int),
    ensures
        final(output).wf(),
        rows_converted::<SP, DP>(input.grid(), old(output).grid(), final(output).grid(), rows as int),
{
    let mut y: u32 = 0;
    while y < rows
        invariant
            input.wf(),
            output.wf(),
            old(output).wf(),
            y <= rows,
            rows <= input.spec_height(),
            rows <= old(output).spec_height(),
            rows_mappable::<SP, DP>(input.grid(), old(output).per_row(), rows as int),
            rows_converted::<SP, DP>(input.grid(), old(output).grid(), output.grid(), y as int),
            forall|y2: int|
                y <= y2 < old(output).spec_height() ==> #[trigger] output.row_pixels(y2) == old(
                    output,
                ).row_pixels(y2),
        decreases rows - y,
    {
        let in_row = input.row(y);
        let mut out_row = output.row(y);
        let ghost before = *output;
        <SP as MapPixels<SP, DP>>::map_pixels(in_row.as_slice(), out_row.as_mut_slice());
        output.set_row(y, out_row.as_slice());
        proof {
            output.lemma_wf();
            // the row that was written holds what the rule made of it
            let target = map_row::<SP, SP, DP>(
                input.row_pixels(y as int),
                old(output).row_pixels(y as int),
            );
            assert forall|i: int| 0 <= i < output.per_row() implies #[trigger] output.grid().stored::<
                DP,
            >(i, y as int) == target[i] by {
                assert(output.stored(i, y as int) == out_row@[i]);
            }
            // every other row holds what it held
            assert forall|y2: int|
                0 <= y2 < old(output).spec_height() && y2 != y implies #[trigger] output.row_pixels(
                y2,
            ) == before.row_pixels(y2) by {
                Image::<DP, U>::lemma_other_rows(&before, output, y as int, y2);
            }
            // and so does every place that belongs to no pixel of the rows so far
            assert forall|k: int|
                0 <= k < old(output).data().len() && (forall|y3: int|
                    0 <= y3 < y + 1 ==> !old(output).grid().in_row::<DP>(
                        k,
                        y3,
                    )) implies #[trigger] output.data()[k] == old(output).data()[k] by {
                assert(!old(output).grid().in_row::<DP>(k, y as int));
            }
            assert forall|y3: int| 0 <= y3 < y + 1 implies #[trigger] output.grid().row_pixels::<
                DP,
            >(y3) == map_row::<SP, SP, DP>(
                input.grid().row_pixels::<SP>(y3),
                old(output).grid().row_pixels::<DP>(y3),
            ) by {
                if y3 < y {
                    assert(output.row_pixels(y3) == before.row_pixels(y3));
                }
            }
        }
        y += 1;
    }
}

// A destination that owns its pixels takes the width and the height of the source. Where it
// has them already it keeps its buffer, and what the rule does not write stays as it is;
// where it has others it gets a new buffer without padding, and what the rule does not write
// is zero.
impl<SP: Pixel + MapPixels<SP, DP>, DP: Pixel, T: Buffer<SP::T>> Convert<Image<DP, Vec<DP::T>>> for Image<SP, T> where DP::T: Channel {
    open spec fn convertible_into(&self, output: &Image<DP, Vec<DP::T>>) -> bool {
        &&& self.wf()
        &&& output.wf()
        &&& min_stride::<DP>(self.spec_width()) <= u32::MAX
        &&& self.spec_height() * min_stride::<DP>(self.spec_width()) <= usize::MAX
        &&& rows_mappable::<SP, DP>(
            self.grid(),
            stored_per_row::<DP>(self.spec_width()),
            self.spec_height() as int,
        )
    }

    open spec fn converted_into(
        &self,
        before: &Image<DP, Vec<DP::T>>,
        after: &Image<DP, Vec<DP::T>>,
    ) -> bool {
        let base = if before.spec_width() == self.spec_width() && before.spec_height()
            == self.spec_height() {
            before.grid()
        } else {
            Grid::filled::<DP>(
                self.spec_width(),
                self.spec_height(),
                <DP::T as Channel>::of_value(0),
            )
        };
        &&& after.wf()
        &&& after.spec_width() == self.spec_width()
        &&& after.spec_height() == self.spec_height()
        &&& rows_converted::<SP, DP>(self.grid(), base, after.grid(), self.spec_height() as int)
    }

    fn convert(&self, output: &mut Image<DP, Vec<DP::T>>) {
        if output.width() != self.width() || output.height() != self.height() {
            *output = Image::new(self.width(), self.height(), <DP::T as Channel>::zero());
        }
        _convert(self, output, self.height());
    }
}

// A destination of fixed size is written where it and the source overlap: in the rows that
// both have, as far as the shorter of the two rows goes. The rest of it stays as it is.
impl<'a, SP: Pixel + MapPixels<SP, DP>, DP: Pixel, T: Buffer<SP::T>> Convert<Image<DP, &'a mut [DP::T]>> for Image<SP, T> {
    open spec fn convertible_into(&self, output: &Image<DP, &'a mut [DP::T]>) -> bool {
        &&& self.wf()
        &&& output.wf()
        &&& rows_mappable::<SP, DP>(
            self.grid(),
            output.per_row(),
            overlap(self.spec_height(), output.spec_height()),
        )
    }

    open spec fn converted_into(
        &self,
        before: &Image<DP, &'a mut [DP::T]>,
        after: &Image<DP, &'a mut [DP::T]>,
    ) -> bool {
        &&& after.wf()
        &&& rows_converted::<SP, DP>(
            self.grid(),
            before.grid(),
            after.grid(),
            overlap(self.spec_height(), before.spec_height()),
        )
    }

    fn convert(&self, output: &mut Image<DP, &'a mut [DP::T]>) {
        let rows = if self.height() < output.height() {
            self.height()
        } else {
            output.height()
        };
        _convert(self, output, rows);
    }
}

// A destination of fixed size that is narrower or lower than the source is refused, and
// nothing is written to it.
impl<'a, SP: Pixel + MapPixels<SP, DP>, DP: Pixel, T: Buffer<SP::T>> TryConvert<Image<DP, &'a mut [DP::T]>> for Image<SP, T> {
    open spec fn try_convertible_into(&self, output: &Image<DP, &'a mut [DP::T]>) -> bool {
        &&& self.wf()
        &&& output.wf()
        &&& rows_mappable::<SP, DP>(self.grid(), output.per_row(), self.spec_height() as int)
    }

    open spec fn fits_into(&self, output: &Image<DP, &'a mut [DP::T]>) -> bool {
        self.spec_width() <= output.spec_width() && self.spec_height() <= output.spec_height()
    }

    open spec fn try_converted_into(
        &self,
        before: &Image<DP, &'a mut [DP::T]>,
        after: &Image<DP, &'a mut [DP::T]>,
    ) -> bool {
        &&& after.wf()
        &&& rows_converted::<SP, DP>(
            self.grid(),
            before.grid(),
            after.grid(),
            self.spec_height() as int,
        )
    }

    fn try_convert(&self, output: &mut Image<DP, &'a mut [DP::T]>) -> (done: Result<(), Error>) {
        if output.width() < self.width() || output.height() < self.height() {
            return Err(Error::TooSmall);
        }
        _convert(self, output, self.height());
        Ok(())
    }
}

/// Where a row has been converted by a rule that turns one pixel into one pixel, each pixel of
/// the destination row that the source row reaches is what the rule makes of the source pixel
/// in the same place, and each pixel beyond is what it was.
pub proof fn lemma_converted_pixel<SP: Pixel, DP: Pixel + crate::traits::FromPixel<SP>>(
    input: Grid<SP::T>,
    before: Grid<DP::T>,
    after: Grid<DP::T>,
    rows: int,
    i: int,
    y: int,
)
    requires
        rows_converted::<SP, DP>(input, before, after, rows),
        0 <= y < rows,
        0 <= i < before.per_row::<DP>(),
        0 <= input.per_row::<SP>(),
    ensures
        after.stored::<DP>(i, y) == if i < input.per_row::<SP>() {
            DP::converted(input.stored::<SP>(i, y))
        } else {
            before.stored::<DP>(i, y)
        },
{
    assert(after.row_pixels::<DP>(y)[i] == after.stored::<DP>(i, y));
}

} // verus!

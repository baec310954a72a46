//! The row-major layout that images are built on.

use crate::packed::buffer::{Buffer, BufferMut};
use std::marker::PhantomData;
use vstd::prelude::*;

verus! {

/// 2D matrix in row-major order.
///
/// The cells of a row lie next to each other in the buffer, and row `i` starts `i` times the
/// row stride behind the start of the buffer. The stride is at least the number of columns;
/// what it has more is padding behind each row. The buffer holds at least as many values as
/// the rows with their padding take.
#[derive(Debug)]
pub struct Matrix<T, B> {
    mem: B,
    rows: u32,
    row_stride: usize,
    cols: u32,
    marker: PhantomData<T>,
}

/// The values of `data` with those from `start` on replaced by `patch`, as far as `patch`
/// goes.
pub open spec fn patched<T>(data: Seq<T>, start: int, patch: Seq<T>) -> Seq<T> {
    Seq::new(
        data.len(),
        |k: int|
            if start <= k < start + patch.len() {
                patch[k - start]
            } else {
                data[k]
            },
    )
}

/// The product of two bounded numbers is bounded by the product of the bounds.
pub proof fn lemma_product_bounds(a: int, b: int, c: int)
    by (nonlinear_arith)
    requires
        0 <= a <= b,
        0 <= c,
    ensures
        0 <= a * c <= b * c,
        a * c + c == (a + 1) * c,
{
}

impl<T: Copy, B: Buffer<T>> Matrix<T, B> {
    /// The invariant of the layout: the stride covers the columns, and the buffer covers the
    /// rows.
    pub closed spec fn wf(&self) -> bool {
        &&& self.cols <= self.row_stride
        &&& self.rows * self.row_stride <= self.mem.elems().len()
    }

    /// The values in the buffer.
    pub closed spec fn data(&self) -> Seq<T> {
        self.mem.elems()
    }

    /// The row count.
    pub closed spec fn spec_rows(&self) -> u32 {
        self.rows
    }

    /// The column count.
    pub closed spec fn spec_cols(&self) -> u32 {
        self.cols
    }

    /// The length of one row with its padding.
    pub closed spec fn spec_row_stride(&self) -> usize {
        self.row_stride
    }

    /// Where row `index` starts in the buffer.
    pub open spec fn row_start(&self, index: int) -> int {
        index * self.row_stride()
    }

    /// Row `index` with its padding.
    pub open spec fn row_values(&self, index: int) -> Seq<T> {
        self.data().subrange(self.row_start(index), self.row_start(index) + self.row_stride())
    }

    /// What the invariant says, for those who cannot see the fields.
    pub proof fn lemma_wf(&self)
        requires
            self.wf(),
        ensures
            self.cols() <= self.row_stride(),
            self.rows() * self.row_stride() <= self.data().len(),
            forall|i: int|
                0 <= i < self.rows() ==> 0 <= #[trigger] self.row_start(i) && self.row_start(i)
                    + self.row_stride() <= self.data().len(),
    {
        assert forall|i: int| 0 <= i < self.rows() implies 0 <= #[trigger] self.row_start(i)
            && self.row_start(i) + self.row_stride() <= self.data().len() by {
            lemma_product_bounds(i, self.rows() - 1, self.row_stride() as int);
            lemma_product_bounds(self.rows() - 1, self.rows() - 1, self.row_stride() as int);
        }
    }

    /// Decomposes the matrix and returns the backing buffer
    pub fn into_buf(self) -> (buf: B)
        ensures
            buf.elems() == self.data(),
    {
        self.mem
    }

    /// Returns the row count.
    #[verifier::when_used_as_spec(spec_rows)]
    pub fn rows(&self) -> (rows: u32)
        ensures
            rows == self.spec_rows(),
    {
        self.rows
    }

    /// Returns the column count.
    #[verifier::when_used_as_spec(spec_cols)]
    pub fn cols(&self) -> (cols: u32)
        ensures
            cols == self.spec_cols(),
    {
        self.cols
    }

    /// Returns the length of one row in size of T.
    #[verifier::when_used_as_spec(spec_row_stride)]
    pub fn row_stride(&self) -> (stride: usize)
        ensures
            stride == self.spec_row_stride(),
    {
        self.row_stride
    }

    /// Returns a flat matrix backed by an existing buffer.
    ///
    /// In case of an inappropriate buffer length, None is returned: the buffer must hold
    /// `rows` times `cols` values at least.
    ///
    /// # Arguments
    ///
    /// * `buf` - Backing buffer
    /// * `rows` - Number of rows
    /// * `cols` - Number of columns
    pub fn from_buf(buf: B, rows: u32, cols: u32) -> (matrix: Option<Self>)
        ensures
            matrix is Some <==> rows * cols <= buf.elems().len(),
            buf.elems().len() < rows * cols ==> matrix is None,
            matrix is Some ==> {
                let matrix = matrix->0;
                &&& matrix.wf()
                &&& matrix.rows() == rows
                &&& matrix.cols() == cols
                &&& matrix.row_stride() == cols
                &&& matrix.data() == buf.elems()
            },
    {
        Self::from_buf_with_stride(buf, rows, cols as usize, cols)
    }

    /// Returns a flat matrix backed by an existing buffer.
    ///
    /// In case of an inappropriate buffer length or stride, None is returned: the stride must
    /// be `cols` at least, and the buffer must hold `rows` times `row_stride` values at least.
    ///
    /// # Arguments
    ///
    /// * `buf` - Backing buffer
    /// * `rows` - Number of rows
    /// * `row_stride` - Length of one row in size of T
    /// * `cols` - Number of columns
    pub fn from_buf_with_stride(buf: B, rows: u32, row_stride: usize, cols: u32) -> (matrix: Option<
        Self,
    >)
        ensures
            matrix is Some <==> cols <= row_stride && rows * row_stride <= buf.elems().len(),
            buf.elems().len() < rows * row_stride ==> matrix is None,
            matrix is Some ==> {
                let matrix = matrix->0;
                &&& matrix.wf()
                &&& matrix.rows() == rows
                &&& matrix.cols() == cols
                &&& matrix.row_stride() == row_stride
                &&& matrix.data() == buf.elems()
            },
    {
        let min_stride = cols as usize;
        let len = buf.as_slice().len();
        assert(rows * row_stride <= 0x1_0000_0000 * 0x1_0000_0000_0000_0000) by (nonlinear_arith)
            requires
                0 <= rows < 0x1_0000_0000,
                0 <= row_stride < 0x1_0000_0000_0000_0000,
        ;
        if row_stride < min_stride || (len as u128) < (rows as u128) * (row_stride as u128) {
            return None;
        }
        Some(Matrix { mem: buf, rows, row_stride, cols, marker: PhantomData })
    }

    /// Returns the values in the buffer.
    pub fn as_slice(&self) -> (slice: &[T])
        ensures
            slice@ == self.data(),
    {
        self.mem.as_slice()
    }

    /// Returns row `index` with its padding.
    pub fn row(&self, index: usize) -> (row: &[T])
        requires
            self.wf(),
            index < self.rows(),
        ensures
            row@ == self.row_values(index as int),
    {
        let slice = self.mem.as_slice();
        let len = slice.len();
        proof {
            self.lemma_wf();
            assert(0 <= self.row_start(index as int));
        }
        let offset = index * self.row_stride;
        vstd::slice::slice_subrange(slice, offset, offset + self.row_stride)
    }

    /// Returns the value in row `row` and column `col`, where there is such a cell.
    pub fn get(&self, row: u32, col: u32) -> (value: Option<T>)
        requires
            self.wf(),
        ensures
            value == if row < self.rows() && col < self.cols() {
                Some(self.data()[self.row_start(row as int) + col])
            } else {
                None
            },
    {
        if row >= self.rows || col >= self.cols {
            return None;
        }
        let slice = self.mem.as_slice();
        let len = slice.len();
        proof {
            self.lemma_wf();
            assert(0 <= self.row_start(row as int));
        }
        let offset = row as usize * self.row_stride;
        Some(slice[offset + col as usize])
    }
}

impl<T: Copy, B: Buffer<T>> std::ops::Index<usize> for Matrix<T, B> {
    type Output = [T];

    fn index(&self, index: usize) -> (row: &[T])
        ensures
            row@ == self.row_values(index as int),
    {
        self.row(index)
    }
}

impl<T: Copy, B: Buffer<T>> vstd::std_specs::core::IndexSpecImpl<usize> for Matrix<T, B> {
    open spec fn index_req(&self, index: &usize) -> bool {
        self.wf() && *index < self.rows()
    }
}

impl<T: Copy> Matrix<T, Vec<T>> {
    /// Returns a newly allocated matrix.
    ///
    /// # Arguments
    ///
    /// * `rows` - Number of rows
    /// * `cols` - Number of columns
    /// * `value` - Initial value for all cells
    pub fn new(rows: u32, cols: u32, value: T) -> (matrix: Self)
        requires
            rows * cols <= usize::MAX,
        ensures
            matrix.wf(),
            matrix.rows() == rows,
            matrix.cols() == cols,
            matrix.row_stride() == cols,
            matrix.data() == Seq::new((rows * cols) as nat, |k: int| value),
    {
        let mut matrix = Matrix {
            mem: Vec::new(),
            rows: 0,
            row_stride: 0,
            cols: 0,
            marker: PhantomData,
        };
        assert(matrix.wf()) by (nonlinear_arith)
            requires
                matrix.rows == 0,
                matrix.cols == 0,
                matrix.row_stride == 0,
                matrix.mem@.len() >= 0,
        ;
        matrix.resize(rows, cols, value);
        matrix
    }

    /// Gives the matrix a new shape without padding.
    ///
    /// The buffer is cut or grows to `rows` times `cols` values. The values that stay keep
    /// their place in the buffer, not in the matrix; those that are added are `value`.
    pub fn resize(&mut self, rows: u32, cols: u32, value: T)
        requires
            rows * cols <= usize::MAX,
        ensures
            final(self).wf(),
            final(self).rows() == rows,
            final(self).cols() == cols,
            final(self).row_stride() == cols,
            final(self).data() == Seq::new(
                (rows * cols) as nat,
                (|k: int|
                    if k < old(self).data().len() {
                        old(self).data()[k]
                    } else {
                        value
                    }),
            ),
    {
        let row_stride = cols as usize;
        assert(rows as usize * row_stride == rows * cols) by (nonlinear_arith)
            requires
                row_stride == cols,
                rows * cols <= usize::MAX,
        ;
        let new_len = rows as usize * row_stride;
        self.mem.truncate(new_len);
        while self.mem.len() < new_len
            invariant
                self.mem@.len() <= new_len,
                self.mem@.len() >= old(self).mem@.len() || self.mem@.len() == new_len,
                forall|k: int|
                    0 <= k < self.mem@.len() ==> self.mem@[k] == if k < old(self).mem@.len() {
                        old(self).mem@[k]
                    } else {
                        value
                    },
            decreases new_len - self.mem@.len(),
        {
            self.mem.push(value);
        }
        self.rows = rows;
        self.cols = cols;
        self.row_stride = row_stride;
        assert(self.data() =~= Seq::new(
            (rows * cols) as nat,
            |k: int|
                if k < old(self).data().len() {
                    old(self).data()[k]
                } else {
                    value
                },
        ));
    }
}

impl<T: Copy, B: BufferMut<T>> Matrix<T, B> {
    /// Writes `value` to the cell in row `row` and column `col`, where there is such a cell.
    /// Returns whether there is.
    pub fn set(&mut self, row: u32, col: u32, value: T) -> (done: bool)
        requires
            old(self).wf(),
        ensures
            final(self).wf(),
            final(self).rows() == old(self).rows(),
            final(self).cols() == old(self).cols(),
            final(self).row_stride() == old(self).row_stride(),
            done <==> row < old(self).rows() && col < old(self).cols(),
            done ==> final(self).data() == old(self).data().update(
                old(self).row_start(row as int) + col,
                value,
            ),
            !done ==> final(self).data() == old(self).data(),
    {
        if row >= self.rows || col >= self.cols {
            return false;
        }
        proof {
            self.lemma_wf();
            assert(0 <= self.row_start(row as int));
        }
        let stride = self.row_stride;
        let slice = self.mem.as_mut_slice();
        let len = slice.len();
        let offset = row as usize * stride;
        slice[offset + col as usize] = value;
        true
    }

    /// Writes `value` to place `index` of the buffer.
    pub fn put(&mut self, index: usize, value: T)
        requires
            old(self).wf(),
            index < old(self).data().len(),
        ensures
            final(self).wf(),
            final(self).rows() == old(self).rows(),
            final(self).cols() == old(self).cols(),
            final(self).row_stride() == old(self).row_stride(),
            final(self).data() == old(self).data().update(index as int, value),
    {
        let slice = self.mem.as_mut_slice();
        slice[index] = value;
    }
}

} // verus!

//! Grayscale pixels.

use crate::error::Error;
use crate::traits::Pixel;
use vstd::prelude::*;

verus! {

/// Grayscale pixel
#[derive(Debug, Clone, Copy, PartialEq, Eq)]
pub struct Gray<T>(pub [T; 1]);

impl<T: Copy> Gray<T> {
    /// Returns a new pixel
    pub fn new(channels: [T; 1]) -> (pix: Self)
        ensures
            pix.0 == channels,
    {
        Gray(channels)
    }

    /// The luma of the pixel.
    pub open spec fn luma(self) -> T {
        self.0[0]
    }

    /// The pixel of the given luma.
    pub open spec fn of_luma(luma: T) -> Self {
        Gray([luma])
    }
}

impl<T: Copy> Pixel for Gray<T> {
    type T = T;

    open spec fn spec_channels() -> u8 {
        1
    }

    open spec fn spec_subpixels() -> u8 {
        1
    }

    open spec fn values(self) -> Seq<T> {
        self.0@
    }

    open spec fn from_values(values: Seq<T>) -> Self {
        Gray([values[0]])
    }

    proof fn lemma_shape() {
    }

    proof fn lemma_values(self) {
        assert(Self::from_values(self.values()).0 =~= self.0);
    }

    proof fn lemma_from_values(values: Seq<T>) {
    }

    fn channels() -> (n: u8) {
        1
    }

    fn subpixels() -> (n: u8) {
        1
    }

    fn try_from(raw: &[T]) -> (pix: Result<Self, Error>) {
        if raw.len() != 1 {
            return Err(Error::OutOfBounds);
        }
        Ok(Gray([raw[0]]))
    }

    fn at(&self, i: usize) -> (v: T) {
        self.0[i]
    }
}

impl<T: Copy> std::ops::Index<usize> for Gray<T> {
    type Output = T;

    fn index(&self, i: usize) -> (v: &T)
        ensures
            *v == self.0[i as int],
    {
        &self.0[i]
    }
}

impl<T: Copy> vstd::std_specs::core::IndexSpecImpl<usize> for Gray<T> {
    open spec fn index_req(&self, i: &usize) -> bool {
        *i < 1
    }
}

impl<T: Copy> From<[T; 1]> for Gray<T> {
    fn from(array: [T; 1]) -> (pix: Self) {
        Gray(array)
    }
}

impl<T: Copy> vstd::std_specs::convert::FromSpecImpl<[T; 1]> for Gray<T> {
    open spec fn obeys_from_spec() -> bool {
        true
    }

    open spec fn from_spec(array: [T; 1]) -> Self {
        Gray(array)
    }
}

} // verus!

//! The buffers that an image can be laid over.
//!
//! An image does not care who owns its channel values: a slice that is only read, a slice that
//! may be written, or a vector of its own. [`Buffer`] is what the three have in common, and
//! [`BufferMut`] what the latter two add.

use vstd::prelude::*;

verus! {

/// A run of channel values that can be read.
pub trait Buffer<T>: Sized {
    /// The values in the buffer.
    spec fn elems(&self) -> Seq<T>;

    /// The values as a slice.
    fn as_slice(&self) -> (slice: &[T])
        ensures
            slice@ == self.elems(),
    ;
}

/// A run of channel values that can be read and written.
pub trait BufferMut<T>: Buffer<T> {
    /// The values as a slice that can be written. What is written to the slice is written to
    /// the buffer.
    fn as_mut_slice(&mut self) -> (slice: &mut [T])
        ensures
            slice@ == old(self).elems(),
            final(self).elems() == final(slice)@,
    ;
}

impl<'a, T> Buffer<T> for &'a [T] {
    open spec fn elems(&self) -> Seq<T> {
        (*self)@
    }

    fn as_slice(&self) -> (slice: &[T]) {
        *self
    }
}

impl<'a, T> Buffer<T> for &'a mut [T] {
    open spec fn elems(&self) -> Seq<T> {
        (*self)@
    }

    fn as_slice(&self) -> (slice: &[T]) {
        &**self
    }
}

impl<'a, T> BufferMut<T> for &'a mut [T] {
    fn as_mut_slice(&mut self) -> (slice: &mut [T]) {
        &mut **self
    }
}

impl<T> Buffer<T> for Vec<T> {
    open spec fn elems(&self) -> Seq<T> {
        self@
    }

    fn as_slice(&self) -> (slice: &[T]) {
        Vec::as_slice(self)
    }
}

impl<T> BufferMut<T> for Vec<T> {
    fn as_mut_slice(&mut self) -> (slice: &mut [T]) {
        Vec::as_mut_slice(self)
    }
}

impl<'a, T> Buffer<T> for &'a Vec<T> {
    open spec fn elems(&self) -> Seq<T> {
        (*self)@
    }

    fn as_slice(&self) -> (slice: &[T]) {
        Vec::as_slice(*self)
    }
}

impl<'a, T> Buffer<T> for &'a mut Vec<T> {
    open spec fn elems(&self) -> Seq<T> {
        (*self)@
    }

    fn as_slice(&self) -> (slice: &[T]) {
        Vec::as_slice(&**self)
    }
}

impl<'a, T> BufferMut<T> for &'a mut Vec<T> {
    fn as_mut_slice(&mut self) -> (slice: &mut [T]) {
        Vec::as_mut_slice(&mut **self)
    }
}

impl<'a, T, const N: usize> Buffer<T> for &'a [T; N] {
    open spec fn elems(&self) -> Seq<T> {
        (*self)@
    }

    fn as_slice(&self) -> (slice: &[T]) {
        let array: &[T; N] = *self;
        array.as_slice()
    }
}

} // verus!

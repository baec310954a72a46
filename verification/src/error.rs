//! The error type of the fallible operations.

use vstd::prelude::*;

verus! {

/// What went wrong in an operation that can fail on the data handed to it.
#[derive(Debug, Clone, Copy, PartialEq, Eq, Structural)]
pub enum Error {
    /// A coordinate, or a number of channel values, lies outside of what the image or the pixel
    /// holds.
    OutOfBounds,
    /// A destination of fixed size cannot take the whole source.
    TooSmall,
    /// The storage type of a dynamic image is not the one that was asked for.
    StorageMismatch,
}

impl Error {
    /// The text of the message, as a sequence of characters, for every variant.
    pub open spec fn message_text(self) -> Seq<char> {
        match self {
            Error::OutOfBounds => "out of bounds"@,
            Error::TooSmall => "destination too small"@,
            Error::StorageMismatch => "storage type mismatch"@,
        }
    }

    /// A short description for the user.
    pub fn message(&self) -> (text: &'static str)
        ensures
            text@ == self.message_text(),
    {
        match self {
            Error::OutOfBounds => "out of bounds",
            Error::TooSmall => "destination too small",
            Error::StorageMismatch => "storage type mismatch",
        }
    }
}

} // verus!

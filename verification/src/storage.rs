//! The numeric types that channel values are stored in.
//!
//! Pixel formats are generic over their storage type. The colour rules need a little arithmetic
//! on the stored values; they get it through [`Channel`], whose methods for the primitive
//! integers are those of the `num-traits` crate.

use vstd::prelude::*;

verus! {

/// A type that holds one channel value of a pixel.
///
/// Every value stands for a whole number between zero and [`Channel::limit`], and every such
/// number has its value. The rules that compute with channel values do so in `i32`, which holds
/// every number of every storage type.
pub trait Channel: Copy {
    /// The number that a stored value stands for.
    spec fn value(self) -> int;

    /// The stored value that stands for `n`, for every `n` from zero to the limit.
    spec fn of_value(n: int) -> Self;

    /// The largest number the type can store.
    spec fn limit() -> int;

    /// The size of one stored value in bytes.
    spec fn spec_size() -> nat;

    /// A stored number lies between zero and the limit, and the value that stands for it is
    /// the one it was read from.
    proof fn lemma_value(self)
        ensures
            0 <= self.value() <= Self::limit(),
            Self::of_value(self.value()) == self,
    ;

    /// The value that stands for a number between zero and the limit stands for that number.
    proof fn lemma_of_value(n: int)
        requires
            0 <= n <= Self::limit(),
        ensures
            Self::of_value(n).value() == n,
    ;

    /// The limit leaves room for eight bits and fits in sixteen.
    proof fn lemma_limit_bounds()
        ensures
            255 <= Self::limit() <= 65535,
    ;

    /// The value that stands for zero.
    fn zero() -> (z: Self)
        ensures
            z == Self::of_value(0),
    ;

    /// The value that stands for the limit.
    fn max_value() -> (m: Self)
        ensures
            m == Self::of_value(Self::limit()),
    ;

    /// The number a value stands for, as an `i32`.
    fn as_i32(self) -> (n: i32)
        ensures
            n == self.value(),
    ;

    /// The value that stands for `n`, where the type can store it.
    fn from_i32(n: i32) -> (v: Option<Self>)
        ensures
            v is Some <==> 0 <= n <= Self::limit(),
            v is Some ==> v->0 == Self::of_value(n as int),
    ;

    /// The size of one stored value in bytes.
    fn size() -> (bytes: usize)
        ensures
            bytes == Self::spec_size(),
            1 <= bytes <= 2,
    ;
}

/// `<u8 as num_traits::AsPrimitive<i32>>::as_`: the cast `self as i32`, which keeps the number
/// of every `u8`.
#[verifier::external_body]
fn u8_as_i32(v: u8) -> (n: i32)
    ensures
        n == v,
{
    num_traits::AsPrimitive::<i32>::as_(v)
}

/// `<u8 as num_traits::FromPrimitive>::from_i32`: `Some` of the same number where it lies in
/// `0..=255`, and `None` for every other `i32`.
#[verifier::external_body]
fn u8_from_i32(n: i32) -> (v: Option<u8>)
    ensures
        v is Some <==> 0 <= n <= 255,
        v is Some ==> v->0 == n,
{
    num_traits::FromPrimitive::from_i32(n)
}

/// `<u8 as num::traits::Bounded>::max_value`: `u8::MAX`.
#[verifier::external_body]
fn u8_max_value() -> (m: u8)
    ensures
        m == 255,
{
    num::traits::Bounded::max_value()
}

/// `<u8 as num_traits::Zero>::zero`: the number zero.
#[verifier::external_body]
fn u8_zero() -> (z: u8)
    ensures
        z == 0,
{
    num_traits::Zero::zero()
}

/// `<u16 as num_traits::AsPrimitive<i32>>::as_`: the cast `self as i32`, which keeps the number
/// of every `u16`.
#[verifier::external_body]
fn u16_as_i32(v: u16) -> (n: i32)
    ensures
        n == v,
{
    num_traits::AsPrimitive::<i32>::as_(v)
}

/// `<u16 as num_traits::FromPrimitive>::from_i32`: `Some` of the same number where it lies in
/// `0..=65535`, and `None` for every other `i32`.
#[verifier::external_body]
fn u16_from_i32(n: i32) -> (v: Option<u16>)
    ensures
        v is Some <==> 0 <= n <= 65535,
        v is Some ==> v->0 == n,
{
    num_traits::FromPrimitive::from_i32(n)
}

/// `<u16 as num::traits::Bounded>::max_value`: `u16::MAX`.
#[verifier::external_body]
fn u16_max_value() -> (m: u16)
    ensures
        m == 65535,
{
    num::traits::Bounded::max_value()
}

/// `<u16 as num_traits::Zero>::zero`: the number zero.
#[verifier::external_body]
fn u16_zero() -> (z: u16)
    ensures
        z == 0,
{
    num_traits::Zero::zero()
}

impl Channel for u8 {
    open spec fn value(self) -> int {
        self as int
    }

    open spec fn of_value(n: int) -> Self {
        n as u8
    }

    open spec fn limit() -> int {
        255
    }

    open spec fn spec_size() -> nat {
        1
    }

    proof fn lemma_value(self) {
    }

    proof fn lemma_of_value(n: int) {
    }

    proof fn lemma_limit_bounds() {
    }

    fn zero() -> (z: Self) {
        u8_zero()
    }

    fn max_value() -> (m: Self) {
        u8_max_value()
    }

    fn as_i32(self) -> (n: i32) {
        u8_as_i32(self)
    }

    fn from_i32(n: i32) -> (v: Option<Self>) {
        u8_from_i32(n)
    }

    fn size() -> (bytes: usize) {
        1
    }
}

impl Channel for u16 {
    open spec fn value(self) -> int {
        self as int
    }

    open spec fn of_value(n: int) -> Self {
        n as u16
    }

    open spec fn limit() -> int {
        65535
    }

    open spec fn spec_size() -> nat {
        2
    }

    proof fn lemma_value(self) {
    }

    proof fn lemma_of_value(n: int) {
    }

    proof fn lemma_limit_bounds() {
    }

    fn zero() -> (z: Self) {
        u16_zero()
    }

    fn max_value() -> (m: Self) {
        u16_max_value()
    }

    fn as_i32(self) -> (n: i32) {
        u16_as_i32(self)
    }

    fn from_i32(n: i32) -> (v: Option<Self>) {
        u16_from_i32(n)
    }

    fn size() -> (bytes: usize) {
        2
    }
}

} // verus!

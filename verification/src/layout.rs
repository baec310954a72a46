//! Channel orders, and the arithmetic of rows.
//!
//! A pixel format names the place of each of its channels in storage by a constant of the
//! type. The constants of a format are an order where they name every place exactly once.
//!
//! The length of a row is a product and a quotient of numbers that belong to the pixel format.
//! [`scaled`] and [`divided`] state them so that they are plain arithmetic for the formats and
//! storage types of this crate.

use vstd::prelude::*;

verus! {

/// Whether `a`, `b` and `c` name the three places of a three-channel pixel, each of them once.
pub open spec fn is_order3(a: usize, b: usize, c: usize) -> bool {
    a < 3 && b < 3 && c < 3 && a != b && b != c && a != c
}

/// Whether `a`, `b`, `c` and `d` name the four places of a four-channel pixel, each of them
/// once.
pub open spec fn is_order4(a: usize, b: usize, c: usize, d: usize) -> bool {
    a < 4 && b < 4 && c < 4 && d < 4 && a != b && a != c && a != d && b != c && b != d && c != d
}

/// The three channel values in storage order, where `x` belongs in place `a`, `y` in place `b`
/// and `z` in place `c`.
pub open spec fn place3<T>(a: usize, b: usize, c: usize, x: T, y: T, z: T) -> [T; 3] {
    [
        if a == 0 { x } else if b == 0 { y } else { z },
        if a == 1 { x } else if b == 1 { y } else { z },
        if a == 2 { x } else if b == 2 { y } else { z },
    ]
}

/// The four channel values in storage order, where `x` belongs in place `a`, `y` in place `b`,
/// `z` in place `c` and `w` in place `d`.
pub open spec fn place4<T>(a: usize, b: usize, c: usize, d: usize, x: T, y: T, z: T, w: T) -> [T; 4] {
    [
        if a == 0 { x } else if b == 0 { y } else if c == 0 { z } else { w },
        if a == 1 { x } else if b == 1 { y } else if c == 1 { z } else { w },
        if a == 2 { x } else if b == 2 { y } else if c == 2 { z } else { w },
        if a == 3 { x } else if b == 3 { y } else if c == 3 { z } else { w },
    ]
}

/// Each value of an arrangement is found in its place.
pub proof fn lemma_place3<T>(a: usize, b: usize, c: usize, x: T, y: T, z: T)
    requires
        is_order3(a, b, c),
    ensures
        place3(a, b, c, x, y, z)[a as int] == x,
        place3(a, b, c, x, y, z)[b as int] == y,
        place3(a, b, c, x, y, z)[c as int] == z,
{
}

/// Arranging the values that an array holds in the places of an order gives the array back.
pub proof fn lemma_place3_same<T>(a: usize, b: usize, c: usize, array: [T; 3])
    requires
        is_order3(a, b, c),
    ensures
        place3(a, b, c, array[a as int], array[b as int], array[c as int]) == array,
{
}

/// Each value of an arrangement is found in its place.
pub proof fn lemma_place4<T>(a: usize, b: usize, c: usize, d: usize, x: T, y: T, z: T, w: T)
    requires
        is_order4(a, b, c, d),
    ensures
        place4(a, b, c, d, x, y, z, w)[a as int] == x,
        place4(a, b, c, d, x, y, z, w)[b as int] == y,
        place4(a, b, c, d, x, y, z, w)[c as int] == z,
        place4(a, b, c, d, x, y, z, w)[d as int] == w,
{
}

/// Arranging the values that an array holds in the places of an order gives the array back.
pub proof fn lemma_place4_same<T>(a: usize, b: usize, c: usize, d: usize, array: [T; 4])
    requires
        is_order4(a, b, c, d),
    ensures
        place4(
            a,
            b,
            c,
            d,
            array[a as int],
            array[b as int],
            array[c as int],
            array[d as int],
        ) == array,
{
    assert(place4(
        a,
        b,
        c,
        d,
        array[a as int],
        array[b as int],
        array[c as int],
        array[d as int],
    ) =~= array);
}

/// Puts three channel values in their places.
pub fn arrange3<T: Copy>(a: usize, b: usize, c: usize, x: T, y: T, z: T) -> (array: [T; 3])
    requires
        is_order3(a, b, c),
    ensures
        array == place3(a, b, c, x, y, z),
{
    let mut array = [x, x, x];
    array[b] = y;
    array[c] = z;
    array
}

/// Puts four channel values in their places.
pub fn arrange4<T: Copy>(a: usize, b: usize, c: usize, d: usize, x: T, y: T, z: T, w: T) -> (array:
    [T; 4])
    requires
        is_order4(a, b, c, d),
    ensures
        array == place4(a, b, c, d, x, y, z, w),
{
    let mut array = [x, x, x, x];
    array[b] = y;
    array[c] = z;
    array[d] = w;
    array
}

/// The quotient of `count` and `size`, rounded downwards, written out for the numbers of
/// subpixels that the known formats have, so that it is a plain fraction of `count` for each
/// of them.
pub open spec fn divided(count: int, size: int) -> int {
    if size == 1 {
        count
    } else if size == 2 {
        count / 2
    } else {
        count / size
    }
}

/// A divided number is the quotient of the number and the size.
pub proof fn lemma_divided(count: int, size: int)
    requires
        size > 0,
    ensures
        divided(count, size) == count / size,
{
}

/// The product of `count` and `size`, written out for the sizes that the known formats and
/// storage types have, so that it is a plain multiple of `count` for each of them.
pub open spec fn scaled(count: int, size: int) -> int {
    if size == 1 {
        count
    } else if size == 2 {
        2 * count
    } else if size == 3 {
        3 * count
    } else if size == 4 {
        4 * count
    } else {
        count * size
    }
}

/// A scaled number is the product of the number and the scale.
pub proof fn lemma_scaled(count: int, size: int)
    ensures
        scaled(count, size) == count * size,
{
    assert(1 <= size <= 4 ==> count * size == if size == 1 {
        count
    } else if size == 2 {
        2 * count
    } else if size == 3 {
        3 * count
    } else {
        4 * count
    }) by (nonlinear_arith);
}

} // verus!

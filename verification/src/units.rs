//! Fixed-point layout units.
//!
//! Every coordinate and extent in this crate is an `i32` counting sixty-fourths
//! of a pixel. Sums that leave the `i32` range stop at its ends instead of
//! wrapping, so no drawing call can overflow.

use vstd::prelude::*;

verus! {

/// Number of layout units in one pixel.
pub const UNITS_PER_PIXEL: i32 = 64;

/// The `i32` nearest to `v`.
pub open spec fn clamp(v: int) -> i32 {
    if v < i32::MIN {
        i32::MIN
    } else if v > i32::MAX {
        i32::MAX
    } else {
        v as i32
    }
}

/// The larger of two extents.
pub open spec fn larger(a: i32, b: i32) -> i32 {
    if b > a {
        b
    } else {
        a
    }
}

/// `a + b`, stopping at the ends of the `i32` range.
pub fn offset(a: i32, b: i32) -> (r: i32)
    ensures
        r == clamp(a + b),
{
    let wide: i64 = a as i64 + b as i64;
    narrow(wide)
}

/// `a - b`, stopping at the ends of the `i32` range.
pub fn retreat(a: i32, b: i32) -> (r: i32)
    ensures
        r == clamp(a - b),
{
    let wide: i64 = a as i64 - b as i64;
    narrow(wide)
}

/// A whole number of pixels expressed in layout units.
pub fn pixels(count: i32) -> (r: i32)
    ensures
        r == clamp(count * UNITS_PER_PIXEL),
{
    let wide: i64 = count as i64 * 64;
    narrow(wide)
}

/// A whole number of pixels, such as a font size, expressed in layout units.
pub fn pixels_of(count: u32) -> (r: i32)
    ensures
        r == clamp(count * UNITS_PER_PIXEL),
{
    let wide: i64 = count as i64 * 64;
    narrow(wide)
}

/// The `i32` nearest to a 64-bit intermediate result.
pub fn narrow(wide: i64) -> (r: i32)
    ensures
        r == clamp(wide as int),
{
    if wide < -2147483648 {
        -2147483648
    } else if wide > 2147483647 {
        2147483647
    } else {
        wide as i32
    }
}

/// The larger of two extents.
pub fn grow(current: i32, candidate: i32) -> (r: i32)
    ensures
        r == larger(current, candidate),
{
    if candidate > current {
        candidate
    } else {
        current
    }
}

} // verus!

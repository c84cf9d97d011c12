//! Coordinate mapping between the fixed virtual screen and the target
//! window's client area, and the packed point encoding used by native
//! pointer messages.

use vstd::arithmetic::div_mod::{
    lemma_div_is_ordered, lemma_div_multiples_vanish_fancy, lemma_div_pos_is_pos,
};
use vstd::arithmetic::mul::{lemma_mul_inequality, lemma_mul_nonnegative};
use vstd::prelude::*;

verus! {

/// Fixed logical width of the virtual screen reported to callers; the
/// horizontal coordinate space of every input command.
pub const VIRTUAL_WIDTH: u32 = 1280;

/// Fixed logical height of the virtual screen reported to callers; the
/// vertical coordinate space of every input command.
pub const VIRTUAL_HEIGHT: u32 = 720;

/// Largest client-area dimension the mapper accepts: the packed point
/// encoding keeps each mapped coordinate in sixteen bits.
pub const MAX_CLIENT_DIM: u32 = 0xFFFF;

/// Ceiling of `a / b` for a nonnegative numerator and positive denominator.
pub open spec fn ceil_div(a: int, b: int) -> int
    recommends
        0 <= a,
        0 < b,
{
    (a + b - 1) / b
}

/// Window x coordinate for virtual x coordinate `x` in a client area of
/// width `w`: the ceiling of `x / VIRTUAL_WIDTH * w`. Ceiling rounding is
/// intentional, so that points just inside the origin do not collapse to 0.
pub open spec fn spec_map_x(x: int, w: int) -> int {
    ceil_div(x * w, VIRTUAL_WIDTH as int)
}

/// Window y coordinate for virtual y coordinate `y` in a client area of
/// height `h`: the ceiling of `y / VIRTUAL_HEIGHT * h`.
pub open spec fn spec_map_y(y: int, h: int) -> int {
    ceil_div(y * h, VIRTUAL_HEIGHT as int)
}

/// The packed coordinate encoding of native pointer messages: the low
/// sixteen bits carry x, the bits above them carry y.
pub open spec fn spec_pack(nx: int, ny: int) -> int {
    ny * 0x10000 + nx
}

/// Both coordinates mapped into a `w` by `h` client area, packed.
pub open spec fn spec_map_point(x: int, y: int, w: int, h: int) -> int {
    spec_pack(spec_map_x(x, w), spec_map_y(y, h))
}

/// The arithmetic packing equals the bit-level form of the native message
/// parameter: for coordinates within sixteen bits, `ny * 0x10000 + nx` is
/// the word `(ny << 16) | nx`.
pub proof fn lemma_pack_is_bitwise(nx: u64, ny: u64)
    requires
        nx < 0x10000,
        ny < 0x10000,
    ensures
        spec_pack(nx as int, ny as int) == ((ny << 16) | nx),
{
    assert(((ny << 16u64) | nx) == ny * 0x10000 + nx) by (bit_vector)
        requires
            nx < 0x10000u64 && ny < 0x10000u64,
    ;
}

/// Bounds of the ceiling division: if `a <= b * m`, the quotient stays
/// within `[0, m]`, and it is positive as soon as `a` is.
proof fn lemma_ceil_div_bounds(a: int, b: int, m: int)
    requires
        0 <= a,
        0 < b,
        0 <= m,
        a <= b * m,
    ensures
        0 <= ceil_div(a, b) <= m,
        0 < a ==> 0 < ceil_div(a, b),
{
    lemma_div_pos_is_pos(a + b - 1, b);
    lemma_div_is_ordered(a + b - 1, b * m + b - 1, b);
    lemma_div_multiples_vanish_fancy(m, b - 1, b);
    if 0 < a {
        lemma_div_is_ordered(b, a + b - 1, b);
        lemma_div_multiples_vanish_fancy(1, 0, b);
    }
}

/// Every virtual point maps into the window rectangle: for `x` in
/// `[0, VIRTUAL_WIDTH]`, `y` in `[0, VIRTUAL_HEIGHT]` and a client area of
/// size `w` by `h`, the mapped point lies within `[0, w]` by `[0, h]`.
pub proof fn lemma_map_within_window(x: int, y: int, w: int, h: int)
    requires
        0 <= x <= VIRTUAL_WIDTH as int,
        0 <= y <= VIRTUAL_HEIGHT as int,
        0 <= w,
        0 <= h,
    ensures
        0 <= spec_map_x(x, w) <= w,
        0 <= spec_map_y(y, h) <= h,
        0 < x && 0 < w ==> 0 < spec_map_x(x, w),
        0 < y && 0 < h ==> 0 < spec_map_y(y, h),
{
    lemma_mul_nonnegative(x, w);
    lemma_mul_inequality(x, VIRTUAL_WIDTH as int, w);
    lemma_ceil_div_bounds(x * w, VIRTUAL_WIDTH as int, w);
    lemma_mul_nonnegative(y, h);
    lemma_mul_inequality(y, VIRTUAL_HEIGHT as int, h);
    lemma_ceil_div_bounds(y * h, VIRTUAL_HEIGHT as int, h);
    if 0 < x && 0 < w {
        lemma_mul_inequality(1, x, w);
    }
    if 0 < y && 0 < h {
        lemma_mul_inequality(1, y, h);
    }
}

/// Maps virtual x coordinate `x` into a client area of width `w`.
pub fn map_x(x: i32, w: i32) -> (r: i32)
    requires
        0 <= x <= VIRTUAL_WIDTH as int,
        0 <= w <= MAX_CLIENT_DIM as int,
    ensures
        r == spec_map_x(x as int, w as int),
        0 <= r <= w,
        0 < x && 0 < w ==> 0 < r,
{
    proof {
        lemma_map_within_window(x as int, 0, w as int, 0);
    }
    let prod: u64 = (x as u64) * (w as u64);
    let nx: u64 = (prod + (VIRTUAL_WIDTH as u64 - 1)) / (VIRTUAL_WIDTH as u64);
    nx as i32
}

/// Maps virtual y coordinate `y` into a client area of height `h`.
pub fn map_y(y: i32, h: i32) -> (r: i32)
    requires
        0 <= y <= VIRTUAL_HEIGHT as int,
        0 <= h <= MAX_CLIENT_DIM as int,
    ensures
        r == spec_map_y(y as int, h as int),
        0 <= r <= h,
        0 < y && 0 < h ==> 0 < r,
{
    proof {
        lemma_map_within_window(0, y as int, 0, h as int);
    }
    let prod: u64 = (y as u64) * (h as u64);
    let ny: u64 = (prod + (VIRTUAL_HEIGHT as u64 - 1)) / (VIRTUAL_HEIGHT as u64);
    ny as i32
}

/// Maps a virtual point into a `w` by `h` client area and packs the result
/// into the single coordinate parameter of a native pointer message.
pub fn map_point(x: i32, y: i32, w: i32, h: i32) -> (r: i64)
    requires
        0 <= x <= VIRTUAL_WIDTH as int,
        0 <= y <= VIRTUAL_HEIGHT as int,
        0 <= w <= MAX_CLIENT_DIM as int,
        0 <= h <= MAX_CLIENT_DIM as int,
    ensures
        r == spec_map_point(x as int, y as int, w as int, h as int),
        0 <= r < 0x100000000i64,
{
    let nx = map_x(x, w);
    let ny = map_y(y, h);
    (ny as i64) * 0x10000 + (nx as i64)
}

} // verus!

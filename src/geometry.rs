use vstd::prelude::*;

verus! {

/// The length of the field along either axis.
pub const UNIT: i64 = 1_000_000;

/// Microseconds in one second.
pub const MICROS_PER_SECOND: i64 = 1_000_000;

/// Thickness of the walls: the top and left boundaries sit at this offset.
pub const WALL: i64 = 20_000;

/// Offset of the bottom and right boundaries.
pub const FAR_WALL: i64 = 980_000;

/// `v` limited to `lo..=hi`.
pub open spec fn clamp(v: int, lo: int, hi: int) -> int {
    if v < lo {
        lo
    } else if v > hi {
        hi
    } else {
        v
    }
}


/// A rectangle in whole pixels.
#[derive(Clone, Copy, Debug, PartialEq, Eq, Structural)]
pub struct PixelRect {
    pub x: i32,
    pub y: i32,
    pub w: u32,
    pub h: u32,
}

/// A field length in pixels of a window `size` pixels long, rounded toward zero.
pub open spec fn to_pixels(v: int, size: int) -> int {
    if v >= 0 {
        v * size / (UNIT as int)
    } else {
        -((-v) * size / (UNIT as int))
    }
}

fn pixels(v: i64, size: u32) -> (r: i128)
    ensures
        r == to_pixels(v as int, size as int),
{
    let mag: u128 = if v >= 0 { v as u128 } else { (-(v as i128)) as u128 };
    proof {
        assert(0 <= mag * size <= 0x1_0000_0000_0000_0000 * 0x1_0000_0000) by (nonlinear_arith)
            requires
                0 <= mag <= 0x1_0000_0000_0000_0000,
                0 <= size <= 0x1_0000_0000,
        ;
    }
    let q: u128 = mag * (size as u128) / (UNIT as u128);
    if v >= 0 {
        q as i128
    } else {
        -(q as i128)
    }
}

fn saturate_i32(v: i128) -> (r: i32)
    ensures
        r == clamp(v as int, i32::MIN as int, i32::MAX as int),
{
    if v < i32::MIN as i128 {
        i32::MIN
    } else if v > i32::MAX as i128 {
        i32::MAX
    } else {
        v as i32
    }
}

fn saturate_u32(v: i128) -> (r: u32)
    ensures
        r == clamp(v as int, 0, u32::MAX as int),
{
    if v < 0 {
        0
    } else if v > u32::MAX as i128 {
        u32::MAX
    } else {
        v as u32
    }
}

/// The pixel rectangle of a window `width` by `height` pixels that covers the
/// field rectangle at `(x, y)` of size `w` by `h`. Each value is scaled and
/// rounded toward zero, then limited to the range of its pixel type.
pub fn transform_rect(width: u32, height: u32, x: i64, y: i64, w: i64, h: i64) -> (r: PixelRect)
    ensures
        r.x == clamp(to_pixels(x as int, width as int), i32::MIN as int, i32::MAX as int),
        r.y == clamp(to_pixels(y as int, height as int), i32::MIN as int, i32::MAX as int),
        r.w == clamp(to_pixels(w as int, width as int), 0, u32::MAX as int),
        r.h == clamp(to_pixels(h as int, height as int), 0, u32::MAX as int),
{
    PixelRect {
        x: saturate_i32(pixels(x, width)),
        y: saturate_i32(pixels(y, height)),
        w: saturate_u32(pixels(w, width)),
        h: saturate_u32(pixels(h, height)),
    }
}

} // verus!

//! Integer plane geometry: points, vectors and rectangles, with saturating
//! coordinate arithmetic so that every operation is total.

use vstd::prelude::*;

verus! {

/// A point on the drawing plane, in integer device units.
#[derive(Clone, Copy, PartialEq, Eq, Structural, Debug)]
pub struct Point2 {
    pub x: i64,
    pub y: i64,
}

/// A displacement on the drawing plane, in integer device units.
#[derive(Clone, Copy, PartialEq, Eq, Structural, Debug)]
pub struct Vector2 {
    pub x: i64,
    pub y: i64,
}

/// An unsigned two-component size, used for pixel extents and tile counts.
#[derive(Clone, Copy, PartialEq, Eq, Structural, Debug)]
pub struct Vector2u {
    pub x: u32,
    pub y: u32,
}

/// An axis-aligned rectangle: origin plus extent, in integer device units.
#[derive(Clone, Copy, PartialEq, Eq, Structural, Debug)]
pub struct Rect {
    pub x: i64,
    pub y: i64,
    pub w: i64,
    pub h: i64,
}

/// The value of `v` clamped to the range of `i64`.
pub open spec fn clamp_i64(v: int) -> i64 {
    if v < i64::MIN {
        i64::MIN
    } else if v > i64::MAX {
        i64::MAX
    } else {
        v as i64
    }
}

/// Saturating addition on coordinates.
pub fn add_clamped(a: i64, b: i64) -> (r: i64)
    ensures
        r == clamp_i64(a + b),
{
    let s: i128 = a as i128 + b as i128;
    if s < i64::MIN as i128 {
        i64::MIN
    } else if s > i64::MAX as i128 {
        i64::MAX
    } else {
        s as i64
    }
}

/// Clamp a 128-bit intermediate back to the range of `i64`.
pub fn clamp128(v: i128) -> (r: i64)
    ensures
        r == clamp_i64(v as int),
{
    if v < i64::MIN as i128 {
        i64::MIN
    } else if v > i64::MAX as i128 {
        i64::MAX
    } else {
        v as i64
    }
}

/// One coordinate of a linear motion: `start + v * e`, saturating at the
/// range of `i64`.
pub fn linear_component(start: i64, v: i64, e: u32) -> (r: i64)
    ensures
        r == clamp_i64(start + v * e),
{
    proof {
        let vi = v as int;
        let ei = e as int;
        assert(vi * ei <= 0x8000_0000_0000_0000 * 0x1_0000_0000 && vi * ei
            >= -0x8000_0000_0000_0000 * 0x1_0000_0000) by (nonlinear_arith)
            requires
                -0x8000_0000_0000_0000 <= vi,
                vi <= 0x7fff_ffff_ffff_ffff,
                0 <= ei,
                ei < 0x1_0000_0000;
    }
    let prod: i128 = (v as i128) * (e as i128);
    let sum: i128 = (start as i128) + prod;
    clamp128(sum)
}

/// Saturating subtraction on coordinates.
pub fn sub_clamped(a: i64, b: i64) -> (r: i64)
    ensures
        r == clamp_i64(a - b),
{
    let s: i128 = a as i128 - b as i128;
    if s < i64::MIN as i128 {
        i64::MIN
    } else if s > i64::MAX as i128 {
        i64::MAX
    } else {
        s as i64
    }
}

/// `base + i * step`, saturating at the range of `i64`: the position of the
/// i-th element of a run laid out at a fixed pitch.
pub fn step_offset(base: i64, step: u32, i: usize) -> (r: i64)
    ensures
        r == clamp_i64(base + i * step),
{
    proof {
        let ii = i as int;
        let si = step as int;
        assert(ii * si <= 0xffff_ffff_ffff_ffff * 0x1_0000_0000 && ii * si >= 0)
            by (nonlinear_arith)
            requires
                0 <= ii,
                ii <= 0xffff_ffff_ffff_ffff,
                0 <= si,
                si < 0x1_0000_0000;
    }
    let prod: i128 = (i as i128) * (step as i128);
    let sum: i128 = (base as i128) + prod;
    clamp128(sum)
}

/// `base - i * step`, saturating at the range of `i64`: the position of the
/// i-th element of a run laid out backwards at a fixed pitch.
pub fn step_offset_back(base: i64, step: u32, i: usize) -> (r: i64)
    ensures
        r == clamp_i64(base - i * step),
{
    proof {
        let ii = i as int;
        let si = step as int;
        assert(ii * si <= 0xffff_ffff_ffff_ffff * 0x1_0000_0000 && ii * si >= 0)
            by (nonlinear_arith)
            requires
                0 <= ii,
                ii <= 0xffff_ffff_ffff_ffff,
                0 <= si,
                si < 0x1_0000_0000;
    }
    let prod: i128 = (i as i128) * (step as i128);
    let diff: i128 = (base as i128) - prod;
    clamp128(diff)
}

/// `v / 1000`, rounded toward zero: scaling by thousandths.
pub open spec fn div_milli_spec(v: int) -> int {
    if v >= 0 {
        v / 1000
    } else {
        -((-v) / 1000)
    }
}

/// A pixel extent scaled by a factor in thousandths, rounded toward zero and
/// saturated at the range of `i64`.
pub fn scale_extent(px: u32, scale: i64) -> (r: i64)
    ensures
        r == clamp_i64(div_milli_spec(px * scale)),
{
    proof {
        let pi = px as int;
        let si = scale as int;
        assert(pi * si <= 0x1_0000_0000 * 0x8000_0000_0000_0000 && pi * si >= -(0x1_0000_0000
            * 0x8000_0000_0000_0000)) by (nonlinear_arith)
            requires
                0 <= pi,
                pi < 0x1_0000_0000,
                -0x8000_0000_0000_0000 <= si,
                si < 0x8000_0000_0000_0000;
    }
    let prod: i128 = (px as i128) * (scale as i128);
    let q: i128 = if prod >= 0 {
        prod / 1000
    } else {
        -((-prod) / 1000)
    };
    clamp128(q)
}

impl Point2 {
    pub fn new(x: i64, y: i64) -> (p: Point2)
        ensures
            p == (Point2 { x, y }),
    {
        Point2 { x, y }
    }

    /// The point displaced by `v`, each coordinate saturating at the range
    /// of `i64`.
    pub open spec fn moved_spec(self, v: Vector2) -> Point2 {
        Point2 { x: clamp_i64(self.x + v.x), y: clamp_i64(self.y + v.y) }
    }

    pub fn moved(self, v: Vector2) -> (p: Point2)
        ensures
            p == self.moved_spec(v),
    {
        Point2 { x: add_clamped(self.x, v.x), y: add_clamped(self.y, v.y) }
    }
}

impl Vector2 {
    pub fn new(x: i64, y: i64) -> (v: Vector2)
        ensures
            v == (Vector2 { x, y }),
    {
        Vector2 { x, y }
    }
}

impl Vector2u {
    pub fn new(x: u32, y: u32) -> (v: Vector2u)
        ensures
            v == (Vector2u { x, y }),
    {
        Vector2u { x, y }
    }
}

impl Rect {
    pub fn new(x: i64, y: i64, w: i64, h: i64) -> (r: Rect)
        ensures
            r == (Rect { x, y, w, h }),
    {
        Rect { x, y, w, h }
    }

    /// Whether `p` lies inside the rectangle; the right and bottom edges are
    /// excluded, matching half-open pixel regions.
    pub open spec fn contains_spec(self, p: Point2) -> bool {
        &&& self.x <= p.x
        &&& p.x < self.x + self.w
        &&& self.y <= p.y
        &&& p.y < self.y + self.h
    }

    pub fn contains(&self, p: Point2) -> (r: bool)
        ensures
            r == self.contains_spec(p),
    {
        self.x <= p.x && (p.x as i128) < self.x as i128 + self.w as i128 && self.y <= p.y && (
        p.y as i128) < self.y as i128 + self.h as i128
    }
}

} // verus!

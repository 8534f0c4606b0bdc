//! The camera/viewport algorithm: from the raw pixel size of the drawing
//! surface, derive a logical visible area whose width-to-height ratio is
//! the surface's aspect ratio and whose area is a fixed reference area, so
//! the visible world area stays the same across window shapes.
//!
//! The logical axes are integer square roots at a fixed scale of
//! [`VIEW_SCALE`] parts per world unit; their contracts pin the result to
//! the unique integer square root of the exact radicand.
use vstd::prelude::*;

use crate::geom::Vec3;
use crate::geom::Vec3V;
use crate::rational::rv_int;
use crate::rational::rv_mul_int;
use crate::rational::rv_neg;
use crate::rational::rv_half;
use crate::rational::rv_small;
use crate::rational::rv_sub;
use crate::rational::Rat;
use crate::rational::RatV;

verus! {

/// The logical visible area, in world units squared.
pub const REFERENCE_AREA: i64 = 1600 * 1200;

/// Fixed-point scale of the logical viewport axes.
pub const VIEW_SCALE: i64 = 1024;

/// Largest accepted drawing-surface extent, in pixels.
pub const VIEWPORT_MAX: u32 = 16384;

/// `r` is the integer square root of `x`.
pub open spec fn spec_is_isqrt(r: int, x: int) -> bool {
    0 <= r && r * r <= x && x < (r + 1) * (r + 1)
}

/// The integer square root of `x`.
pub open spec fn spec_isqrt(x: int) -> int {
    choose|r: int| spec_is_isqrt(r, x)
}

/// The integer square root is unique.
pub proof fn lemma_isqrt_unique(r: int, x: int)
    requires
        spec_is_isqrt(r, x),
    ensures
        spec_isqrt(x) == r,
{
    assert(spec_is_isqrt(spec_isqrt(x), x)) by {
        assert(exists|c: int| spec_is_isqrt(c, x));
    }
    let c = spec_isqrt(x);
    assert(c == r) by (nonlinear_arith)
        requires
            0 <= r,
            r * r <= x,
            x < (r + 1) * (r + 1),
            0 <= c,
            c * c <= x,
            x < (c + 1) * (c + 1),
    ;
}

/// The scaled radicand of one logical axis: reference area times the
/// pixel ratio `va / vb`, at scale `VIEW_SCALE` squared.
pub open spec fn spec_axis_radicand(va: int, vb: int) -> int {
    (REFERENCE_AREA * va * (VIEW_SCALE * VIEW_SCALE)) / vb
}

/// One logical viewport axis: the square root of the reference area times
/// `va / vb`, at scale `VIEW_SCALE`. The logical width is this with the
/// pixel width over the pixel height; the logical height is the converse.
pub open spec fn spec_logical_axis(va: int, vb: int) -> RatV {
    RatV { n: spec_isqrt(spec_axis_radicand(va, vb)), d: VIEW_SCALE as int }
}

/// Binary search for the integer square root.
fn isqrt(x: u64) -> (r: u64)
    ensures
        spec_is_isqrt(r as int, x as int),
        r < 0x1_0000_0000,
{
    let mut lo: u64 = 0;
    let mut hi: u64 = 0x1_0000_0000;
    assert((x as int) < 0x1_0000_0000 * 0x1_0000_0000) by (nonlinear_arith)
        requires
            x <= 0xFFFF_FFFF_FFFF_FFFFu64,
    ;
    while lo + 1 < hi
        invariant
            lo < hi <= 0x1_0000_0000,
            (lo as int) * (lo as int) <= x as int,
            (x as int) < (hi as int) * (hi as int),
        decreases hi - lo,
    {
        let mid: u64 = lo + (hi - lo) / 2;
        assert((mid as int) * (mid as int) < 0x1_0000_0000_0000_0000) by (nonlinear_arith)
            requires
                mid < 0x1_0000_0000,
        ;
        if mid * mid <= x {
            lo = mid;
        } else {
            hi = mid;
        }
    }
    lo
}

/// One logical viewport axis, computed exactly.
pub fn logical_axis(va: u32, vb: u32) -> (r: Rat)
    requires
        1 <= va <= VIEWPORT_MAX,
        1 <= vb <= VIEWPORT_MAX,
    ensures
        r@ == spec_logical_axis(va as int, vb as int),
        spec_is_isqrt(r@.n, spec_axis_radicand(va as int, vb as int)),
        r@.d == VIEW_SCALE,
        0 <= r@.n < 0x1000_0000,
        rv_small(r@),
{
    let area: u64 = 1_920_000;
    let scale_sq: u64 = 1_048_576;
    proof {
        assert(area == REFERENCE_AREA as u64);
        assert(scale_sq == (VIEW_SCALE as int) * (VIEW_SCALE as int));
    }
    let scaled: u64 = area * (va as u64) * scale_sq;
    let rad: u64 = scaled / (vb as u64);
    proof {
        assert(scaled as int == REFERENCE_AREA * (va as int) * (VIEW_SCALE * VIEW_SCALE));
        assert(scaled <= 32_985_348_833_280_000u64);
        vstd::arithmetic::div_mod::lemma_div_nonincreasing(scaled as int, vb as int);
        vstd::arithmetic::div_mod::lemma_div_pos_is_pos(scaled as int, vb as int);
    }
    let n = isqrt(rad);
    proof {
        lemma_isqrt_unique(n as int, rad as int);
        assert(n < 0x1000_0000) by (nonlinear_arith)
            requires
                (n as int) * (n as int) <= rad as int,
                rad < 0x100_0000_0000_0000u64,
                0 <= n,
        ;
    }
    Rat::new(n as i64, VIEW_SCALE)
}

/// The mathematical value of [`OrthoParams`].
pub struct OrthoParamsV {
    pub left: RatV,
    pub right: RatV,
    pub bottom: RatV,
    pub top: RatV,
    pub znear: RatV,
    pub zfar: RatV,
}

/// The six planes of the orthographic projection over the logical
/// viewport: `x` and `y` each span half the logical axis on both sides of
/// the camera, and the depth range covers the expected `z` span, from
/// `1/10` to four logical heights.
#[derive(Clone, Copy, Debug, PartialEq, Eq, Structural)]
pub struct OrthoParams {
    pub left: Rat,
    pub right: Rat,
    pub bottom: Rat,
    pub top: Rat,
    pub znear: Rat,
    pub zfar: Rat,
}

impl View for OrthoParams {
    type V = OrthoParamsV;

    open spec fn view(&self) -> OrthoParamsV {
        OrthoParamsV {
            left: self.left@,
            right: self.right@,
            bottom: self.bottom@,
            top: self.top@,
            znear: self.znear@,
            zfar: self.zfar@,
        }
    }
}

pub open spec fn spec_ortho(w: RatV, h: RatV) -> OrthoParamsV {
    OrthoParamsV {
        left: rv_neg(rv_half(w)),
        right: rv_half(w),
        bottom: rv_neg(rv_half(h)),
        top: rv_half(h),
        znear: RatV { n: 1, d: 10 },
        zfar: rv_mul_int(h, 4),
    }
}

/// The orthographic projection parameters for a logical viewport.
pub fn ortho_params(w: Rat, h: Rat) -> (r: OrthoParams)
    requires
        w.small(),
        h.small(),
    ensures
        r@ == spec_ortho(w@, h@),
{
    OrthoParams {
        left: w.half().neg(),
        right: w.half(),
        bottom: h.half().neg(),
        top: h.half(),
        znear: Rat::new(1, 10),
        zfar: h.mul_int(4),
    }
}

/// The world-space camera translation: the camera is screen-centered, and
/// its `z` offset keeps the world's depth span inside the projection's
/// depth range.
pub open spec fn spec_world_translation(cx: int, cy: int, h: RatV) -> Vec3V {
    Vec3V { x: rv_int(-cx), y: rv_int(-cy), z: rv_sub(rv_int(cy), rv_mul_int(h, 2)) }
}

pub fn world_translation(cx: i64, cy: i64, h: Rat) -> (r: Vec3)
    requires
        -0x100_0000_0000 <= cx <= 0x100_0000_0000,
        -0x100_0000_0000 <= cy <= 0x100_0000_0000,
        h.small(),
        -0x80_0000_0000 <= h@.n <= 0x80_0000_0000,
    ensures
        r@ == spec_world_translation(cx as int, cy as int, h@),
{
    Vec3 { x: Rat::from_int(-cx), y: Rat::from_int(-cy), z: Rat::from_int(cy).sub(h.mul_int(2)) }
}

/// The screen-space translation of the UI layer: none.
pub fn ui_translation() -> (r: Vec3)
    ensures
        r@ == (Vec3V { x: rv_int(0), y: rv_int(0), z: rv_int(0) }),
{
    Vec3 { x: Rat::from_int(0), y: Rat::from_int(0), z: Rat::from_int(0) }
}

} // verus!

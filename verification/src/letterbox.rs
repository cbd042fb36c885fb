//! The virtual-resolution letterbox transform.
//!
//! All script drawing lands on a fixed 1280x720 offscreen surface.  Every
//! frame that surface is composited onto the real window, scaled uniformly
//! by `scale = min(window_width / 1280, window_height / 720)` and centered,
//! leaving solid bars on the remaining sides.  Pointer positions in window
//! coordinates map back onto the surface by inverting the same transform:
//! `virtual = (real - offset) / scale`.
//!
//! The scale and the offsets are exact rationals over a fixed denominator,
//! so the transform and its inverse compose to the identity exactly; the
//! window backend only ever sees the rounded floating-point rendition of
//! these values.  A degenerate (zero-sized) window would make the scale
//! zero and the inverse mapping non-finite, so the scale numerator is
//! clamped to stay positive.

use vstd::prelude::*;

verus! {

/// Width of the offscreen virtual surface, in pixels.
pub const VIRTUAL_WIDTH: u32 = 1280;

/// Height of the offscreen virtual surface, in pixels.
pub const VIRTUAL_HEIGHT: u32 = 720;

/// The fixed denominator of the scale factor: `VIRTUAL_WIDTH * VIRTUAL_HEIGHT`.
pub const SCALE_DEN: u64 = 921600;

/// The letterbox transform for one window size.  The scale factor is
/// `scale_num / SCALE_DEN`; each offset is `offset_num / (2 * SCALE_DEN)`.
pub struct LetterboxTransform {
    pub scale_num: u64,
    pub offset_x_num: i64,
    pub offset_y_num: i64,
}

impl LetterboxTransform {
    /// Bounds that hold of every transform computed from a window size, and
    /// that keep the coordinate mappings within machine arithmetic.
    pub open spec fn wf(self) -> bool {
        &&& 1 <= self.scale_num <= 0x800_0000_0000
        &&& -0x40_0000_0000_0000 <= self.offset_x_num <= 0x40_0000_0000_0000
        &&& -0x40_0000_0000_0000 <= self.offset_y_num <= 0x40_0000_0000_0000
    }
}

/// The scale numerator for a window of `w` by `h` real pixels:
/// `min(w / VIRTUAL_WIDTH, h / VIRTUAL_HEIGHT)` over the common denominator
/// `SCALE_DEN`, clamped away from zero so the transform stays invertible.
pub open spec fn spec_scale_num(w: int, h: int) -> int {
    let n = if w * 720 <= h * 1280 {
        w * 720
    } else {
        h * 1280
    };
    if n < 1 {
        1
    } else {
        n
    }
}

/// The centering offset along one axis, over the denominator
/// `2 * SCALE_DEN`: `(d - v * scale) / 2` for window extent `d` and virtual
/// extent `v`.
pub open spec fn spec_offset_num(d: int, v: int, scale_num: int) -> int {
    d * 921600 - v * scale_num
}

/// Two fractions are equal as rationals.
pub open spec fn frac_eq(an: int, ad: int, bn: int, bd: int) -> bool {
    an * bd == bn * ad
}

/// Numerator of `(p - offset) / scale` for a real coordinate `pn / pd`,
/// offset numerator `off` and scale numerator `n`; the denominator is
/// [`to_virtual_den`].
pub open spec fn to_virtual_num(off: int, pn: int, pd: int) -> int {
    1843200 * pn - pd * off
}

pub open spec fn to_virtual_den(n: int, pd: int) -> int {
    2 * pd * n
}

/// Numerator of `v * scale + offset` for a virtual coordinate `vn / vd`,
/// offset numerator `off` and scale numerator `n`; the denominator is
/// [`to_real_den`].
pub open spec fn to_real_num(off: int, n: int, vn: int, vd: int) -> int {
    2 * vn * n + vd * off
}

pub open spec fn to_real_den(vd: int) -> int {
    1843200 * vd
}

/// Compute the letterbox transform for the current window size.
pub fn letterbox_transform(w: u32, h: u32) -> (t: LetterboxTransform)
    ensures
        t.scale_num == spec_scale_num(w as int, h as int),
        t.offset_x_num == spec_offset_num(w as int, VIRTUAL_WIDTH as int, t.scale_num as int),
        t.offset_y_num == spec_offset_num(h as int, VIRTUAL_HEIGHT as int, t.scale_num as int),
        t.wf(),
{
    let sw: u64 = (w as u64) * 720;
    let sh: u64 = (h as u64) * 1280;
    let n0: u64 = if sw <= sh {
        sw
    } else {
        sh
    };
    let n: u64 = if n0 < 1 {
        1
    } else {
        n0
    };
    let off_x: i64 = (w as i64) * 921600 - 1280 * (n as i64);
    let off_y: i64 = (h as i64) * 921600 - 720 * (n as i64);
    LetterboxTransform { scale_num: n, offset_x_num: off_x, offset_y_num: off_y }
}

/// Map a real window coordinate `pn / pd` (one axis, with offset numerator
/// taken from the transform) onto the virtual surface, exactly.
pub fn virtual_x_of_real(t: &LetterboxTransform, pn: i64, pd: i64) -> (v: (i128, i128))
    requires
        t.wf(),
        1 <= pd <= 0x10_0000,
        -0x1_0000_0000_0000 <= pn <= 0x1_0000_0000_0000,
    ensures
        v.0 == to_virtual_num(t.offset_x_num as int, pn as int, pd as int),
        v.1 == to_virtual_den(t.scale_num as int, pd as int),
        v.1 > 0,
{
    map_axis_to_virtual(t.offset_x_num, t.scale_num, pn, pd)
}

/// Map a real window coordinate onto the virtual surface along the vertical
/// axis, exactly.
pub fn virtual_y_of_real(t: &LetterboxTransform, pn: i64, pd: i64) -> (v: (i128, i128))
    requires
        t.wf(),
        1 <= pd <= 0x10_0000,
        -0x1_0000_0000_0000 <= pn <= 0x1_0000_0000_0000,
    ensures
        v.0 == to_virtual_num(t.offset_y_num as int, pn as int, pd as int),
        v.1 == to_virtual_den(t.scale_num as int, pd as int),
        v.1 > 0,
{
    map_axis_to_virtual(t.offset_y_num, t.scale_num, pn, pd)
}

fn map_axis_to_virtual(off: i64, n: u64, pn: i64, pd: i64) -> (v: (i128, i128))
    requires
        1 <= n <= 0x800_0000_0000,
        -0x40_0000_0000_0000 <= off <= 0x40_0000_0000_0000,
        1 <= pd <= 0x10_0000,
        -0x1_0000_0000_0000 <= pn <= 0x1_0000_0000_0000,
    ensures
        v.0 == to_virtual_num(off as int, pn as int, pd as int),
        v.1 == to_virtual_den(n as int, pd as int),
        v.1 > 0,
{
    proof {
        assert((pd as int) * (off as int) <= 0x10_0000 * 0x40_0000_0000_0000 && (pd as int) * (
        off as int) >= -(0x10_0000 * 0x40_0000_0000_0000) && 1 * 1 <= (pd as int) * (n as int)
            <= 0x10_0000 * 0x800_0000_0000) by (nonlinear_arith)
            requires
                1 <= pd <= 0x10_0000,
                -0x40_0000_0000_0000 <= off <= 0x40_0000_0000_0000,
                1 <= n <= 0x800_0000_0000,
        ;
        assert(2 * ((pd as int) * (n as int)) == 2 * (pd as int) * (n as int))
            by (nonlinear_arith);
    }
    let num: i128 = 1843200 * (pn as i128) - (pd as i128) * (off as i128);
    let den: i128 = 2 * ((pd as i128) * (n as i128));
    (num, den)
}

/// Map a virtual-surface coordinate `vn / vd` (one axis) back to a real
/// window coordinate, exactly: `real = virtual * scale + offset`.
pub fn real_x_of_virtual(t: &LetterboxTransform, vn: i128, vd: i128) -> (r: (i128, i128))
    requires
        t.wf(),
        1 <= vd <= 0x4_0000_0000_0000_0000,
        -0x1_0000_0000_0000_0000_0000 <= vn <= 0x1_0000_0000_0000_0000_0000,
    ensures
        r.0 == to_real_num(t.offset_x_num as int, t.scale_num as int, vn as int, vd as int),
        r.1 == to_real_den(vd as int),
        r.1 > 0,
{
    map_axis_to_real(t.offset_x_num, t.scale_num, vn, vd)
}

/// The vertical counterpart of [`real_x_of_virtual`].
pub fn real_y_of_virtual(t: &LetterboxTransform, vn: i128, vd: i128) -> (r: (i128, i128))
    requires
        t.wf(),
        1 <= vd <= 0x4_0000_0000_0000_0000,
        -0x1_0000_0000_0000_0000_0000 <= vn <= 0x1_0000_0000_0000_0000_0000,
    ensures
        r.0 == to_real_num(t.offset_y_num as int, t.scale_num as int, vn as int, vd as int),
        r.1 == to_real_den(vd as int),
        r.1 > 0,
{
    map_axis_to_real(t.offset_y_num, t.scale_num, vn, vd)
}

fn map_axis_to_real(off: i64, n: u64, vn: i128, vd: i128) -> (r: (i128, i128))
    requires
        1 <= n <= 0x800_0000_0000,
        -0x40_0000_0000_0000 <= off <= 0x40_0000_0000_0000,
        1 <= vd <= 0x4_0000_0000_0000_0000,
        -0x1_0000_0000_0000_0000_0000 <= vn <= 0x1_0000_0000_0000_0000_0000,
    ensures
        r.0 == to_real_num(off as int, n as int, vn as int, vd as int),
        r.1 == to_real_den(vd as int),
        r.1 > 0,
{
    proof {
        assert((vn as int) * (n as int) <= 0x1_0000_0000_0000_0000_0000 * 0x800_0000_0000 && (
        vn as int) * (n as int) >= -(0x1_0000_0000_0000_0000_0000 * 0x800_0000_0000) && (vd as int)
            * (off as int) <= 0x4_0000_0000_0000_0000 * 0x40_0000_0000_0000 && (vd as int) * (
        off as int) >= -(0x4_0000_0000_0000_0000 * 0x40_0000_0000_0000) && 2 * vn * (n as int)
            <= 0x2_0000_0000_0000_0000_0000 * 0x800_0000_0000 && 2 * vn * (n as int) >= -(
        0x2_0000_0000_0000_0000_0000 * 0x800_0000_0000)) by (nonlinear_arith)
            requires
                1 <= n <= 0x800_0000_0000,
                -0x40_0000_0000_0000 <= off <= 0x40_0000_0000_0000,
                1 <= vd <= 0x4_0000_0000_0000_0000,
                -0x1_0000_0000_0000_0000_0000 <= vn <= 0x1_0000_0000_0000_0000_0000,
        ;
    }
    let num: i128 = 2 * vn * (n as i128) + vd * (off as i128);
    let den: i128 = 1843200 * vd;
    (num, den)
}

/// Letterboxing never overflows a real window: for a window with at least
/// one pixel in each direction, both centering offsets are nonnegative (the
/// scaled surface fits), and on each axis the two equal bars plus the
/// scaled surface add back up to the window extent exactly (the surface is
/// centered).  Both axes share one scale numerator, so the surface is never
/// stretched non-uniformly.
pub proof fn lemma_letterbox_fits(w: int, h: int)
    requires
        1 <= w,
        1 <= h,
    ensures
        spec_offset_num(w, VIRTUAL_WIDTH as int, spec_scale_num(w, h)) >= 0,
        spec_offset_num(h, VIRTUAL_HEIGHT as int, spec_scale_num(w, h)) >= 0,
        2 * spec_offset_num(w, VIRTUAL_WIDTH as int, spec_scale_num(w, h)) + 2 * 1280
            * spec_scale_num(w, h) == w * 1843200,
        2 * spec_offset_num(h, VIRTUAL_HEIGHT as int, spec_scale_num(w, h)) + 2 * 720
            * spec_scale_num(w, h) == h * 1843200,
{
    let n = spec_scale_num(w, h);
    assert(VIRTUAL_WIDTH as int == 1280 && VIRTUAL_HEIGHT as int == 720);
    assert(spec_offset_num(w, VIRTUAL_WIDTH as int, n) == w * 921600 - 1280 * n);
    assert(spec_offset_num(h, VIRTUAL_HEIGHT as int, n) == h * 921600 - 720 * n);
    if w * 720 <= h * 1280 {
        assert(n == w * 720);
        assert(720 * n <= 720 * (h * 1280)) by (nonlinear_arith)
            requires
                n <= h * 1280,
        ;
        assert(1280 * n == 921600 * w && 720 * (h * 1280) == 921600 * h) by (nonlinear_arith)
            requires
                n == w * 720,
        ;
    } else {
        assert(n == h * 1280);
        assert(1280 * n <= 1280 * (w * 720)) by (nonlinear_arith)
            requires
                n <= w * 720,
        ;
        assert(720 * n == 921600 * h && 1280 * (w * 720) == 921600 * w) by (nonlinear_arith)
            requires
                n == h * 1280,
        ;
    }
    assert(2 * spec_offset_num(w, VIRTUAL_WIDTH as int, n) + 2 * 1280 * n == w * 1843200)
        by (nonlinear_arith)
        requires
            spec_offset_num(w, VIRTUAL_WIDTH as int, n) == w * 921600 - 1280 * n,
    ;
    assert(2 * spec_offset_num(h, VIRTUAL_HEIGHT as int, n) + 2 * 720 * n == h * 1843200)
        by (nonlinear_arith)
        requires
            spec_offset_num(h, VIRTUAL_HEIGHT as int, n) == h * 921600 - 720 * n,
    ;
}

/// Letterbox round trip: mapping a real point onto the virtual surface and
/// back recovers the point exactly, as rationals, for every window size
/// (the clamp keeps the scale numerator positive) and every real point.
pub proof fn lemma_letterbox_round_trip(off: int, n: int, pn: int, pd: int)
    requires
        n >= 1,
        pd >= 1,
    ensures
        to_virtual_den(n, pd) > 0,
        to_real_den(to_virtual_den(n, pd)) > 0,
        frac_eq(
            to_real_num(off, n, to_virtual_num(off, pn, pd), to_virtual_den(n, pd)),
            to_real_den(to_virtual_den(n, pd)),
            pn,
            pd,
        ),
{
    let d = 921600int;
    let vn = 2 * d * pn - pd * off;
    let vd = 2 * pd * n;
    assert(vd > 0 && 2 * vd * d > 0 && (2 * vn * n + vd * off) * pd == pn * (2 * vd * d))
        by (nonlinear_arith)
        requires
            n >= 1,
            pd >= 1,
            d == 921600,
            vn == 2 * d * pn - pd * off,
            vd == 2 * pd * n,
    ;
}

} // verus!

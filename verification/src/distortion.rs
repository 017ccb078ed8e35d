//! Lens-distortion parameters for the VR post-process pass.
//!
//! The barrel-distortion shader is parameterized by the lens radius, the
//! horizontal lens-center offset and a derived compensating zoom. The
//! zoom is not user-set: it is `1 / (1 + k1*r^2 + k2*r^4)` with fixed
//! coefficients and the radius clamped to 1.0, so that growing the lens
//! radius never zooms the image without bound. Values are fixed point:
//! [`PARAM_ONE`] stands for 1.0.

use vstd::prelude::*;

verus! {

/// Fixed-point scale of the distortion parameters: 10000 is 1.0.
pub const PARAM_ONE: u64 = 10000;

/// First radial coefficient, 0.25 in fixed point.
pub const DISTORTION_K1: u64 = 2500;

/// Second radial coefficient, 0.15 in fixed point.
pub const DISTORTION_K2: u64 = 1500;

/// Largest lens radius a slider can ask for (1.5 in fixed point).
pub const MAX_LENS_RADIUS: u64 = 15000;

/// The radius the zoom computation sees: capped at 1.0.
pub open spec fn spec_clamped_radius(r: int) -> int {
    if r > PARAM_ONE {
        PARAM_ONE as int
    } else {
        r
    }
}

/// The radial distortion polynomial `1 + k1*r^2 + k2*r^4` at the
/// clamped radius, in fixed point.
pub open spec fn spec_distortion_denominator(r: int) -> int {
    let rc = spec_clamped_radius(r);
    let r2 = (rc * rc) / (PARAM_ONE as int);
    let r4 = (r2 * r2) / (PARAM_ONE as int);
    PARAM_ONE + (DISTORTION_K1 * r2) / (PARAM_ONE as int) + (DISTORTION_K2 * r4) / (
    PARAM_ONE as int)
}

/// The compensating zoom `1 / (1 + k1*r^2 + k2*r^4)`, in fixed point.
pub open spec fn spec_scale_factor(r: int) -> int {
    (PARAM_ONE * PARAM_ONE) / spec_distortion_denominator(r)
}

/// Derive the compensating zoom from the lens radius.
pub fn scale_factor(lens_radius: u64) -> (s: u64)
    requires
        lens_radius <= MAX_LENS_RADIUS,
    ensures
        s == spec_scale_factor(lens_radius as int),
        0 < s <= PARAM_ONE,
{
    let rc: u64 = if lens_radius > PARAM_ONE {
        PARAM_ONE
    } else {
        lens_radius
    };
    proof {
        assert(rc * rc <= 10000int * 10000) by (nonlinear_arith)
            requires
                0 <= rc <= 10000,
        ;
        vstd::arithmetic::div_mod::lemma_div_is_ordered(rc as int * rc as int, 10000int * 10000, 10000);
    }
    let r2: u64 = (rc * rc) / PARAM_ONE;
    proof {
        assert(r2 * r2 <= 10000int * 10000 && DISTORTION_K1 * r2 <= 2500int * 10000)
            by (nonlinear_arith)
            requires
                0 <= r2 <= 10000,
        ;
        vstd::arithmetic::div_mod::lemma_div_is_ordered(r2 as int * r2 as int, 10000int * 10000, 10000);
    }
    let r4: u64 = (r2 * r2) / PARAM_ONE;
    proof {
        assert(DISTORTION_K2 * r4 <= 1500int * 10000) by (nonlinear_arith)
            requires
                0 <= r4 <= 10000,
        ;
        vstd::arithmetic::div_mod::lemma_div_is_ordered(
            DISTORTION_K1 as int * r2 as int,
            2500int * 10000,
            10000,
        );
        vstd::arithmetic::div_mod::lemma_div_is_ordered(
            DISTORTION_K2 as int * r4 as int,
            1500int * 10000,
            10000,
        );
    }
    let denominator: u64 = PARAM_ONE + (DISTORTION_K1 * r2) / PARAM_ONE + (DISTORTION_K2 * r4)
        / PARAM_ONE;
    proof {
        lemma_denominator_bounds(lens_radius as int);
        vstd::arithmetic::div_mod::lemma_div_is_ordered_by_denominator(
            (PARAM_ONE * PARAM_ONE) as int,
            denominator as int,
            14000,
        );
        vstd::arithmetic::div_mod::lemma_div_is_ordered_by_denominator(
            (PARAM_ONE * PARAM_ONE) as int,
            PARAM_ONE as int,
            denominator as int,
        );
    }
    (PARAM_ONE * PARAM_ONE) / denominator
}

/// The distortion polynomial is at least 1.0 and at most the value at
/// the clamp, so the derived zoom is positive and at most 1.0.
proof fn lemma_denominator_bounds(r: int)
    requires
        0 <= r,
    ensures
        PARAM_ONE <= spec_distortion_denominator(r) <= 14000,
{
    let rc = spec_clamped_radius(r);
    let r2 = (rc * rc) / (PARAM_ONE as int);
    assert(0 <= rc * rc <= 10000int * 10000) by (nonlinear_arith)
        requires
            0 <= rc <= 10000,
    ;
    vstd::arithmetic::div_mod::lemma_div_is_ordered(rc * rc, 10000int * 10000, 10000);
    vstd::arithmetic::div_mod::lemma_div_is_ordered(0, rc * rc, 10000);
    let r4 = (r2 * r2) / (PARAM_ONE as int);
    assert(0 <= r2 * r2 <= 10000int * 10000) by (nonlinear_arith)
        requires
            0 <= r2 <= 10000,
    ;
    vstd::arithmetic::div_mod::lemma_div_is_ordered(r2 * r2, 10000int * 10000, 10000);
    vstd::arithmetic::div_mod::lemma_div_is_ordered(0, r2 * r2, 10000);
    assert(0 <= DISTORTION_K1 * r2 <= 2500int * 10000) by (nonlinear_arith)
        requires
            0 <= r2 <= 10000,
    ;
    vstd::arithmetic::div_mod::lemma_div_is_ordered(DISTORTION_K1 * r2, 2500int * 10000, 10000);
    vstd::arithmetic::div_mod::lemma_div_is_ordered(0, DISTORTION_K1 * r2, 10000);
    assert(0 <= DISTORTION_K2 * r4 <= 1500int * 10000) by (nonlinear_arith)
        requires
            0 <= r4 <= 10000,
    ;
    vstd::arithmetic::div_mod::lemma_div_is_ordered(DISTORTION_K2 * r4, 1500int * 10000, 10000);
    vstd::arithmetic::div_mod::lemma_div_is_ordered(0, DISTORTION_K2 * r4, 10000);
}

/// Distortion-scale monotonicity: the zoom never grows as the lens
/// radius grows, and it is constant past the clamp at 1.0 — for
/// example, `scale_factor(0.5) > scale_factor(1.0) == scale_factor(1.5)`
/// holds of the exact fixed-point values.
pub proof fn lemma_scale_factor_monotonic(r1: int, r2: int)
    requires
        0 <= r1 <= r2,
    ensures
        spec_scale_factor(r1) >= spec_scale_factor(r2),
        r1 >= PARAM_ONE ==> spec_scale_factor(r1) == spec_scale_factor(PARAM_ONE as int),
{
    let c1 = spec_clamped_radius(r1);
    let c2 = spec_clamped_radius(r2);
    assert(0 <= c1 <= c2 <= 10000);
    assert(c1 * c1 <= c2 * c2) by (nonlinear_arith)
        requires
            0 <= c1 <= c2,
    ;
    vstd::arithmetic::div_mod::lemma_div_is_ordered(c1 * c1, c2 * c2, 10000);
    let s1 = (c1 * c1) / 10000;
    let s2 = (c2 * c2) / 10000;
    assert(0 <= s1 * s1 && s1 * s1 <= s2 * s2) by (nonlinear_arith)
        requires
            0 <= s1 <= s2,
    ;
    vstd::arithmetic::div_mod::lemma_div_is_ordered(s1 * s1, s2 * s2, 10000);
    let q1 = (s1 * s1) / 10000;
    let q2 = (s2 * s2) / 10000;
    assert(2500 * s1 <= 2500 * s2 && 1500 * q1 <= 1500 * q2) by (nonlinear_arith)
        requires
            s1 <= s2,
            q1 <= q2,
    ;
    assert(0 <= 2500 * s1 && 0 <= 1500 * q1) by (nonlinear_arith)
        requires
            0 <= s1,
            0 <= q1,
    ;
    vstd::arithmetic::div_mod::lemma_div_is_ordered(2500 * s1, 2500 * s2, 10000);
    vstd::arithmetic::div_mod::lemma_div_is_ordered(1500 * q1, 1500 * q2, 10000);
    lemma_denominator_bounds(r1);
    lemma_denominator_bounds(r2);
    vstd::arithmetic::div_mod::lemma_div_is_ordered_by_denominator(
        (PARAM_ONE * PARAM_ONE) as int,
        spec_distortion_denominator(r1),
        spec_distortion_denominator(r2),
    );
}

} // verus!

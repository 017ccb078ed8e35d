//! Off-axis eye projections and viewport split for stereo rendering.
//!
//! Each eye sees a custom asymmetric frustum: its left/right clip planes
//! are shifted horizontally by the configurable lens-center offset on
//! top of the fixed half-interpupillary eye translation, modelling lens
//! misalignment independently of eye separation. The vertical field of
//! view is a right angle, so the frustum's top plane equals the near
//! distance exactly. Values are fixed point with 10000 standing for 1.0;
//! matrices are right-handed and column-major, and no depth testing is
//! used, so only the clip-space x/y terms matter.

use vstd::prelude::*;

verus! {

/// Fixed-point scale: 10000 is 1.0.
pub const PROJ_ONE: i64 = 10000;

/// Near plane distance (0.1).
pub const NEAR: i64 = 1000;

/// Interpupillary distance (0.063), as the average human IPD.
pub const IPD: i64 = 630;

/// Half the interpupillary distance (0.0315).
pub const HALF_IPD: i64 = 315;

/// Magnitude bound on the lens-center offset (0.15).
pub const LENS_OFFSET_BOUND: i64 = 1500;

/// Largest screen edge accepted.
pub const MAX_SCREEN_DIM: u32 = 16384;

/// Which view is being rendered.
#[derive(Clone, Copy, PartialEq, Eq, Structural, Debug)]
pub enum EyeSide {
    Left,
    Right,
    /// The single full-screen view outside VR mode.
    Mono,
}

/// A horizontal viewport slice of the render target.
#[derive(Clone, Copy, PartialEq, Eq, Structural, Debug)]
pub struct Viewport {
    pub x: u32,
    pub width: u32,
}

/// The x/y terms of one eye's projection, fixed point, plus the eye's
/// view-space translation.
#[derive(Clone, Copy, PartialEq, Eq, Structural, Debug)]
pub struct FrustumParams {
    pub x_scale: i64,
    pub y_scale: i64,
    pub x_offset: i64,
    pub y_offset: i64,
    pub eye_translation: i64,
}

/// Quotient truncated toward zero (what the platform's real-valued
/// arithmetic rounds to when converted back), for a positive divisor.
pub open spec fn spec_div_trunc(a: int, b: int) -> int {
    if a >= 0 {
        a / b
    } else {
        -((-a) / b)
    }
}

/// In VR mode the two eyes tile the target side by side; outside VR the
/// single view covers it whole.
pub fn eye_viewport(eye: EyeSide, screen_w: u32) -> (v: Viewport)
    ensures
        v == (match eye {
            EyeSide::Left => Viewport { x: 0u32, width: screen_w / 2 },
            EyeSide::Right => Viewport { x: screen_w / 2, width: screen_w / 2 },
            EyeSide::Mono => Viewport { x: 0u32, width: screen_w },
        }),
{
    match eye {
        EyeSide::Left => Viewport { x: 0, width: screen_w / 2 },
        EyeSide::Right => Viewport { x: screen_w / 2, width: screen_w / 2 },
        EyeSide::Mono => Viewport { x: 0, width: screen_w },
    }
}

/// The half-viewports tile the screen: the right half starts where the
/// left one ends, both are equally wide, and together they never exceed
/// the screen.
pub proof fn lemma_viewports_tile(screen_w: u32)
    ensures
        ({
            let l = Viewport { x: 0u32, width: (screen_w / 2) as u32 };
            let r = Viewport { x: (screen_w / 2) as u32, width: (screen_w / 2) as u32 };
            &&& r.x == l.x + l.width
            &&& l.width == r.width
            &&& r.x + r.width <= screen_w
        }),
{
}

/// The horizontal clip-plane shift an eye sees: the lens-center offset,
/// mirrored between the eyes, absent outside VR.
pub fn eye_shift(eye: EyeSide, lens_offset: i64) -> (s: i64)
    requires
        -LENS_OFFSET_BOUND <= lens_offset <= LENS_OFFSET_BOUND,
    ensures
        s == (match eye {
            EyeSide::Left => lens_offset as int,
            EyeSide::Right => -lens_offset as int,
            EyeSide::Mono => 0int,
        }),
{
    match eye {
        EyeSide::Left => lens_offset,
        EyeSide::Right => -lens_offset,
        EyeSide::Mono => 0,
    }
}

/// The eye's view-space translation: half the interpupillary distance
/// outward, pulled in or out by the lens-center offset.
pub fn eye_translation(eye: EyeSide, lens_offset: i64) -> (t: i64)
    requires
        -LENS_OFFSET_BOUND <= lens_offset <= LENS_OFFSET_BOUND,
    ensures
        t == (match eye {
            EyeSide::Left => -HALF_IPD + lens_offset as int,
            EyeSide::Right => HALF_IPD - lens_offset as int,
            EyeSide::Mono => 0int,
        }),
{
    match eye {
        EyeSide::Left => -HALF_IPD + lens_offset,
        EyeSide::Right => HALF_IPD - lens_offset,
        EyeSide::Mono => 0,
    }
}

/// The frustum's half width at the near plane: the near-plane top (the
/// near distance itself, the vertical field of view being a right
/// angle) times the viewport's aspect ratio.
pub open spec fn spec_half_width(vw: int, vh: int) -> int {
    (NEAR * vw) / vh
}

/// The near-plane displacement of the asymmetric frustum: the shift
/// expressed as a fraction of the doubled half width.
pub open spec fn spec_shift_near(shift: int, hw: int) -> int {
    spec_div_trunc(shift * hw * 2, PROJ_ONE as int)
}

/// Clip-space x scale: with the left and right planes displaced by the
/// same amount, their span stays two half widths, so the scale does not
/// depend on the shift.
pub open spec fn spec_x_scale(hw: int) -> int {
    (NEAR * PROJ_ONE) / hw
}

/// Clip-space x offset of the asymmetric frustum,
/// `(right + left) / (right - left)` reduced to the shift over the half
/// width.
pub open spec fn spec_x_offset(shift: int, hw: int) -> int {
    -spec_div_trunc(spec_shift_near(shift, hw) * (PROJ_ONE as int), hw)
}

/// Build one eye's projection terms. The y scale is exactly 1.0 (right
/// angle of vertical view), the x scale depends only on the viewport's
/// aspect, and the x offset carries the whole asymmetry.
pub fn eye_frustum(eye: EyeSide, lens_offset: i64, vw: u32, vh: u32) -> (f: FrustumParams)
    requires
        -LENS_OFFSET_BOUND <= lens_offset <= LENS_OFFSET_BOUND,
        0 < vw <= MAX_SCREEN_DIM,
        0 < vh <= MAX_SCREEN_DIM,
        1000 * vw >= vh,
    ensures
        ({
            let shift = match eye {
                EyeSide::Left => lens_offset as int,
                EyeSide::Right => -lens_offset as int,
                EyeSide::Mono => 0int,
            };
            let hw = spec_half_width(vw as int, vh as int);
            &&& f.x_scale == spec_x_scale(hw)
            &&& f.y_scale == PROJ_ONE
            &&& f.x_offset == spec_x_offset(shift, hw)
            &&& f.y_offset == 0
            &&& f.eye_translation == (match eye {
                EyeSide::Left => -HALF_IPD + lens_offset as int,
                EyeSide::Right => HALF_IPD - lens_offset as int,
                EyeSide::Mono => 0int,
            })
        }),
{
    let shift: i64 = eye_shift(eye, lens_offset);
    let translation: i64 = eye_translation(eye, lens_offset);
    proof {
        assert(NEAR * vw <= 1000int * 16384) by (nonlinear_arith)
            requires
                0 < vw <= 16384,
        ;
        assert(NEAR * vw >= NEAR) by (nonlinear_arith)
            requires
                1 <= vw,
        ;
        vstd::arithmetic::div_mod::lemma_div_non_zero((NEAR * vw) as int, vh as int);
        vstd::arithmetic::div_mod::lemma_div_is_ordered(
            (NEAR * vw) as int,
            1000int * 16384,
            vh as int,
        );
    }
    let hw: i64 = (NEAR * (vw as i64)) / (vh as i64);
    proof {
        assert(shift * hw * 2 <= 1500int * 16384000 * 2 && shift * hw * 2 >= -(1500int * 16384000
            * 2)) by (nonlinear_arith)
            requires
                -1500 <= shift <= 1500,
                0 < hw <= 16384000,
        ;
    }
    let shift_near: i64 = div_trunc(shift * hw * 2, PROJ_ONE);
    proof {
        assert(spec_div_trunc((shift * hw * 2) as int, PROJ_ONE as int) <= 1500int * 16384000 * 2
            / 10000 && spec_div_trunc((shift * hw * 2) as int, PROJ_ONE as int) >= -(1500int
            * 16384000 * 2 / 10000)) by (nonlinear_arith)
            requires
                -(1500int * 16384000 * 2) <= shift * hw * 2 <= 1500int * 16384000 * 2,
        ;
    }
    let x_scale: i64 = (NEAR * PROJ_ONE) / hw;
    let x_offset: i64 = -div_trunc(shift_near * PROJ_ONE, hw);
    FrustumParams { x_scale, y_scale: PROJ_ONE, x_offset, y_offset: 0, eye_translation: translation }
}

/// Lens symmetry: with the same lens offset, the two eyes' frustums
/// mirror each other — opposite x offsets, opposite eye translations,
/// and one and the same x scale.
pub proof fn lemma_eye_frustums_mirror(lens_offset: int, hw: int)
    requires
        0 < hw,
    ensures
        spec_x_offset(-lens_offset, hw) == -spec_x_offset(lens_offset, hw),
{
    assert(-lens_offset * hw * 2 == -(lens_offset * hw * 2)) by (nonlinear_arith);
}

/// Truncated division by a positive divisor.
fn div_trunc(a: i64, b: i64) -> (r: i64)
    requires
        0 < b,
        i64::MIN < a,
    ensures
        r == spec_div_trunc(a as int, b as int),
{
    if a >= 0 {
        proof {
            vstd::arithmetic::div_mod::lemma_div_is_ordered(0, a as int, b as int);
            vstd::arithmetic::div_mod::lemma_div_is_ordered(a as int, i64::MAX as int, b as int);
            vstd::arithmetic::div_mod::lemma_div_is_ordered_by_denominator(a as int, 1, b as int);
        }
        a / b
    } else {
        let m: i64 = -a;
        proof {
            vstd::arithmetic::div_mod::lemma_div_is_ordered(0, m as int, b as int);
            vstd::arithmetic::div_mod::lemma_div_is_ordered_by_denominator(m as int, 1, b as int);
        }
        -(m / b)
    }
}

} // verus!

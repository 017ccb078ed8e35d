//! Fixed-point quaternions for head orientation.
//!
//! Components are integers; the value [`UNIT`] stands for the real number
//! 1.0, so a unit quaternion coming from a rotation sensor has a squared
//! norm near `UNIT * UNIT`. A quaternion and any positive multiple of it
//! describe the same rotation, so composition keeps exact integer products
//! and never rescales; the platform layer normalizes when it converts the
//! result to its own floating-point form.

use vstd::prelude::*;

verus! {

/// Fixed-point scale: a component equal to `UNIT` stands for 1.0.
pub const UNIT: i64 = 10000;

/// Magnitude bound on the components of a well-formed quaternion
/// (100.0 in fixed point), chosen so that every product in a
/// composition fits comfortably in `i64`.
pub const COMPONENT_BOUND: i64 = 1000000;

/// An orientation, stored as fixed-point quaternion components.
#[derive(Clone, Copy, PartialEq, Eq, Structural, Debug)]
pub struct Quat {
    pub x: i64,
    pub y: i64,
    pub z: i64,
    pub w: i64,
}

impl Quat {
    /// Every component small enough that compositions cannot overflow.
    pub open spec fn wf(self) -> bool {
        &&& -COMPONENT_BOUND <= self.x <= COMPONENT_BOUND
        &&& -COMPONENT_BOUND <= self.y <= COMPONENT_BOUND
        &&& -COMPONENT_BOUND <= self.z <= COMPONENT_BOUND
        &&& -COMPONENT_BOUND <= self.w <= COMPONENT_BOUND
    }

    /// Squared norm, as a mathematical integer.
    pub open spec fn norm2(self) -> int {
        self.x * self.x + self.y * self.y + self.z * self.z + self.w * self.w
    }

    /// A quaternion describes the identity rotation exactly when its
    /// vector part vanishes and its scalar part is positive (any positive
    /// multiple of `(0,0,0,1)` is the same rotation).
    pub open spec fn is_identity_rotation(self) -> bool {
        self.x == 0 && self.y == 0 && self.z == 0 && self.w > 0
    }

    /// The identity rotation at scale `UNIT`.
    pub fn identity() -> (r: Quat)
        ensures
            r == (Quat { x: 0int as i64, y: 0int as i64, z: 0int as i64, w: UNIT }),
            r.wf(),
            r.is_identity_rotation(),
    {
        Quat { x: 0, y: 0, z: 0, w: UNIT }
    }

    /// The conjugate, which for a rotation quaternion is its inverse
    /// (up to the positive factor `norm2`, which does not change the
    /// rotation described).
    pub fn conjugate(&self) -> (r: Quat)
        requires
            self.wf(),
        ensures
            r == spec_conjugate(*self),
            r.wf(),
    {
        Quat { x: -self.x, y: -self.y, z: -self.z, w: self.w }
    }

    /// Hamilton product `self * rhs`: the rotation `rhs` followed by
    /// `self`. Exact integer products, no rescaling.
    pub fn compose(&self, rhs: &Quat) -> (r: Quat)
        requires
            self.wf(),
            rhs.wf(),
        ensures
            r == spec_compose(*self, *rhs),
    {
        proof {
            lemma_abs_mul_bound(self.x as int, rhs.x as int, COMPONENT_BOUND as int);
            lemma_abs_mul_bound(self.x as int, rhs.y as int, COMPONENT_BOUND as int);
            lemma_abs_mul_bound(self.x as int, rhs.z as int, COMPONENT_BOUND as int);
            lemma_abs_mul_bound(self.x as int, rhs.w as int, COMPONENT_BOUND as int);
            lemma_abs_mul_bound(self.y as int, rhs.x as int, COMPONENT_BOUND as int);
            lemma_abs_mul_bound(self.y as int, rhs.y as int, COMPONENT_BOUND as int);
            lemma_abs_mul_bound(self.y as int, rhs.z as int, COMPONENT_BOUND as int);
            lemma_abs_mul_bound(self.y as int, rhs.w as int, COMPONENT_BOUND as int);
            lemma_abs_mul_bound(self.z as int, rhs.x as int, COMPONENT_BOUND as int);
            lemma_abs_mul_bound(self.z as int, rhs.y as int, COMPONENT_BOUND as int);
            lemma_abs_mul_bound(self.z as int, rhs.z as int, COMPONENT_BOUND as int);
            lemma_abs_mul_bound(self.z as int, rhs.w as int, COMPONENT_BOUND as int);
            lemma_abs_mul_bound(self.w as int, rhs.x as int, COMPONENT_BOUND as int);
            lemma_abs_mul_bound(self.w as int, rhs.y as int, COMPONENT_BOUND as int);
            lemma_abs_mul_bound(self.w as int, rhs.z as int, COMPONENT_BOUND as int);
            lemma_abs_mul_bound(self.w as int, rhs.w as int, COMPONENT_BOUND as int);
        }
        Quat {
            x: self.w * rhs.x + self.x * rhs.w + self.y * rhs.z - self.z * rhs.y,
            y: self.w * rhs.y - self.x * rhs.z + self.y * rhs.w + self.z * rhs.x,
            z: self.w * rhs.z + self.x * rhs.y - self.y * rhs.x + self.z * rhs.w,
            w: self.w * rhs.w - self.x * rhs.x - self.y * rhs.y - self.z * rhs.z,
        }
    }

    /// The empirical sensor axis remap `(x, y, z, w) -> (-y, x, z, w)`
    /// that aligns the device's rotation-vector axes with the display's
    /// pitch/yaw. A calibration constant for one mounting orientation,
    /// not a universal transform.
    pub fn remap_axes(&self) -> (r: Quat)
        requires
            self.wf(),
        ensures
            r == spec_remap_axes(*self),
            r.wf(),
    {
        Quat { x: -self.y, y: self.x, z: self.z, w: self.w }
    }
}

/// Conjugate at the specification level.
pub open spec fn spec_conjugate(q: Quat) -> Quat {
    Quat { x: (-q.x) as i64, y: (-q.y) as i64, z: (-q.z) as i64, w: q.w }
}

/// Hamilton product at the specification level. For well-formed inputs
/// every component fits in `i64`, so the casts do not truncate.
pub open spec fn spec_compose(a: Quat, b: Quat) -> Quat {
    Quat {
        x: (a.w * b.x + a.x * b.w + a.y * b.z - a.z * b.y) as i64,
        y: (a.w * b.y - a.x * b.z + a.y * b.w + a.z * b.x) as i64,
        z: (a.w * b.z + a.x * b.y - a.y * b.x + a.z * b.w) as i64,
        w: (a.w * b.w - a.x * b.x - a.y * b.y - a.z * b.z) as i64,
    }
}

/// Axis remap at the specification level.
pub open spec fn spec_remap_axes(q: Quat) -> Quat {
    Quat { x: (-q.y) as i64, y: q.x, z: q.z, w: q.w }
}

/// `|a| <= m` and `|b| <= m` bound the product by `m * m`.
proof fn lemma_abs_mul_bound(a: int, b: int, m: int)
    requires
        -m <= a <= m,
        -m <= b <= m,
        0 <= m,
    ensures
        -(m * m) <= a * b <= m * m,
{
    assert(-(m * m) <= a * b <= m * m) by (nonlinear_arith)
        requires
            -m <= a <= m,
            -m <= b <= m,
            0 <= m,
    ;
}

/// Composing a quaternion's conjugate with the quaternion itself yields
/// the identity rotation: the vector part cancels exactly and the scalar
/// part equals the (positive) squared norm. This is why a recenter makes
/// the exposed orientation the identity at the moment of the tare.
pub proof fn lemma_conjugate_compose_is_identity(q: Quat)
    requires
        q.wf(),
        q.norm2() > 0,
    ensures
        spec_compose(spec_conjugate(q), q).is_identity_rotation(),
{
    let c = spec_conjugate(q);
    assert(c.w * q.x + c.x * q.w + c.y * q.z - c.z * q.y == 0) by (nonlinear_arith)
        requires
            c == spec_conjugate(q),
            q.wf(),
    ;
    assert(c.w * q.y - c.x * q.z + c.y * q.w + c.z * q.x == 0) by (nonlinear_arith)
        requires
            c == spec_conjugate(q),
            q.wf(),
    ;
    assert(c.w * q.z + c.x * q.y - c.y * q.x + c.z * q.w == 0) by (nonlinear_arith)
        requires
            c == spec_conjugate(q),
            q.wf(),
    ;
    assert(c.w * q.w - c.x * q.x - c.y * q.y - c.z * q.z == q.norm2()) by (nonlinear_arith)
        requires
            c == spec_conjugate(q),
            q.wf(),
    ;
    lemma_abs_mul_bound(q.x as int, q.x as int, COMPONENT_BOUND as int);
    lemma_abs_mul_bound(q.y as int, q.y as int, COMPONENT_BOUND as int);
    lemma_abs_mul_bound(q.z as int, q.z as int, COMPONENT_BOUND as int);
    lemma_abs_mul_bound(q.w as int, q.w as int, COMPONENT_BOUND as int);
}

/// Applying the axis remap twice yields `(-x, -y, z, w)` — a half turn
/// about the z axis composed with the original, not the identity. The
/// remap is a quarter-turn-class transform, not an involution.
pub proof fn lemma_remap_axes_twice(q: Quat)
    requires
        q.wf(),
    ensures
        spec_remap_axes(spec_remap_axes(q)) == (Quat {
            x: (-q.x) as i64,
            y: (-q.y) as i64,
            z: q.z,
            w: q.w,
        }),
{
}

} // verus!

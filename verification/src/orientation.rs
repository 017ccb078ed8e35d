//! Head-orientation tracking state.
//!
//! A dedicated sensor worker owns the raw orientation; the render thread
//! reads the exposed orientation, which is always
//! `inverse(reference) * raw`. A recenter (tare) sets the reference to
//! the current raw value, so the exposed orientation is the identity at
//! that moment and tracks relative motion thereafter; the caller
//! persists the returned reference process-wide so a tracker restart
//! does not require a new tare. Reads never block and are well defined
//! before the first sensor sample (identity) and after the worker has
//! exited (last known value).

use vstd::prelude::*;
use crate::quat::COMPONENT_BOUND;
use crate::quat::Quat;
use crate::quat::lemma_conjugate_compose_is_identity;
use crate::quat::spec_compose;
use crate::quat::spec_conjugate;
use crate::quat::spec_remap_axes;

verus! {

/// The platform rotation sensors the tracker can drive, in order of
/// preference: an absolute rotation vector, a relative game-rotation
/// vector, and raw gyroscope integration as the last resort.
#[derive(Clone, Copy, PartialEq, Eq, Structural, Debug)]
pub enum SensorKind {
    RotationVector,
    GameRotationVector,
    Gyroscope,
}

/// Pick the best available sensor: the absolute rotation vector when
/// present, else the game rotation vector, else the gyroscope, else
/// nothing (the view then stays fixed at the identity).
pub fn choose_sensor(has_rotation: bool, has_game_rotation: bool, has_gyroscope: bool) -> (k:
    Option<SensorKind>)
    ensures
        k == (if has_rotation {
            Some(SensorKind::RotationVector)
        } else if has_game_rotation {
            Some(SensorKind::GameRotationVector)
        } else if has_gyroscope {
            Some(SensorKind::Gyroscope)
        } else {
            None::<SensorKind>
        }),
{
    if has_rotation {
        Some(SensorKind::RotationVector)
    } else if has_game_rotation {
        Some(SensorKind::GameRotationVector)
    } else if has_gyroscope {
        Some(SensorKind::Gyroscope)
    } else {
        None
    }
}

/// Shared orientation state: `raw` is written only by the sensor
/// worker, `reference` only by an explicit recenter.
pub struct OrientationState {
    /// Current raw orientation from the sensor (identity until the
    /// first sample arrives).
    pub raw: Quat,
    /// The tare baseline.
    pub reference: Quat,
    /// Cleared to ask the sensor worker to exit its poll loop.
    pub running: bool,
}

/// The state after a recenter: the current raw orientation becomes the
/// new baseline.
pub open spec fn spec_recenter(s: OrientationState) -> OrientationState {
    OrientationState { reference: s.raw, ..s }
}

impl OrientationState {
    /// Both quaternions within composition-safe bounds.
    pub open spec fn wf(self) -> bool {
        self.raw.wf() && self.reference.wf()
    }

    /// Tracker start: raw orientation is the identity until the first
    /// sample, and the reference is the persisted tare (the identity on
    /// the very first start of the process).
    pub fn new(saved_reference: Quat) -> (s: OrientationState)
        requires
            saved_reference.wf(),
        ensures
            s.raw.is_identity_rotation(),
            s.reference == saved_reference,
            s.running == true,
            s.wf(),
    {
        OrientationState { raw: Quat::identity(), reference: saved_reference, running: true }
    }

    /// Store one sample of an absolute rotation sensor: the payload
    /// quaternion with the empirical axis remap
    /// `(x, y, z, w) -> (-y, x, z, w)` applied.
    pub fn on_rotation_sample(&mut self, x: i64, y: i64, z: i64, w: i64)
        requires
            old(self).wf(),
            -COMPONENT_BOUND <= x <= COMPONENT_BOUND,
            -COMPONENT_BOUND <= y <= COMPONENT_BOUND,
            -COMPONENT_BOUND <= z <= COMPONENT_BOUND,
            -COMPONENT_BOUND <= w <= COMPONENT_BOUND,
        ensures
            final(self).raw == spec_remap_axes(Quat { x, y, z, w }),
            final(self).reference == old(self).reference,
            final(self).running == old(self).running,
            final(self).wf(),
    {
        let sample = Quat { x, y, z, w };
        self.raw = sample.remap_axes();
    }

    /// Store a raw orientation directly (the gyroscope-integration
    /// path, whose axis correction already happened in the integrator).
    pub fn set_raw(&mut self, q: Quat)
        requires
            old(self).wf(),
            q.wf(),
        ensures
            *final(self) == (OrientationState { raw: q, ..*old(self) }),
            final(self).wf(),
    {
        self.raw = q;
    }

    /// The exposed orientation: `inverse(reference) * raw`, using the
    /// conjugate as the inverse (a positive scalar factor does not
    /// change the rotation described). Non-blocking and total.
    pub fn get_orientation(&self) -> (r: Quat)
        requires
            self.wf(),
        ensures
            r == spec_compose(spec_conjugate(self.reference), self.raw),
    {
        self.reference.conjugate().compose(&self.raw)
    }

    /// Recenter (tare): the current raw orientation becomes the new
    /// reference, returned so the caller can persist it process-wide.
    pub fn recenter(&mut self) -> (saved: Quat)
        requires
            old(self).wf(),
        ensures
            *final(self) == spec_recenter(*old(self)),
            saved == final(self).reference,
            final(self).wf(),
    {
        self.reference = self.raw;
        self.raw
    }

    /// Ask the sensor worker to exit its poll loop.
    pub fn stop(&mut self)
        ensures
            *final(self) == (OrientationState { running: false, ..*old(self) }),
    {
        self.running = false;
    }
}

/// Orientation composition: immediately after a recenter the exposed
/// orientation `inverse(reference) * raw` is the identity rotation,
/// whatever the raw orientation was (any nonzero quaternion).
pub proof fn lemma_recenter_gives_identity(s: OrientationState)
    requires
        s.wf(),
        s.raw.norm2() > 0,
    ensures
        ({
            let t = spec_recenter(s);
            spec_compose(spec_conjugate(t.reference), t.raw).is_identity_rotation()
        }),
{
    lemma_conjugate_compose_is_identity(s.raw);
}

/// Maximum inter-sample gap the gyroscope integrator accepts; a longer
/// stall would inject one large spurious rotation, so it is skipped.
pub const MAX_GYRO_GAP_NS: i64 = 200000000;

/// Magnitude bound on accepted angular rates, in microradians per
/// second (about 35 rad/s, far beyond any head motion).
pub const MAX_GYRO_RATE: i64 = 35000000;

/// Saturation bound for the accumulated angles, in microradians.
pub const MAX_ANGLE_URAD: i64 = 0x1000000000000;

/// Fallback orientation source: integrates angular velocity into
/// accumulated pitch/yaw/roll angles (microradians). The host
/// reconstructs a quaternion from the three angles with a fixed
/// yaw-pitch-roll composition order.
pub struct GyroIntegrator {
    pub pitch_urad: i64,
    pub yaw_urad: i64,
    pub roll_urad: i64,
    /// Timestamp of the previous sample in nanoseconds, or 0 before the
    /// first sample.
    pub last_ts_ns: i64,
}

/// The angle increment contributed by a rate held for `dt_ns`
/// nanoseconds: `rate * dt / 1e9`, truncated toward zero as the
/// magnitudes are.
pub open spec fn spec_gyro_increment(rate_urad_s: i64, dt_ns: i64) -> int {
    if rate_urad_s >= 0 {
        (rate_urad_s * dt_ns) / 1000000000
    } else {
        -(((-rate_urad_s) * dt_ns) / 1000000000)
    }
}

/// An accumulated angle clamped to the saturation bound.
pub open spec fn spec_clamp_angle(a: int) -> int {
    if a > MAX_ANGLE_URAD {
        MAX_ANGLE_URAD as int
    } else if a < -MAX_ANGLE_URAD {
        -MAX_ANGLE_URAD as int
    } else {
        a
    }
}

/// Whether a sample at `ts_ns` is integrated: there must be a previous
/// sample, time must advance, and the gap must be short enough.
pub open spec fn spec_gyro_integrates(last_ts_ns: i64, ts_ns: i64) -> bool {
    last_ts_ns > 0 && ts_ns > last_ts_ns && ts_ns - last_ts_ns < MAX_GYRO_GAP_NS
}

impl GyroIntegrator {
    /// Accumulated angles within the saturation bound.
    pub open spec fn wf(self) -> bool {
        &&& -MAX_ANGLE_URAD <= self.pitch_urad <= MAX_ANGLE_URAD
        &&& -MAX_ANGLE_URAD <= self.yaw_urad <= MAX_ANGLE_URAD
        &&& -MAX_ANGLE_URAD <= self.roll_urad <= MAX_ANGLE_URAD
        &&& 0 <= self.last_ts_ns
    }

    /// A fresh integrator at the zero orientation.
    pub fn new() -> (g: GyroIntegrator)
        ensures
            g == (GyroIntegrator { pitch_urad: 0i64, yaw_urad: 0i64, roll_urad: 0i64, last_ts_ns: 0i64 }),
            g.wf(),
    {
        GyroIntegrator { pitch_urad: 0, yaw_urad: 0, roll_urad: 0, last_ts_ns: 0 }
    }

    /// Integrate one gyroscope sample. The axis correction matches the
    /// rotation-vector remap: pitch accumulates `-gy`, yaw accumulates
    /// `gx`, roll accumulates `gz`. A sample after a gap of
    /// [`MAX_GYRO_GAP_NS`] or more only re-arms the timestamp.
    pub fn step(&mut self, gx: i64, gy: i64, gz: i64, ts_ns: i64) -> (integrated: bool)
        requires
            old(self).wf(),
            -MAX_GYRO_RATE <= gx <= MAX_GYRO_RATE,
            -MAX_GYRO_RATE <= gy <= MAX_GYRO_RATE,
            -MAX_GYRO_RATE <= gz <= MAX_GYRO_RATE,
            0 <= ts_ns,
        ensures
            final(self).wf(),
            integrated == spec_gyro_integrates(old(self).last_ts_ns, ts_ns),
            final(self).last_ts_ns == ts_ns,
            integrated ==> {
                let dt = (ts_ns - old(self).last_ts_ns) as i64;
                &&& final(self).pitch_urad == spec_clamp_angle(
                    old(self).pitch_urad - spec_gyro_increment(gy, dt),
                )
                &&& final(self).yaw_urad == spec_clamp_angle(
                    old(self).yaw_urad + spec_gyro_increment(gx, dt),
                )
                &&& final(self).roll_urad == spec_clamp_angle(
                    old(self).roll_urad + spec_gyro_increment(gz, dt),
                )
            },
            !integrated ==> {
                &&& final(self).pitch_urad == old(self).pitch_urad
                &&& final(self).yaw_urad == old(self).yaw_urad
                &&& final(self).roll_urad == old(self).roll_urad
            },
    {
        let integrated = self.last_ts_ns > 0 && ts_ns > self.last_ts_ns && ts_ns - self.last_ts_ns
            < MAX_GYRO_GAP_NS;
        if integrated {
            let dt: i64 = ts_ns - self.last_ts_ns;
            self.pitch_urad = clamp_angle(self.pitch_urad - scaled_increment(gy, dt));
            self.yaw_urad = clamp_angle(self.yaw_urad + scaled_increment(gx, dt));
            self.roll_urad = clamp_angle(self.roll_urad + scaled_increment(gz, dt));
        }
        self.last_ts_ns = ts_ns;
        integrated
    }
}

/// `rate * dt / 1e9` with truncation toward zero, kept exact by
/// computing on magnitudes.
fn scaled_increment(rate_urad_s: i64, dt_ns: i64) -> (inc: i64)
    requires
        -MAX_GYRO_RATE <= rate_urad_s <= MAX_GYRO_RATE,
        0 < dt_ns < MAX_GYRO_GAP_NS,
    ensures
        inc == spec_gyro_increment(rate_urad_s, dt_ns),
        -MAX_GYRO_RATE <= inc <= MAX_GYRO_RATE,
{
    proof {
        assert(MAX_GYRO_RATE * dt_ns < 0x7fffffffffffffff) by (nonlinear_arith)
            requires
                0 < dt_ns < 200000000,
        ;
        assert(0 <= MAX_GYRO_RATE * dt_ns / 1000000000 <= MAX_GYRO_RATE) by (nonlinear_arith)
            requires
                0 < dt_ns < 200000000,
        ;
    }
    if rate_urad_s >= 0 {
        proof {
            vstd::arithmetic::mul::lemma_mul_inequality(
                rate_urad_s as int,
                MAX_GYRO_RATE as int,
                dt_ns as int,
            );
            vstd::arithmetic::div_mod::lemma_div_is_ordered(
                (rate_urad_s * dt_ns) as int,
                (MAX_GYRO_RATE * dt_ns) as int,
                1000000000,
            );
            assert(rate_urad_s * dt_ns >= 0) by (nonlinear_arith)
                requires
                    rate_urad_s >= 0,
                    dt_ns > 0,
            ;
        }
        (rate_urad_s * dt_ns) / 1000000000
    } else {
        let mag: i64 = -rate_urad_s;
        proof {
            vstd::arithmetic::mul::lemma_mul_inequality(
                mag as int,
                MAX_GYRO_RATE as int,
                dt_ns as int,
            );
            vstd::arithmetic::div_mod::lemma_div_is_ordered(
                (mag * dt_ns) as int,
                (MAX_GYRO_RATE * dt_ns) as int,
                1000000000,
            );
            assert(mag * dt_ns >= 0) by (nonlinear_arith)
                requires
                    mag >= 0,
                    dt_ns > 0,
            ;
        }
        -((mag * dt_ns) / 1000000000)
    }
}

/// Saturate an accumulated angle.
fn clamp_angle(a: i64) -> (r: i64)
    ensures
        r == spec_clamp_angle(a as int),
{
    if a > MAX_ANGLE_URAD {
        MAX_ANGLE_URAD
    } else if a < -MAX_ANGLE_URAD {
        -MAX_ANGLE_URAD
    } else {
        a
    }
}

} // verus!

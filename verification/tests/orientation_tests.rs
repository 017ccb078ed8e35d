use vr_core::orientation::GyroIntegrator;
use vr_core::orientation::OrientationState;
use vr_core::orientation::SensorKind;
use vr_core::orientation::choose_sensor;
use vr_core::quat::Quat;
use vr_core::quat::UNIT;

#[test]
fn orientation_composition_effective_is_conjugate_times_raw() {
    // reference = identity rotated: use a plain axis quaternion; the
    // exposed orientation must be conjugate(reference) * raw, exactly.
    let mut state = OrientationState::new(Quat { x: 0, y: 0, z: 0, w: UNIT });
    state.set_raw(Quat { x: 1000, y: 2000, z: 3000, w: 9000 });
    let q = state.get_orientation();
    // conjugate(identity) * raw = (identity scaled) * raw:
    // w-component UNIT times each raw component.
    assert_eq!(q.x, 1000 * UNIT);
    assert_eq!(q.y, 2000 * UNIT);
    assert_eq!(q.z, 3000 * UNIT);
    assert_eq!(q.w, 9000 * UNIT);
}

#[test]
fn recenter_makes_orientation_identity() {
    let mut state = OrientationState::new(Quat { x: 0, y: 0, z: 0, w: UNIT });
    state.set_raw(Quat { x: 1000, y: 2000, z: 3000, w: 9327 });
    let saved = state.recenter();
    assert_eq!(saved, Quat { x: 1000, y: 2000, z: 3000, w: 9327 });
    let q = state.get_orientation();
    // Identity rotation: vector part vanishes, scalar part positive
    // (the squared norm of the raw quaternion).
    assert_eq!(q.x, 0);
    assert_eq!(q.y, 0);
    assert_eq!(q.z, 0);
    assert!(q.w > 0);
    assert_eq!(q.w, 1000 * 1000 + 2000 * 2000 + 3000 * 3000 + 9327 * 9327);
}

#[test]
fn recenter_survives_restart_through_saved_reference() {
    let mut state = OrientationState::new(Quat { x: 0, y: 0, z: 0, w: UNIT });
    state.set_raw(Quat { x: 500, y: 0, z: 0, w: 9987 });
    let saved = state.recenter();
    // A new tracker starts from the persisted reference, raw pending at
    // the identity.
    let restarted = OrientationState::new(saved);
    assert_eq!(restarted.reference, Quat { x: 500, y: 0, z: 0, w: 9987 });
    assert!(restarted.raw.w > 0 && restarted.raw.x == 0);
}

#[test]
fn axis_remap_exact_output() {
    // The empirical remap (x, y, z, w) -> (-y, x, z, w) on the known
    // input 0.1, 0.2, 0.3, 0.9327 (fixed point).
    let q = Quat { x: 1000, y: 2000, z: 3000, w: 9327 };
    let r = q.remap_axes();
    assert_eq!(r, Quat { x: -2000, y: 1000, z: 3000, w: 9327 });
}

#[test]
fn axis_remap_twice_is_half_turn_not_identity() {
    let q = Quat { x: 1000, y: 2000, z: 3000, w: 9327 };
    let twice = q.remap_axes().remap_axes();
    // Twice the remap negates x and y: a half turn about z composed
    // with the original, not the identity.
    assert_eq!(twice, Quat { x: -1000, y: -2000, z: 3000, w: 9327 });
    assert_ne!(twice, q);
}

#[test]
fn rotation_sample_applies_remap() {
    let mut state = OrientationState::new(Quat { x: 0, y: 0, z: 0, w: UNIT });
    state.on_rotation_sample(1000, 2000, 3000, 9327);
    assert_eq!(state.raw, Quat { x: -2000, y: 1000, z: 3000, w: 9327 });
}

#[test]
fn sensor_preference_order() {
    assert_eq!(choose_sensor(true, true, true), Some(SensorKind::RotationVector));
    assert_eq!(choose_sensor(false, true, true), Some(SensorKind::GameRotationVector));
    assert_eq!(choose_sensor(false, false, true), Some(SensorKind::Gyroscope));
    assert_eq!(choose_sensor(false, false, false), None);
}

#[test]
fn gyro_integrates_and_matches_axis_convention() {
    let mut g = GyroIntegrator::new();
    // First sample only arms the timestamp.
    assert!(!g.step(1_000_000, 2_000_000, 3_000_000, 1_000_000_000));
    // 100 ms later: pitch -= gy*dt, yaw += gx*dt, roll += gz*dt.
    assert!(g.step(1_000_000, 2_000_000, 3_000_000, 1_100_000_000));
    assert_eq!(g.pitch_urad, -200_000);
    assert_eq!(g.yaw_urad, 100_000);
    assert_eq!(g.roll_urad, 300_000);
}

#[test]
fn gyro_skips_long_gaps() {
    let mut g = GyroIntegrator::new();
    assert!(!g.step(1_000_000, 0, 0, 1_000_000_000));
    // A 200 ms stall is not integrated (it would inject one large
    // spurious rotation), but it re-arms the clock.
    assert!(!g.step(1_000_000, 0, 0, 1_200_000_000));
    assert_eq!(g.yaw_urad, 0);
    assert_eq!(g.last_ts_ns, 1_200_000_000);
    // The next short interval integrates again.
    assert!(g.step(1_000_000, 0, 0, 1_250_000_000));
    assert_eq!(g.yaw_urad, 50_000);
}

#[test]
fn stop_clears_running_flag() {
    let mut state = OrientationState::new(Quat { x: 0, y: 0, z: 0, w: UNIT });
    assert!(state.running);
    state.stop();
    assert!(!state.running);
}

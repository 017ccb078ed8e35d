use vr_core::pacing::DEFAULT_INTERVAL_MS;
use vr_core::pacing::Pacing;
use vr_core::pacing::WARMUP_FRAMES;

#[test]
fn lock_converges_on_constant_spacing() {
    // Fifteen frames with constant 33333 us spacing: the measured
    // average locks to exactly 33 ms.
    let mut p = Pacing::new();
    let mut pts: i64 = 0;
    for i in 0..WARMUP_FRAMES {
        let sleep = p.observe_frame(pts, 0);
        // Warm-up sleeps the conservative default.
        assert_eq!(sleep, DEFAULT_INTERVAL_MS);
        assert_eq!(p.locked, i + 1 == WARMUP_FRAMES);
        pts += 33_333;
    }
    assert!(p.locked);
    assert_eq!(p.target_interval_ms, 33);
}

#[test]
fn lock_converges_on_sixty_fps_spacing() {
    // 16667 us spacing: each per-frame delta is measured in whole
    // milliseconds, so the lock lands on 16 ms.
    let mut p = Pacing::new();
    let mut pts: i64 = 5_000_000;
    for _ in 0..WARMUP_FRAMES {
        p.observe_frame(pts, 0);
        pts += 16_667;
    }
    assert!(p.locked);
    assert_eq!(p.target_interval_ms, 16);
}

#[test]
fn lock_falls_back_to_default_without_usable_deltas() {
    // All fifteen frames carry the same timestamp: no positive delta is
    // ever measured, and the lock keeps the default interval.
    let mut p = Pacing::new();
    for _ in 0..WARMUP_FRAMES {
        p.observe_frame(1_000, 0);
    }
    assert!(p.locked);
    assert_eq!(p.target_interval_ms, DEFAULT_INTERVAL_MS);
}

#[test]
fn locked_pacing_advances_a_fixed_deadline() {
    let mut p = Pacing::new();
    let mut pts: i64 = 0;
    for _ in 0..WARMUP_FRAMES {
        p.observe_frame(pts, 100);
        pts += 33_333;
    }
    assert!(p.locked);
    assert_eq!(p.deadline_ms, 100);
    // Ahead of the deadline: sleep until it.
    let sleep = p.observe_frame(pts, 110);
    assert_eq!(p.deadline_ms, 133);
    assert_eq!(sleep, 23);
    // Slightly behind: no sleep, deadline keeps its fixed advance, so
    // pacing does not drift.
    let sleep2 = p.observe_frame(pts, 170);
    assert_eq!(p.deadline_ms, 166);
    assert_eq!(sleep2, 0);
}

#[test]
fn deadline_resynchronizes_after_a_stall() {
    let mut p = Pacing::new();
    let mut pts: i64 = 0;
    for _ in 0..WARMUP_FRAMES {
        p.observe_frame(pts, 0);
        pts += 33_333;
    }
    assert!(p.locked);
    // A long stall: the advanced deadline (33) sits far behind the
    // clock (500), more than the 100 ms threshold, so the deadline
    // restarts from the present instead of triggering a decode storm.
    let sleep = p.observe_frame(pts, 500);
    assert_eq!(sleep, 0);
    assert_eq!(p.deadline_ms, 500);
}

//! Measure-and-lock frame pacing.
//!
//! The true inter-frame interval of a stream is not known up front. For
//! the first [`WARMUP_FRAMES`] decoded frames the loop sleeps a
//! conservative default and accumulates the deltas between consecutive
//! presentation timestamps; it then locks a fixed target interval from
//! the measured average and paces with a monotonically advancing
//! deadline, resynchronizing only when it has fallen far behind. This
//! avoids both the drift of fixed per-iteration sleeps and a decode
//! storm after a stall.

use vstd::prelude::*;

verus! {

/// Number of decoded frames used to estimate the frame interval.
pub const WARMUP_FRAMES: u64 = 15;

/// Conservative sleep while estimating (assume 30 frames per second).
pub const DEFAULT_INTERVAL_MS: u64 = 33;

/// A deadline more than this many milliseconds in the past is
/// resynchronized to the present instead of being chased.
pub const RESYNC_THRESHOLD_MS: u64 = 100;

/// Largest accepted presentation timestamp, in microseconds; bounds the
/// accumulated deltas so the running sums stay inside `i64`.
pub const PTS_BOUND: i64 = 0x1000000000000000;

/// Pacing state of one decode session.
pub struct Pacing {
    /// Frames seen so far during estimation; stops counting at
    /// [`WARMUP_FRAMES`].
    pub frames_observed: u64,
    /// Timestamp of the previous frame, or -1 before the first.
    pub previous_pts: i64,
    /// Sum of the positive inter-frame deltas seen, in milliseconds.
    pub accumulated_delta_ms: i64,
    /// How many positive deltas went into the sum.
    pub delta_samples: i64,
    /// The locked target interval (the default until locking).
    pub target_interval_ms: u64,
    /// True once the interval has been locked.
    pub locked: bool,
    /// The next presentation deadline, in milliseconds of the host
    /// clock; meaningful only once locked.
    pub deadline_ms: u64,
}

impl Pacing {
    /// Bounds that every reachable pacing state satisfies.
    pub open spec fn wf(self) -> bool {
        &&& self.frames_observed <= WARMUP_FRAMES
        &&& (self.locked <==> self.frames_observed == WARMUP_FRAMES)
        &&& -1 <= self.previous_pts <= PTS_BOUND
        &&& (self.frames_observed == 0 ==> self.previous_pts == -1)
        &&& 0 <= self.delta_samples
        &&& (self.frames_observed == 0 ==> self.delta_samples == 0)
        &&& (self.frames_observed > 0 ==> self.delta_samples <= self.frames_observed - 1)
        &&& 0 <= self.accumulated_delta_ms <= self.delta_samples * (PTS_BOUND / 1000)
        &&& 0 < self.target_interval_ms <= i64::MAX
    }

    /// Fresh pacing state: nothing measured, default interval assumed.
    pub fn new() -> (p: Pacing)
        ensures
            p == spec_pacing_init(),
            p.wf(),
    {
        Pacing {
            frames_observed: 0,
            previous_pts: -1,
            accumulated_delta_ms: 0,
            delta_samples: 0,
            target_interval_ms: DEFAULT_INTERVAL_MS,
            locked: false,
            deadline_ms: 0,
        }
    }

    /// Record one decoded frame and say how long the loop should sleep
    /// before the next iteration. During warm-up this accumulates the
    /// timestamp delta, sleeps the default interval, and locks the
    /// measured average on the last warm-up frame; afterwards it paces
    /// by the fixed-advance deadline.
    pub fn observe_frame(&mut self, pts: i64, now_ms: u64) -> (sleep_ms: u64)
        requires
            old(self).wf(),
            0 <= pts <= PTS_BOUND,
        ensures
            final(self).wf(),
            old(self).locked ==> (*final(self), sleep_ms) == spec_locked_step(
                *old(self),
                now_ms,
            ),
            !old(self).locked ==> *final(self) == spec_warmup_step(*old(self), pts, now_ms)
                && sleep_ms == DEFAULT_INTERVAL_MS,
            final(self).target_interval_ms == spec_observe_target(*old(self), pts),
    {
        if !self.locked {
            if self.previous_pts >= 0 && pts > self.previous_pts {
                let diff: u64 = (pts - self.previous_pts) as u64;
                let delta_ms: u64 = diff / 1000;
                if delta_ms > 0 {
                    proof {
                        vstd::arithmetic::div_mod::lemma_div_is_ordered(
                            diff as int,
                            PTS_BOUND as int,
                            1000,
                        );
                        vstd::arithmetic::mul::lemma_mul_is_distributive_add_other_way(
                            (PTS_BOUND / 1000) as int,
                            self.delta_samples as int,
                            1,
                        );
                    }
                    self.accumulated_delta_ms = self.accumulated_delta_ms + (delta_ms as i64);
                    self.delta_samples = self.delta_samples + 1;
                }
            }
            self.previous_pts = pts;
            self.frames_observed = self.frames_observed + 1;
            if self.frames_observed == WARMUP_FRAMES {
                if self.delta_samples > 0 {
                    proof {
                        assert(self.accumulated_delta_ms + self.delta_samples / 2
                            <= 14 * (PTS_BOUND / 1000) + 7) by (nonlinear_arith)
                            requires
                                0 <= self.accumulated_delta_ms <= self.delta_samples * (
                                PTS_BOUND / 1000),
                                0 < self.delta_samples <= 14,
                        ;
                    }
                    // Round the measured average to the nearest millisecond.
                    let avg: i64 = (self.accumulated_delta_ms + self.delta_samples / 2)
                        / self.delta_samples;
                    proof {
                        lemma_avg_bounds(
                            self.accumulated_delta_ms as int,
                            self.delta_samples as int,
                        );
                    }
                    if avg > 0 {
                        self.target_interval_ms = avg as u64;
                    }
                }
                self.locked = true;
                self.deadline_ms = now_ms;
            }
            DEFAULT_INTERVAL_MS
        } else {
            match self.deadline_ms.checked_add(self.target_interval_ms) {
                Some(next) => {
                    self.deadline_ms = next;
                    if next > now_ms {
                        next - now_ms
                    } else {
                        if now_ms - next > RESYNC_THRESHOLD_MS {
                            self.deadline_ms = now_ms;
                        }
                        0
                    }
                },
                None => {
                    // The host clock would have to run for eons to get
                    // here; start a fresh deadline from the present.
                    self.deadline_ms = now_ms;
                    0
                },
            }
        }
    }
}

/// The initial pacing state.
pub open spec fn spec_pacing_init() -> Pacing {
    Pacing {
        frames_observed: 0,
        previous_pts: -1i64,
        accumulated_delta_ms: 0,
        delta_samples: 0,
        target_interval_ms: DEFAULT_INTERVAL_MS,
        locked: false,
        deadline_ms: 0,
    }
}

/// The inter-frame delta in whole milliseconds that the warm-up phase
/// accumulates for one frame, or 0 when there is nothing to measure.
pub open spec fn spec_warmup_delta(prev: i64, pts: i64) -> int {
    if prev >= 0 && pts > prev {
        (pts - prev) / 1000
    } else {
        0
    }
}

/// One warm-up observation: accumulate the delta, remember the
/// timestamp, and on the last warm-up frame lock the rounded average
/// (keeping the default if nothing positive was measured) and start the
/// deadline clock at the present.
pub open spec fn spec_warmup_step(p: Pacing, pts: i64, now_ms: u64) -> Pacing {
    let d = spec_warmup_delta(p.previous_pts, pts);
    let acc = if d > 0 {
        p.accumulated_delta_ms + d
    } else {
        p.accumulated_delta_ms as int
    };
    let samples = if d > 0 {
        p.delta_samples + 1
    } else {
        p.delta_samples as int
    };
    let frames = p.frames_observed + 1;
    if frames == WARMUP_FRAMES {
        let avg = (acc + samples / 2) / samples;
        Pacing {
            frames_observed: frames as u64,
            previous_pts: pts,
            accumulated_delta_ms: acc as i64,
            delta_samples: samples as i64,
            target_interval_ms: if samples > 0 && avg > 0 {
                avg as u64
            } else {
                p.target_interval_ms
            },
            locked: true,
            deadline_ms: now_ms,
        }
    } else {
        Pacing {
            frames_observed: frames as u64,
            previous_pts: pts,
            accumulated_delta_ms: acc as i64,
            delta_samples: samples as i64,
            ..p
        }
    }
}

/// One locked step: advance the deadline by the target interval; sleep
/// up to the deadline when ahead; when more than the resync threshold
/// behind, restart the deadline from the present instead of letting a
/// backlog of overdue deadlines trigger a decode storm.
pub open spec fn spec_locked_step(p: Pacing, now_ms: u64) -> (Pacing, u64) {
    let next = p.deadline_ms + p.target_interval_ms;
    if next > u64::MAX {
        (Pacing { deadline_ms: now_ms, ..p }, 0u64)
    } else if next > now_ms {
        (Pacing { deadline_ms: next as u64, ..p }, (next - now_ms) as u64)
    } else if now_ms - next > RESYNC_THRESHOLD_MS {
        (Pacing { deadline_ms: now_ms, ..p }, 0u64)
    } else {
        (Pacing { deadline_ms: next as u64, ..p }, 0u64)
    }
}

/// The target interval after one observation, whatever the phase.
pub open spec fn spec_observe_target(p: Pacing, pts: i64) -> u64 {
    if p.locked {
        p.target_interval_ms
    } else {
        spec_warmup_step(p, pts, 0).target_interval_ms
    }
}

/// The rounded average of accumulated deltas stays within `i64`.
proof fn lemma_avg_bounds(acc: int, samples: int)
    requires
        0 < samples,
        0 <= acc,
    ensures
        0 <= (acc + samples / 2) / samples <= acc,
{
    vstd::arithmetic::div_mod::lemma_div_is_ordered(0, acc + samples / 2, samples);
    assert((acc + samples / 2) / samples <= acc) by (nonlinear_arith)
        requires
            0 < samples,
            0 <= acc,
    ;
}

/// The warm-up run over a synthetic stream whose timestamps start at
/// `first_pts` and advance by a constant `spacing`, observed for `n`
/// frames.
pub open spec fn spec_warmup_run(p: Pacing, first_pts: i64, spacing: i64, n: nat) -> Pacing
    decreases n,
{
    if n == 0 {
        p
    } else {
        spec_warmup_step(
            spec_warmup_run(p, first_pts, spacing, (n - 1) as nat),
            (first_pts + (n - 1) * spacing) as i64,
            0,
        )
    }
}

/// Helper induction: after `k` warm-up frames of a constant-spaced
/// stream (with `k` short of locking), the accumulator holds exactly
/// `k - 1` copies of the per-frame delta.
proof fn lemma_constant_spacing_partial(p0: Pacing, first_pts: i64, spacing: i64, k: nat)
    requires
        p0 == spec_pacing_init(),
        0 <= first_pts,
        1000 <= spacing,
        first_pts + 15 * spacing <= PTS_BOUND,
        1 <= k < WARMUP_FRAMES,
    ensures
        ({
            let q = spec_warmup_run(p0, first_pts, spacing, k);
            &&& q.frames_observed == k
            &&& q.previous_pts == first_pts + (k - 1) * spacing
            &&& q.delta_samples == k - 1
            &&& q.accumulated_delta_ms == (k - 1) * (spacing / 1000)
            &&& !q.locked
            &&& q.target_interval_ms == DEFAULT_INTERVAL_MS
        }),
    decreases k,
{
    let m = spacing / 1000;
    vstd::arithmetic::div_mod::lemma_div_non_zero(spacing as int, 1000);
    vstd::arithmetic::div_mod::lemma_div_is_ordered(spacing as int, PTS_BOUND as int, 1000);
    let pts_k = first_pts + (k - 1) * spacing;
    assert(0 * spacing == 0) by (nonlinear_arith);
    assert(first_pts <= pts_k <= PTS_BOUND) by (nonlinear_arith)
        requires
            0 <= first_pts,
            1000 <= spacing,
            first_pts + 15 * spacing <= PTS_BOUND,
            1 <= k < 15,
            pts_k == first_pts + (k - 1) * spacing,
    ;
    if k == 1 {
        reveal_with_fuel(spec_warmup_run, 2);
        assert(spec_warmup_run(p0, first_pts, spacing, 1) == spec_warmup_step(p0, first_pts, 0));
    } else {
        lemma_constant_spacing_partial(p0, first_pts, spacing, (k - 1) as nat);
        let q1 = spec_warmup_run(p0, first_pts, spacing, (k - 1) as nat);
        assert(pts_k - q1.previous_pts == spacing) by (nonlinear_arith)
            requires
                q1.previous_pts == first_pts + (k - 2) * spacing,
                pts_k == first_pts + (k - 1) * spacing,
        ;
        assert((k - 2) * m + m == (k - 1) * m) by (nonlinear_arith);
        assert(0 <= (k - 2) * m && (k - 1) * m <= 14 * m) by (nonlinear_arith)
            requires
                2 <= k < 15,
                1 <= m,
        ;
        assert(14 * m <= 14 * (PTS_BOUND / 1000)) by (nonlinear_arith)
            requires
                1 <= m <= PTS_BOUND / 1000,
        ;
    }
}

/// Pacing-lock convergence: on a synthetic stream of presentation
/// timestamps with constant spacing of at least one millisecond, the
/// warm-up locks after exactly [`WARMUP_FRAMES`] frames, and the locked
/// target interval is the spacing in whole milliseconds — for a spacing
/// of 33333 microseconds, exactly 33 ms.
pub proof fn lemma_pacing_lock_convergence(first_pts: i64, spacing: i64)
    requires
        0 <= first_pts,
        1000 <= spacing,
        first_pts + 15 * spacing <= PTS_BOUND,
    ensures
        ({
            let q = spec_warmup_run(spec_pacing_init(), first_pts, spacing, WARMUP_FRAMES as nat);
            &&& q.locked
            &&& q.target_interval_ms == spacing / 1000
        }),
{
    let p0 = spec_pacing_init();
    let m = spacing / 1000;
    vstd::arithmetic::div_mod::lemma_div_non_zero(spacing as int, 1000);
    vstd::arithmetic::div_mod::lemma_div_is_ordered(spacing as int, PTS_BOUND as int, 1000);
    lemma_constant_spacing_partial(p0, first_pts, spacing, 14);
    let q14 = spec_warmup_run(p0, first_pts, spacing, 14);
    let pts15 = first_pts + 14 * spacing;
    assert(spec_warmup_run(p0, first_pts, spacing, 15) == spec_warmup_step(
        q14,
        pts15 as i64,
        0,
    ));
    assert(first_pts <= pts15 <= PTS_BOUND) by (nonlinear_arith)
        requires
            0 <= first_pts,
            1000 <= spacing,
            first_pts + 15 * spacing <= PTS_BOUND,
            pts15 == first_pts + 14 * spacing,
    ;
    assert(pts15 - q14.previous_pts == spacing) by (nonlinear_arith)
        requires
            q14.previous_pts == first_pts + 13 * spacing,
            pts15 == first_pts + 14 * spacing,
    ;
    assert(13 * m + m == 14 * m) by (nonlinear_arith);
    assert(0 <= 13 * m && 14 * m <= 14 * (PTS_BOUND / 1000)) by (nonlinear_arith)
        requires
            1 <= m <= PTS_BOUND / 1000,
    ;
    // The rounded average of fourteen equal deltas is the delta itself.
    assert((14 * m + 14int / 2) / 14 == m) by (nonlinear_arith)
        requires
            1 <= m,
    ;
}

} // verus!

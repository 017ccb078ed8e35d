//! Playback transport state shared between the decode worker and the
//! control surface.
//!
//! The control surface writes `is_playing` and `seek_request`; the decode
//! worker writes `position_us` and consumes `seek_request` with
//! take-and-clear semantics, so a request set is honoured exactly once,
//! and two requests issued before the worker runs collapse to the last.

use vstd::prelude::*;

verus! {

/// Transport state of one playback session.
pub struct PlaybackState {
    /// False while paused; the decode loop produces no frames then.
    pub is_playing: bool,
    /// Presentation timestamp of the most recent decoded frame, in
    /// microseconds; updated eagerly by `seek` for instant UI feedback.
    pub position_us: i64,
    /// Duration of the selected track in microseconds (0 when unknown).
    pub duration_us: i64,
    /// A pending seek target in microseconds, consumed exactly once by
    /// the decode worker.
    pub seek_request: Option<i64>,
}

/// The state after a seek request: the target is recorded and the
/// externally visible position moves there at once, so the UI reflects
/// the seek even while the worker is paused.
pub open spec fn spec_seek(s: PlaybackState, target_us: i64) -> PlaybackState {
    PlaybackState { seek_request: Some(target_us), position_us: target_us, ..s }
}

/// The state and the consumed request after the worker's take-and-clear.
pub open spec fn spec_take_seek(s: PlaybackState) -> (Option<i64>, PlaybackState) {
    (s.seek_request, PlaybackState { seek_request: None, ..s })
}

impl PlaybackState {
    /// A fresh, stopped transport.
    pub fn new() -> (s: PlaybackState)
        ensures
            s.is_playing == false,
            s.position_us == 0,
            s.duration_us == 0,
            s.seek_request is None,
    {
        PlaybackState { is_playing: false, position_us: 0, duration_us: 0, seek_request: None }
    }

    /// Pause: freezes frame production and position.
    pub fn pause(&mut self)
        ensures
            *final(self) == (PlaybackState { is_playing: false, ..*old(self) }),
    {
        self.is_playing = false;
    }

    /// Resume playback.
    pub fn resume(&mut self)
        ensures
            *final(self) == (PlaybackState { is_playing: true, ..*old(self) }),
    {
        self.is_playing = true;
    }

    /// Request a seek. The target overwrites any request not yet
    /// consumed (last write wins) and the visible position moves to the
    /// target immediately.
    pub fn seek(&mut self, target_us: i64)
        ensures
            *final(self) == spec_seek(*old(self), target_us),
    {
        self.seek_request = Some(target_us);
        self.position_us = target_us;
    }

    /// Consume the pending seek request, if any: returns it and clears
    /// the slot, so the same request is never honoured twice.
    pub fn take_seek(&mut self) -> (taken: Option<i64>)
        ensures
            (taken, *final(self)) == spec_take_seek(*old(self)),
    {
        let taken = self.seek_request;
        self.seek_request = None;
        taken
    }

    /// Current position in microseconds; never blocks.
    pub fn get_position(&self) -> (p: i64)
        ensures
            p == self.position_us,
    {
        self.position_us
    }

    /// Track duration in microseconds; 0 when unknown.
    pub fn get_duration(&self) -> (d: i64)
        ensures
            d == self.duration_us,
    {
        self.duration_us
    }

    /// Whether the transport is paused.
    pub fn is_paused(&self) -> (p: bool)
        ensures
            p == !self.is_playing,
    {
        !self.is_playing
    }
}

/// A seek is consumed exactly once: after `seek(t)` the next
/// take-and-clear yields `t` and a second one yields nothing; two seeks
/// issued before the worker runs collapse to the second target; and a
/// position read right after `seek(t)` — before the worker runs —
/// already returns `t`.
pub proof fn lemma_seek_exactly_once(s: PlaybackState, t1: i64, t2: i64)
    ensures
        spec_seek(s, t1).position_us == t1,
        spec_take_seek(spec_seek(s, t1)).0 == Some(t1),
        spec_take_seek(spec_take_seek(spec_seek(s, t1)).1).0 is None,
        spec_take_seek(spec_seek(spec_seek(s, t1), t2)).0 == Some(t2),
{
}

} // verus!

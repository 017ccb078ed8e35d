//! The decode session: track selection, the decode loop's decisions and
//! the synthetic fallback source.
//!
//! The session's state machine runs on a dedicated worker. Each loop
//! iteration asks [`DecodeSession::begin_iteration`] what to do: sleep
//! while paused (no input consumed, position frozen), perform a pending
//! seek (consumed exactly once, decoder flushed, pacing reset), or feed
//! and drain the codec. The host performs the platform calls — extractor
//! reads, codec queues — and hands their results back through
//! [`input_action`] and [`DecodeSession::on_output`]. Playback loops at
//! end of stream rather than stopping; when no hardware decoder can be
//! created the host drives the same session from the synthetic
//! test-pattern source, so pause, seek and position behave identically.

use vstd::prelude::*;
use vstd::utf8::encode_utf8;
use crate::frame::FrameBuffer;
use crate::frame::MAX_FRAME_DIM;
use crate::frame::spec_take_frame;
use crate::frame::uv_plane_len;
use crate::frame::y_plane_len;
use crate::pacing::PTS_BOUND;
use crate::pacing::Pacing;
use crate::pacing::spec_locked_step;
use crate::pacing::spec_pacing_init;
use crate::pacing::spec_warmup_step;
use crate::playback::PlaybackState;
use crate::playback::spec_seek;
use crate::playback::spec_take_seek;

verus! {

/// How long a paused loop sleeps before re-checking, in milliseconds.
pub const PAUSE_POLL_MS: u64 = 10;

/// What the decode loop should do next, decided at the top of each
/// iteration.
#[derive(Clone, Copy, PartialEq, Eq, Structural, Debug)]
pub enum IterationStep {
    /// Paused: sleep briefly and re-check, consuming nothing.
    SleepPaused { ms: u64 },
    /// A seek was pending: seek the extractor to the keyframe at or
    /// before the target, flush the decoder, then continue.
    PerformSeek { target_us: i64 },
    /// Feed one access unit and drain one output buffer.
    FeedAndDrain,
}

/// What to do with the extractor after trying to read one sample.
#[derive(Clone, Copy, PartialEq, Eq, Structural, Debug)]
pub enum InputAction {
    /// A sample was read: queue it to the codec and advance.
    QueueAndAdvance,
    /// End of stream: rewind the extractor to the start so playback
    /// loops instead of stopping.
    RestartAtStart,
}

/// True when the byte form of a track's media type starts with
/// `video/`.
pub open spec fn spec_is_video_mime(b: Seq<u8>) -> bool {
    &&& b.len() >= 6
    &&& b[0] == 118u8  // 'v'
    &&& b[1] == 105u8  // 'i'
    &&& b[2] == 100u8  // 'd'
    &&& b[3] == 101u8  // 'e'
    &&& b[4] == 111u8  // 'o'
    &&& b[5] == 47u8  // '/'
}

/// Whether one track's media type names a video track.
pub fn is_video_mime(mime: &String) -> (r: bool)
    ensures
        r == spec_is_video_mime(encode_utf8(mime@)),
{
    let b: &[u8] = mime.as_str().as_bytes();
    b.len() >= 6 && b[0] == 118 && b[1] == 105 && b[2] == 100 && b[3] == 101 && b[4] == 111
        && b[5] == 47
}

/// Select the first track whose media type is video, as the extractor
/// enumerates them; none when the container has no video track.
pub fn select_video_track(mimes: &Vec<String>) -> (r: Option<usize>)
    ensures
        match r {
            Some(i) => {
                &&& i < mimes@.len()
                &&& spec_is_video_mime(encode_utf8(mimes@[i as int]@))
                &&& forall|j: int|
                    0 <= j < i ==> !spec_is_video_mime(encode_utf8(#[trigger] mimes@[j]@))
            },
            None => forall|j: int|
                0 <= j < mimes@.len() ==> !spec_is_video_mime(encode_utf8(#[trigger] mimes@[j]@)),
        },
{
    let mut i: usize = 0;
    while i < mimes.len()
        invariant
            i <= mimes@.len(),
            forall|j: int| 0 <= j < i ==> !spec_is_video_mime(encode_utf8(#[trigger] mimes@[j]@)),
        decreases mimes@.len() - i,
    {
        if is_video_mime(&mimes[i]) {
            return Some(i);
        }
        i = i + 1;
    }
    None
}

/// The decision whether a sample read feeds the codec or rewinds the
/// stream: a non-negative sample size was a real access unit; a
/// negative one means end of stream, and playback loops.
pub fn input_action(sample_size: i64) -> (a: InputAction)
    ensures
        a == (if sample_size >= 0 {
            InputAction::QueueAndAdvance
        } else {
            InputAction::RestartAtStart
        }),
{
    if sample_size >= 0 {
        InputAction::QueueAndAdvance
    } else {
        InputAction::RestartAtStart
    }
}

/// One playback session: transport state, the shared frame buffer, the
/// pacing clock and the selected track's geometry. A session is torn
/// down whole; a new source gets a fresh session.
pub struct DecodeSession {
    pub playback: PlaybackState,
    pub frame: FrameBuffer,
    pub pacing: Pacing,
    pub video_width: u32,
    pub video_height: u32,
    /// True from start until the owner signals the worker to exit.
    pub running: bool,
}

/// The decode loop's decision at the top of one iteration, and the
/// session state it leaves behind: paused loops change nothing; a
/// pending seek is consumed exactly once and resets the pacing clock;
/// otherwise the iteration proceeds to feed and drain.
pub open spec fn spec_begin_iteration(s: DecodeSession) -> (DecodeSession, IterationStep) {
    if !s.playback.is_playing {
        (s, IterationStep::SleepPaused { ms: PAUSE_POLL_MS })
    } else {
        let (taken, pb) = spec_take_seek(s.playback);
        match taken {
            Some(t) => (
                DecodeSession { playback: pb, pacing: spec_pacing_init(), ..s },
                IterationStep::PerformSeek { target_us: t },
            ),
            None => (DecodeSession { playback: pb, ..s }, IterationStep::FeedAndDrain),
        }
    }
}

/// Iterating while paused: the session is untouched, however many
/// iterations run.
pub open spec fn spec_paused_run(s: DecodeSession, n: nat) -> DecodeSession
    decreases n,
{
    if n == 0 {
        s
    } else {
        spec_paused_run(spec_begin_iteration(s).0, (n - 1) as nat)
    }
}

impl DecodeSession {
    /// Dimension and pacing bounds every reachable session satisfies.
    pub open spec fn wf(self) -> bool {
        &&& self.pacing.wf()
        &&& self.video_width <= MAX_FRAME_DIM
        &&& self.video_height <= MAX_FRAME_DIM
    }

    /// The session knows its track's geometry.
    pub open spec fn configured(self) -> bool {
        self.video_width > 0 && self.video_height > 0
    }

    /// A fresh, idle session.
    pub fn new() -> (s: DecodeSession)
        ensures
            s.wf(),
            !s.configured(),
            s.running == false,
            s.playback.is_playing == false,
            s.playback.position_us == 0,
            s.playback.duration_us == 0,
            s.playback.seek_request is None,
            s.frame.has_new_frame == false,
            s.pacing == spec_pacing_init(),
    {
        DecodeSession {
            playback: PlaybackState::new(),
            frame: FrameBuffer::new(),
            pacing: Pacing::new(),
            video_width: 0,
            video_height: 0,
            running: false,
        }
    }

    /// Mark the session started: the worker is running and playback is
    /// live, as a freshly opened source is.
    pub fn start(&mut self)
        ensures
            *final(self) == (DecodeSession {
                running: true,
                playback: PlaybackState { is_playing: true, ..old(self).playback },
                ..*old(self)
            }),
    {
        self.running = true;
        self.playback.is_playing = true;
    }

    /// Record the selected video track's geometry and duration.
    pub fn configure(&mut self, width: u32, height: u32, duration_us: i64)
        requires
            old(self).wf(),
            0 < width <= MAX_FRAME_DIM,
            0 < height <= MAX_FRAME_DIM,
        ensures
            *final(self) == (DecodeSession {
                video_width: width,
                video_height: height,
                playback: PlaybackState { duration_us, ..old(self).playback },
                ..*old(self)
            }),
            final(self).wf(),
            final(self).configured(),
    {
        self.video_width = width;
        self.video_height = height;
        self.playback.duration_us = duration_us;
    }

    /// The decision at the top of one decode-loop iteration; see
    /// [`spec_begin_iteration`]. While paused nothing is consumed and
    /// the position is frozen; a pending seek is taken exactly once.
    pub fn begin_iteration(&mut self) -> (step: IterationStep)
        requires
            old(self).wf(),
        ensures
            (*final(self), step) == spec_begin_iteration(*old(self)),
            final(self).wf(),
    {
        if !self.playback.is_playing {
            IterationStep::SleepPaused { ms: PAUSE_POLL_MS }
        } else {
            match self.playback.take_seek() {
                Some(t) => {
                    self.pacing = Pacing::new();
                    IterationStep::PerformSeek { target_us: t }
                },
                None => IterationStep::FeedAndDrain,
            }
        }
    }

    /// Absorb one decoded output buffer: the presentation timestamp
    /// becomes the current position, the planes are copied into the
    /// shared buffer when the buffer is large enough (a short buffer is
    /// skipped, not read out of bounds, and leaves the dirty flag
    /// alone), and the pacing clock says how long to sleep.
    pub fn on_output(&mut self, pts: i64, src: &[u8], now_ms: u64) -> (sleep_ms: u64)
        requires
            old(self).wf(),
            old(self).configured(),
            0 <= pts <= PTS_BOUND,
        ensures
            final(self).wf(),
            final(self).playback == (PlaybackState { position_us: pts, ..old(self).playback }),
            final(self).video_width == old(self).video_width,
            final(self).video_height == old(self).video_height,
            final(self).running == old(self).running,
            src@.len() >= y_plane_len(old(self).video_width, old(self).video_height)
                + uv_plane_len(old(self).video_width, old(self).video_height) ==> {
                &&& final(self).frame.has_new_frame == true
                &&& final(self).frame.timestamp_us == pts
                &&& final(self).frame.y_data@ == src@.subrange(
                    0,
                    y_plane_len(old(self).video_width, old(self).video_height),
                )
                &&& final(self).frame.width == old(self).video_width
                &&& final(self).frame.height == old(self).video_height
            },
            src@.len() < y_plane_len(old(self).video_width, old(self).video_height)
                + uv_plane_len(old(self).video_width, old(self).video_height)
                ==> final(self).frame.has_new_frame == old(self).frame.has_new_frame,
            old(self).pacing.locked ==> (final(self).pacing, sleep_ms) == spec_locked_step(
                old(self).pacing,
                now_ms,
            ),
            !old(self).pacing.locked ==> final(self).pacing == spec_warmup_step(
                old(self).pacing,
                pts,
                now_ms,
            ) && sleep_ms == crate::pacing::DEFAULT_INTERVAL_MS,
    {
        self.playback.position_us = pts;
        self.frame.publish_from(src, self.video_width, self.video_height, pts);
        self.pacing.observe_frame(pts, now_ms)
    }

    /// Consume the most recent decoded frame, at most once per
    /// publication; nothing if no new frame landed since the last call.
    pub fn get_frame(&mut self) -> (taken: Option<(Vec<u8>, Vec<u8>, u32, u32)>)
        ensures
            match taken {
                Some((y, uv, w, h)) => Some((y@, uv@, w, h)) == spec_take_frame(
                    old(self).frame,
                ).0,
                None => spec_take_frame(old(self).frame).0 is None,
            },
            *final(self) == (DecodeSession { frame: spec_take_frame(old(self).frame).1, ..*old(self) }),
    {
        self.frame.take_frame()
    }

    /// Pause playback; the decode loop then sleeps without consuming
    /// queues and the position freezes.
    pub fn pause(&mut self)
        ensures
            *final(self) == (DecodeSession {
                playback: PlaybackState { is_playing: false, ..old(self).playback },
                ..*old(self)
            }),
    {
        self.playback.pause();
    }

    /// Resume playback.
    pub fn resume(&mut self)
        ensures
            *final(self) == (DecodeSession {
                playback: PlaybackState { is_playing: true, ..old(self).playback },
                ..*old(self)
            }),
    {
        self.playback.resume();
    }

    /// Request a seek; the position is updated at once for instant UI
    /// feedback, and the decode worker honours the request exactly once
    /// on its next live iteration.
    pub fn seek(&mut self, target_us: i64)
        ensures
            *final(self) == (DecodeSession {
                playback: spec_seek(old(self).playback, target_us),
                ..*old(self)
            }),
    {
        self.playback.seek(target_us);
    }

    /// Current position in microseconds.
    pub fn get_position(&self) -> (p: i64)
        ensures
            p == self.playback.position_us,
    {
        self.playback.get_position()
    }

    /// Track duration in microseconds; 0 when unknown.
    pub fn get_duration(&self) -> (d: i64)
        ensures
            d == self.playback.duration_us,
    {
        self.playback.get_duration()
    }

    /// Whether the transport is paused.
    pub fn is_paused(&self) -> (p: bool)
        ensures
            p == !self.playback.is_playing,
    {
        self.playback.is_paused()
    }

    /// Whether the worker has been asked to keep running.
    pub fn is_running(&self) -> (r: bool)
        ensures
            r == self.running,
    {
        self.running
    }

    /// Signal the worker to exit and drop the buffered frame; the owner
    /// joins the worker before releasing the platform handles.
    pub fn stop(&mut self)
        ensures
            final(self).running == false,
            final(self).frame.y_data@ == Seq::<u8>::empty(),
            final(self).frame.uv_data@ == Seq::<u8>::empty(),
            final(self).frame.has_new_frame == false,
            final(self).frame.width == old(self).frame.width,
            final(self).frame.height == old(self).frame.height,
            final(self).frame.timestamp_us == old(self).frame.timestamp_us,
            final(self).playback == old(self).playback,
            final(self).pacing == old(self).pacing,
            final(self).video_width == old(self).video_width,
            final(self).video_height == old(self).video_height,
    {
        self.running = false;
        self.frame.clear();
    }
}

/// Pause freezes position: while `is_playing` is false, any number of
/// decode-loop iterations leave the whole session — the position in
/// particular — exactly as it was.
pub proof fn lemma_pause_freezes_position(s: DecodeSession, n: nat)
    requires
        !s.playback.is_playing,
    ensures
        spec_paused_run(s, n) == s,
        spec_paused_run(s, n).playback.position_us == s.playback.position_us,
    decreases n,
{
    if n > 0 {
        lemma_pause_freezes_position(spec_begin_iteration(s).0, (n - 1) as nat);
    }
}

/// Duration of the synthetic test-pattern source, in microseconds.
pub const TEST_PATTERN_DURATION_US: i64 = 60000000;

/// Width of the synthetic test pattern.
pub const TEST_PATTERN_WIDTH: u32 = 1280;

/// Height of the synthetic test pattern.
pub const TEST_PATTERN_HEIGHT: u32 = 720;

/// The luma byte of the scrolling synthetic pattern at linear pixel
/// index `idx`: column plus row plus a per-frame offset, wrapped to a
/// byte.
pub open spec fn spec_pattern_byte(idx: int, width: int, frame_index: int) -> u8 {
    (((idx % width) + (idx / width) + (frame_index * 4) % 256) % 256) as u8
}

/// Build one frame of the synthetic test pattern: a diagonal gradient
/// scrolling with the frame index over a grey (neutral chroma) field.
pub fn test_pattern_frame(width: u32, height: u32, frame_index: u64) -> (planes: (Vec<u8>, Vec<u8>))
    requires
        0 < width <= MAX_FRAME_DIM,
        0 < height <= MAX_FRAME_DIM,
    ensures
        planes.0@.len() == y_plane_len(width, height),
        planes.1@.len() == uv_plane_len(width, height),
        forall|k: int|
            0 <= k < y_plane_len(width, height) ==> planes.0@[k] == spec_pattern_byte(
                k,
                width as int,
                frame_index as int,
            ),
        forall|k: int| 0 <= k < uv_plane_len(width, height) ==> planes.1@[k] == 128u8,
{
    proof {
        assert(width * height <= 16384int * 16384int) by (nonlinear_arith)
            requires
                0 < width <= 16384,
                0 < height <= 16384,
        ;
    }
    let y_size: usize = (width as usize) * (height as usize);
    let uv_size: usize = y_size / 2;
    proof {
        vstd::arithmetic::div_mod::lemma_mul_mod_noop_left(frame_index as int, 4, 256);
    }
    let time_offset: u64 = ((frame_index % 256) * 4) % 256;
    let mut y_data: Vec<u8> = Vec::new();
    let mut k: usize = 0;
    while k < y_size
        invariant
            k <= y_size,
            y_size == y_plane_len(width, height),
            y_size <= 268435456,
            0 < width,
            time_offset == (frame_index * 4) % 256,
            time_offset < 256,
            y_data@.len() == k,
            forall|j: int|
                0 <= j < k ==> y_data@[j] == spec_pattern_byte(
                    j,
                    width as int,
                    frame_index as int,
                ),
        decreases y_size - k,
    {
        let col: usize = k % (width as usize);
        let row: usize = k / (width as usize);
        let b: u8 = (((col % 256) as u64 + time_offset + (row % 256) as u64) % 256) as u8;
        proof {
            assert(((k as int % (width as int)) + (k as int / (width as int)) + (frame_index as int
                * 4) % 256) % 256 == ((k as int % (width as int)) % 256 + (k as int / (
            width as int)) % 256 + (frame_index as int * 4) % 256) % 256) by (nonlinear_arith);
        }
        y_data.push(b);
        k = k + 1;
    }
    let uv_data: Vec<u8> = vec![128u8; uv_size];
    (y_data, uv_data)
}

/// The synthetic source's position: elapsed time wrapped to the
/// advertised duration, so it loops like real playback does.
pub fn test_pattern_position(elapsed_us: i64, duration_us: i64) -> (p: i64)
    requires
        0 <= elapsed_us,
        0 < duration_us,
    ensures
        p == elapsed_us % duration_us,
        0 <= p < duration_us,
{
    elapsed_us % duration_us
}

} // verus!

//! Shared frame buffer between the decode worker and the renderer.
//!
//! The worker publishes planar YUV 4:2:0 frames (full-resolution luma
//! plane, half-resolution interleaved chroma plane) and marks the buffer
//! dirty; the renderer consumes with clear-on-read, so each produced
//! frame is delivered at most once and frames are skipped, never torn.

use vstd::prelude::*;

verus! {

/// Largest accepted frame edge, so plane sizes fit a 32-bit `usize`.
pub const MAX_FRAME_DIM: u32 = 16384;

/// Decoded frame storage plus the dirty flag.
pub struct FrameBuffer {
    /// Luma plane, `width * height` bytes.
    pub y_data: Vec<u8>,
    /// Interleaved chroma plane, `width * height / 2` bytes.
    pub uv_data: Vec<u8>,
    pub width: u32,
    pub height: u32,
    /// Presentation timestamp of the stored frame, in microseconds.
    pub timestamp_us: i64,
    /// True while the stored frame has not been consumed yet.
    pub has_new_frame: bool,
}

/// Luma plane size in bytes for a frame of the given dimensions.
pub open spec fn y_plane_len(width: u32, height: u32) -> int {
    width * height
}

/// Chroma plane size in bytes: quarter resolution, two bytes per sample.
pub open spec fn uv_plane_len(width: u32, height: u32) -> int {
    (width * height) / 2
}

/// The consumed value and the buffer after a clear-on-read: data comes
/// out exactly when a new, non-empty frame is stored, and the dirty flag
/// is false afterwards either way.
pub open spec fn spec_take_frame(f: FrameBuffer) -> (
    Option<(Seq<u8>, Seq<u8>, u32, u32)>,
    FrameBuffer,
) {
    if f.has_new_frame && f.y_data@.len() > 0 {
        (
            Some((f.y_data@, f.uv_data@, f.width, f.height)),
            FrameBuffer { has_new_frame: false, ..f },
        )
    } else {
        (None::<(Seq<u8>, Seq<u8>, u32, u32)>, FrameBuffer { has_new_frame: false, ..f })
    }
}

impl FrameBuffer {
    /// An empty buffer with nothing to deliver.
    pub fn new() -> (f: FrameBuffer)
        ensures
            f.y_data@ == Seq::<u8>::empty(),
            f.uv_data@ == Seq::<u8>::empty(),
            f.width == 0,
            f.height == 0,
            f.timestamp_us == 0,
            f.has_new_frame == false,
    {
        FrameBuffer {
            y_data: Vec::new(),
            uv_data: Vec::new(),
            width: 0,
            height: 0,
            timestamp_us: 0,
            has_new_frame: false,
        }
    }

    /// Consume the most recent frame, at most once per publication:
    /// returns copies of the planes and clears the dirty flag; a second
    /// call without an intervening publication returns nothing.
    pub fn take_frame(&mut self) -> (taken: Option<(Vec<u8>, Vec<u8>, u32, u32)>)
        ensures
            match taken {
                Some((y, uv, w, h)) => Some((y@, uv@, w, h)) == spec_take_frame(*old(self)).0,
                None => spec_take_frame(*old(self)).0 is None,
            },
            *final(self) == spec_take_frame(*old(self)).1,
    {
        if self.has_new_frame && self.y_data.len() > 0 {
            self.has_new_frame = false;
            Some((self.y_data.clone(), self.uv_data.clone(), self.width, self.height))
        } else {
            self.has_new_frame = false;
            None
        }
    }

    /// Publish one decoded output buffer. The planes are resized to the
    /// frame's dimensions, and only when the source holds both full
    /// planes are they copied and the buffer marked dirty; a short
    /// source is skipped rather than read out of bounds, and the dirty
    /// flag is left as it was.
    pub fn publish_from(&mut self, src: &[u8], width: u32, height: u32, pts: i64)
        requires
            0 < width <= MAX_FRAME_DIM,
            0 < height <= MAX_FRAME_DIM,
        ensures
            final(self).y_data@.len() == y_plane_len(width, height),
            final(self).uv_data@.len() == uv_plane_len(width, height),
            src@.len() >= y_plane_len(width, height) + uv_plane_len(width, height) ==> {
                &&& final(self).y_data@ == src@.subrange(0, y_plane_len(width, height))
                &&& final(self).uv_data@ == src@.subrange(
                    y_plane_len(width, height),
                    y_plane_len(width, height) + uv_plane_len(width, height),
                )
                &&& final(self).width == width
                &&& final(self).height == height
                &&& final(self).timestamp_us == pts
                &&& final(self).has_new_frame == true
            },
            src@.len() < y_plane_len(width, height) + uv_plane_len(width, height) ==> {
                &&& final(self).width == old(self).width
                &&& final(self).height == old(self).height
                &&& final(self).timestamp_us == old(self).timestamp_us
                &&& final(self).has_new_frame == old(self).has_new_frame
            },
    {
        proof {
            assert(width * height <= 16384int * 16384int) by (nonlinear_arith)
                requires
                    0 < width <= 16384,
                    0 < height <= 16384,
            ;
        }
        let y_size: usize = (width as usize) * (height as usize);
        let uv_size: usize = y_size / 2;
        if self.y_data.len() != y_size {
            self.y_data.resize(y_size, 0);
        }
        if self.uv_data.len() != uv_size {
            self.uv_data.resize(uv_size, 0);
        }
        if src.len() >= y_size + uv_size {
            self.y_data.clear();
            let mut i: usize = 0;
            while i < y_size
                invariant
                    i <= y_size,
                    y_size <= 268435456,
                    uv_size <= y_size,
                    self.y_data@ == src@.subrange(0, i as int),
                    self.uv_data@.len() == uv_plane_len(width, height),
                    src@.len() >= y_size + uv_size,
                    y_size == y_plane_len(width, height),
                    uv_size == uv_plane_len(width, height),
                decreases y_size - i,
            {
                let b = src[i];
                self.y_data.push(b);
                proof {
                    assert(self.y_data@ =~= src@.subrange(0, i + 1));
                }
                i = i + 1;
            }
            self.uv_data.clear();
            let mut j: usize = 0;
            while j < uv_size
                invariant
                    j <= uv_size,
                    y_size <= 268435456,
                    uv_size <= y_size,
                    self.y_data@ == src@.subrange(0, y_size as int),
                    self.uv_data@ == src@.subrange(y_size as int, y_size + j),
                    src@.len() >= y_size + uv_size,
                    y_size == y_plane_len(width, height),
                    uv_size == uv_plane_len(width, height),
                decreases uv_size - j,
            {
                let b = src[y_size + j];
                self.uv_data.push(b);
                proof {
                    assert(self.uv_data@ =~= src@.subrange(y_size as int, y_size + j + 1));
                }
                j = j + 1;
            }
            self.width = width;
            self.height = height;
            self.timestamp_us = pts;
            self.has_new_frame = true;
        }
    }

    /// Publish whole planes at once (the synthetic-source path). The
    /// planes must match the stated dimensions; the buffer is marked
    /// dirty unconditionally.
    pub fn publish_planes(&mut self, y: Vec<u8>, uv: Vec<u8>, width: u32, height: u32, pts: i64)
        requires
            y@.len() == y_plane_len(width, height),
            uv@.len() == uv_plane_len(width, height),
        ensures
            *final(self) == (FrameBuffer {
                y_data: y,
                uv_data: uv,
                width,
                height,
                timestamp_us: pts,
                has_new_frame: true,
            }),
    {
        self.y_data = y;
        self.uv_data = uv;
        self.width = width;
        self.height = height;
        self.timestamp_us = pts;
        self.has_new_frame = true;
    }

    /// Drop any stored frame data, as a stopping session does.
    pub fn clear(&mut self)
        ensures
            final(self).y_data@ == Seq::<u8>::empty(),
            final(self).uv_data@ == Seq::<u8>::empty(),
            final(self).has_new_frame == false,
            final(self).width == old(self).width,
            final(self).height == old(self).height,
            final(self).timestamp_us == old(self).timestamp_us,
    {
        self.y_data.clear();
        self.uv_data.clear();
        self.has_new_frame = false;
    }
}

/// At-most-once delivery: a second clear-on-read without an intervening
/// publication yields nothing, whatever the buffer held.
pub proof fn lemma_take_frame_at_most_once(f: FrameBuffer)
    ensures
        spec_take_frame(spec_take_frame(f).1).0 is None,
{
}

} // verus!

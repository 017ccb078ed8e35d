//! Hand-off of video data chosen by the platform layer.
//!
//! A file picker completes on another thread and leaves a file
//! descriptor in a slot; the render loop claims it with swap-and-clear
//! semantics, so one selection starts exactly one decoder session.

use vstd::prelude::*;

verus! {

/// Sentinel meaning "no descriptor pending".
pub const NO_PENDING_FD: i32 = -1;

/// A decoded video frame handed over from the platform layer.
pub struct VideoFrame {
    pub data: Vec<u8>,
    pub width: u32,
    pub height: u32,
}

/// Decisions around platform-delivered video data.
pub struct VideoManager;

impl VideoManager {
    /// Accept a frame fetched from the platform only when it actually
    /// holds bytes; an empty payload means no frame was ready.
    pub fn frame_from_parts(data: Vec<u8>, width: u32, height: u32) -> (r: Option<VideoFrame>)
        ensures
            data@.len() == 0 ==> r is None,
            data@.len() > 0 ==> match r {
                Some(f) => f.data == data && f.width == width && f.height == height,
                None => false,
            },
    {
        if data.len() == 0 {
            None
        } else {
            Some(VideoFrame { data, width, height })
        }
    }
}

/// Claim the pending video file descriptor, if one was delivered: the
/// slot is cleared in the same step, so the descriptor is consumed
/// exactly once. Negative values mean nothing is pending.
pub fn get_pending_fd(slot: &mut i32) -> (fd: Option<i32>)
    ensures
        fd == (if *old(slot) >= 0 {
            Some(*old(slot))
        } else {
            None::<i32>
        }),
        *final(slot) == NO_PENDING_FD,
{
    let value = *slot;
    *slot = NO_PENDING_FD;
    if value >= 0 {
        Some(value)
    } else {
        None
    }
}

} // verus!

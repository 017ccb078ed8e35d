//! The renderer's resource and pass bookkeeping.
//!
//! GPU work itself happens in the platform layer; what is verified here
//! are the decisions that keep it safe: video textures are recreated
//! exactly when the source resolution changes (and a new binding fully
//! replaces the old one before any draw uses it), the offscreen stereo
//! target and the distortion pass's binding are rebuilt together on
//! resize, and each frame runs a fixed set of passes decided only by
//! the VR flag and the presence of UI output.

use vstd::prelude::*;
use crate::frame::MAX_FRAME_DIM;

verus! {

/// Edge of the fixed-resolution offscreen UI texture, which keeps the
/// VR-composited UI independent of the device's screen size.
pub const UI_TEXTURE_SIZE: u32 = 2048;

/// The video textures' state: at most one pair of luma/chroma textures
/// exists per session, tracked by dimensions.
pub struct VideoTextureState {
    pub allocated: bool,
    pub width: u32,
    pub height: u32,
    /// Counts rebuilt bindings; the bind group in use always belongs to
    /// the latest generation.
    pub generation: u64,
}

impl VideoTextureState {
    /// No textures yet.
    pub fn new() -> (t: VideoTextureState)
        ensures
            t.allocated == false,
            t.generation == 0,
    {
        VideoTextureState { allocated: false, width: 0, height: 0, generation: 0 }
    }

    /// Whether a frame of the given size needs fresh textures.
    pub open spec fn spec_needs_recreate(self, width: u32, height: u32) -> bool {
        !self.allocated || self.width != width || self.height != height
    }

    /// Account for one uploaded frame: textures are recreated exactly
    /// when none exist yet or the resolution changed, and a recreation
    /// bumps the binding generation — the old binding is replaced whole,
    /// never referenced half built.
    pub fn on_upload(&mut self, width: u32, height: u32) -> (recreated: bool)
        requires
            0 < width <= MAX_FRAME_DIM,
            0 < height <= MAX_FRAME_DIM,
            old(self).generation < u64::MAX,
        ensures
            recreated == old(self).spec_needs_recreate(width, height),
            final(self).allocated == true,
            final(self).width == width,
            final(self).height == height,
            final(self).generation == (if recreated {
                old(self).generation + 1
            } else {
                old(self).generation as int
            }),
    {
        if !self.allocated || self.width != width || self.height != height {
            self.allocated = true;
            self.width = width;
            self.height = height;
            self.generation = self.generation + 1;
            true
        } else {
            false
        }
    }

}

/// Texture copy layout for the luma plane: one byte per texel, full
/// resolution.
pub fn luma_layout(width: u32, height: u32) -> (r: (u32, u32, u32, u32))
    requires
        0 < width,
        0 < height,
    ensures
        r.0 == width && r.1 == height,  // texture dimensions
        r.2 == width,  // bytes per row
        r.3 == height,  // rows per image
{
    (width, height, width, height)
}

/// Texture copy layout for the interleaved chroma plane: half
/// resolution on both axes with two bytes per texel, so its byte stride
/// equals the luma plane's.
pub fn chroma_layout(width: u32, height: u32) -> (r: (u32, u32, u32, u32))
    requires
        0 < width,
        0 < height,
    ensures
        r.0 == width / 2 && r.1 == height / 2,  // texture dimensions
        r.2 == width,  // bytes per row: 2 bytes per texel at half width
        r.3 == height / 2,  // rows per image
        r.2 >= 2 * (width / 2),  // the stride covers every texel's two bytes
{
    (width / 2, height / 2, width, height / 2)
}

/// The swapchain, the offscreen stereo target and the distortion pass's
/// source binding, tracked by dimensions and generations.
pub struct RenderTargets {
    pub surface_width: u32,
    pub surface_height: u32,
    pub offscreen_width: u32,
    pub offscreen_height: u32,
    /// Generation of the offscreen target.
    pub offscreen_generation: u64,
    /// Generation of the offscreen target the distortion binding was
    /// built against.
    pub binding_generation: u64,
}

impl RenderTargets {
    /// The distortion pass may only run when its source binding refers
    /// to the current offscreen target.
    pub open spec fn binding_current(self) -> bool {
        self.binding_generation == self.offscreen_generation
    }

    /// The offscreen stereo target always matches the surface.
    pub open spec fn wf(self) -> bool {
        &&& self.offscreen_width == self.surface_width
        &&& self.offscreen_height == self.surface_height
        &&& self.binding_current()
    }

    /// Initial targets, created together at the surface's size.
    pub fn new(width: u32, height: u32) -> (t: RenderTargets)
        ensures
            t.wf(),
            t.surface_width == width,
            t.surface_height == height,
    {
        RenderTargets {
            surface_width: width,
            surface_height: height,
            offscreen_width: width,
            offscreen_height: height,
            offscreen_generation: 0,
            binding_generation: 0,
        }
    }

    /// Resize: the swapchain and the offscreen target are reconfigured
    /// together, and the distortion binding is rebuilt against the new
    /// target before any later pass can sample it. Degenerate sizes are
    /// ignored, as a transient surface state.
    pub fn resize(&mut self, width: u32, height: u32)
        requires
            old(self).wf(),
            old(self).offscreen_generation < u64::MAX,
        ensures
            final(self).wf(),
            width > 0 && height > 0 ==> {
                &&& final(self).surface_width == width
                &&& final(self).surface_height == height
                &&& final(self).offscreen_generation == old(self).offscreen_generation + 1
            },
            width == 0 || height == 0 ==> *final(self) == *old(self),
    {
        if width > 0 && height > 0 {
            self.surface_width = width;
            self.surface_height = height;
            self.offscreen_width = width;
            self.offscreen_height = height;
            self.offscreen_generation = self.offscreen_generation + 1;
            self.binding_generation = self.offscreen_generation;
        }
    }
}

/// The passes of one frame, in the order they are recorded.
#[derive(Clone, Copy, PartialEq, Eq, Structural, Debug)]
pub struct FramePlan {
    /// The UI texture is cleared every frame, visible or not, so the
    /// composite pass never samples stale or uninitialized data.
    pub clear_ui_texture: bool,
    /// Paint this frame's UI output into the offscreen UI texture.
    pub paint_ui_texture: bool,
    /// Where the eye passes render: the offscreen stereo target in VR
    /// mode, the swapchain outside it.
    pub scene_to_offscreen: bool,
    /// One centered eye, or two half-viewport eyes.
    pub eye_count: u32,
    /// The barrel-distortion post-process, VR mode only.
    pub distortion_pass: bool,
    /// The extra full-resolution UI pass straight onto the swapchain.
    pub direct_ui_pass: bool,
}

/// Decide the frame's passes from the VR flag and whether the UI
/// produced output: the UI texture is always cleared; the scene goes
/// through the offscreen target, as two eyes plus the distortion pass,
/// exactly in VR mode; the direct UI pass runs whenever there is UI
/// output.
pub fn plan_frame(vr_mode: bool, has_ui: bool) -> (p: FramePlan)
    ensures
        p.clear_ui_texture == true,
        p.paint_ui_texture == has_ui,
        p.scene_to_offscreen == vr_mode,
        p.eye_count == (if vr_mode {
            2u32
        } else {
            1u32
        }),
        p.distortion_pass == vr_mode,
        p.direct_ui_pass == has_ui,
{
    FramePlan {
        clear_ui_texture: true,
        paint_ui_texture: has_ui,
        scene_to_offscreen: vr_mode,
        eye_count: if vr_mode {
            2
        } else {
            1
        },
        distortion_pass: vr_mode,
        direct_ui_pass: has_ui,
    }
}

} // verus!

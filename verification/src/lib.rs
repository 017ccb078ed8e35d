//! Core logic of a stereoscopic VR video player, verified with Verus.
//!
//! The library models the three subsystems whose behaviour the player
//! depends on — the head-orientation tracker, the video decode and
//! frame-pacing pipeline, and the stereo renderer's lens-distortion and
//! projection arithmetic — together with the per-frame orchestration,
//! gamepad edge detection and the in-VR file browser. All quantities are
//! plain integers (fixed-point where the platform uses real numbers);
//! the platform layer converts at the boundary.

pub mod browser;
pub mod decoder;
pub mod distortion;
pub mod frame;
pub mod gamepad;
pub mod input;
pub mod orchestrator;
pub mod orientation;
pub mod pacing;
pub mod playback;
pub mod projection;
pub mod quat;
pub mod renderer;
pub mod ui_state;
pub mod video;
pub mod window_manager;
pub mod yuv;

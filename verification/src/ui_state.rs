//! State behind the in-VR control surface.
//!
//! The widget painting itself is the platform layer's concern; what is
//! kept here is everything the rest of the player depends on: the
//! tunable parameters and one-shot intents the UI raises, the menu
//! navigation state, and the auto-hiding menu button. Real-valued
//! sliders are fixed point with 10000 standing for 1.0.

use vstd::prelude::*;
use crate::browser::FileBrowser;
use crate::distortion::MAX_LENS_RADIUS;

verus! {

/// The menu button hides after this much inactivity, in milliseconds.
pub const AUTO_HIDE_MS: u64 = 3000;

/// Smallest lens radius a slider can ask for (0.5 in fixed point).
pub const MIN_LENS_RADIUS: u64 = 5000;

/// Magnitude bound of the lens-center offset (0.15 in fixed point).
pub const MAX_LENS_OFFSET: i64 = 1500;

/// Content-scale slider bounds (0.5 and 3.0 in fixed point).
pub const MIN_CONTENT_SCALE: u64 = 5000;

pub const MAX_CONTENT_SCALE: u64 = 30000;

/// Tunable parameters and one-shot intents raised by the control
/// surface, consumed by the per-frame orchestration.
#[derive(Clone, Copy, PartialEq, Eq, Structural, Debug)]
pub struct VrParams {
    /// Lens radius in fixed point (10000 is 1.0).
    pub lens_radius: u64,
    /// Horizontal lens-center offset in fixed point.
    pub lens_center_offset: i64,
    /// Virtual screen size in fixed point.
    pub content_scale: u64,
    pub gyro_enabled: bool,
    pub recenter_flag: bool,
    pub select_video_flag: bool,
    pub vr_exit_requested: bool,
    pub toggle_play_pause: bool,
    pub seek_forward_flag: bool,
    pub seek_backward_flag: bool,
}

impl VrParams {
    /// Slider values within their ranges.
    pub open spec fn wf(self) -> bool {
        &&& MIN_LENS_RADIUS <= self.lens_radius <= MAX_LENS_RADIUS
        &&& -MAX_LENS_OFFSET <= self.lens_center_offset <= MAX_LENS_OFFSET
        &&& MIN_CONTENT_SCALE <= self.content_scale <= MAX_CONTENT_SCALE
    }
}

/// The defaults: unit lens, centered, unit scale, tracking enabled, no
/// intents raised.
pub open spec fn spec_params_default() -> VrParams {
    VrParams {
        lens_radius: 10000u64,
        lens_center_offset: 0i64,
        content_scale: 10000u64,
        gyro_enabled: true,
        recenter_flag: false,
        select_video_flag: false,
        vr_exit_requested: false,
        toggle_play_pause: false,
        seek_forward_flag: false,
        seek_backward_flag: false,
    }
}

impl Default for VrParams {
    /// The default parameter set; see [`spec_params_default`].
    fn default() -> (p: VrParams)
        ensures
            p == spec_params_default(),
            p.wf(),
    {
        VrParams {
            lens_radius: 10000,
            lens_center_offset: 0,
            content_scale: 10000,
            gyro_enabled: true,
            recenter_flag: false,
            select_video_flag: false,
            vr_exit_requested: false,
            toggle_play_pause: false,
            seek_forward_flag: false,
            seek_backward_flag: false,
        }
    }
}

/// Which page of the dock menu is showing.
#[derive(Clone, Copy, PartialEq, Eq, Structural, Debug)]
pub enum MenuState {
    Main,
    LensSettings,
}

/// The control surface's state between frames.
pub struct VrUi {
    pub params: VrParams,
    pub open: bool,
    pub main_menu_visible: bool,
    pub menu_state: MenuState,
    /// The auto-hiding menu button.
    pub hamburger_visible: bool,
    /// Host-clock time of the last interaction, in milliseconds.
    pub last_interaction_ms: u64,
    pub file_browser: FileBrowser,
}

impl VrUi {
    pub open spec fn wf(self) -> bool {
        self.params.wf() && self.file_browser.wf()
    }

    /// A fresh control surface: defaults, main page, menu button shown.
    pub fn new(now_ms: u64) -> (u: VrUi)
        ensures
            u.wf(),
            u.params == spec_params_default(),
            u.open == true,
            u.main_menu_visible == false,
            u.menu_state is Main,
            u.hamburger_visible == true,
            u.last_interaction_ms == now_ms,
            u.file_browser.visible == false,
    {
        VrUi {
            params: VrParams::default(),
            open: true,
            main_menu_visible: false,
            menu_state: MenuState::Main,
            hamburger_visible: true,
            last_interaction_ms: now_ms,
            file_browser: FileBrowser::new(),
        }
    }

    /// A tap shows the menu button and restarts the auto-hide clock.
    pub fn show_hamburger(&mut self, now_ms: u64)
        ensures
            *final(self) == (VrUi {
                hamburger_visible: true,
                last_interaction_ms: now_ms,
                ..*old(self)
            }),
    {
        self.hamburger_visible = true;
        self.last_interaction_ms = now_ms;
    }

    /// Toggle the menu button and restart the auto-hide clock.
    pub fn toggle_hamburger(&mut self, now_ms: u64)
        ensures
            *final(self) == (VrUi {
                hamburger_visible: !old(self).hamburger_visible,
                last_interaction_ms: now_ms,
                ..*old(self)
            }),
    {
        self.hamburger_visible = !self.hamburger_visible;
        self.last_interaction_ms = now_ms;
    }

    /// Whether the menu button is showing.
    pub fn is_hamburger_visible(&self) -> (v: bool)
        ensures
            v == self.hamburger_visible,
    {
        self.hamburger_visible
    }

    /// Hide the menu button once [`AUTO_HIDE_MS`] of inactivity have
    /// passed; called at the top of each frame.
    pub fn update_auto_hide(&mut self, now_ms: u64)
        ensures
            *final(self) == (VrUi {
                hamburger_visible: old(self).hamburger_visible && !(now_ms
                    >= old(self).last_interaction_ms + AUTO_HIDE_MS),
                ..*old(self)
            }),
    {
        if now_ms >= self.last_interaction_ms && now_ms - self.last_interaction_ms >= AUTO_HIDE_MS {
            self.hamburger_visible = false;
        }
    }
}

} // verus!

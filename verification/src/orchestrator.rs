//! The per-frame driver.
//!
//! Once per display refresh the host evaluates the UI, polls the
//! gamepad, and calls [`advance_frame`], which applies every raised
//! intent in a fixed order — control-surface intents first, then
//! gamepad actions, then the file-browser hand-off — so that a mutation
//! raised this frame (a recenter, a pause) is visible in this same
//! frame's render call, and a freshly picked source never races the
//! render call that consumes decoder output. The host then performs the
//! returned platform actions and draws with the returned render inputs.

use vstd::prelude::*;
use crate::browser::BrowserModel;
use crate::browser::spec_go_back;
use crate::browser::spec_move_down;
use crate::browser::spec_move_up;
use crate::browser::spec_select_current;
use crate::browser::spec_take_selected;
use crate::decoder::DecodeSession;
use crate::frame::spec_take_frame;
use crate::gamepad::GamepadActions;
use crate::gamepad::GamepadReader;
use crate::gamepad::spec_handle_button;
use crate::orientation::OrientationState;
use crate::orientation::spec_recenter;
use crate::playback::PlaybackState;
use crate::quat::Quat;
use crate::quat::UNIT;
use crate::quat::spec_compose;
use crate::quat::spec_conjugate;
use crate::ui_state::AUTO_HIDE_MS;
use crate::ui_state::MAX_CONTENT_SCALE;
use crate::ui_state::MIN_CONTENT_SCALE;
use crate::ui_state::VrParams;
use crate::ui_state::VrUi;

verus! {

/// How far one seek intent moves the position, in microseconds.
pub const SEEK_STEP_US: i64 = 10000000;

/// Side-effecting platform commands one frame asks for; the host
/// performs them and consumes no results.
pub struct HostActions {
    /// Launch the platform's video file picker.
    pub pick_video: bool,
    /// A file chosen in the in-VR browser (path components): start its
    /// audio and open a fresh decoder session on it.
    pub start_playback: Option<Vec<String>>,
    /// A new tare reference to persist process-wide.
    pub persist_reference: Option<Quat>,
}

/// Everything the render call needs this frame.
pub struct RenderInputs {
    /// Head orientation (identity when tracking is disabled, freezing
    /// the view).
    pub orientation: Quat,
    pub lens_radius: u64,
    pub lens_center_offset: i64,
    pub content_scale: u64,
    /// A freshly decoded frame to upload, at most one per publication.
    pub frame: Option<(Vec<u8>, Vec<u8>, u32, u32)>,
}

/// A seek forward: ten seconds later, saturating at the far end.
pub open spec fn spec_seek_forward_target(pos: int) -> int {
    if pos + SEEK_STEP_US <= i64::MAX {
        pos + SEEK_STEP_US
    } else {
        i64::MAX as int
    }
}

/// A seek backward: ten seconds earlier, never before the start.
pub open spec fn spec_seek_back_target(pos: int) -> int {
    if pos - SEEK_STEP_US >= 0 {
        pos - SEEK_STEP_US
    } else {
        0
    }
}

/// The transport after one frame's intents, applied in order: the UI
/// play/pause toggle, then the UI seeks (forward, backward), then the
/// gamepad play/pause, then the gamepad seeks (backward, forward). Each
/// seek starts from the position the previous one left, and the last
/// target wins the pending-seek slot.
#[verifier::opaque]
pub open spec fn spec_transport_after(
    p: PlaybackState,
    ui_toggle: bool,
    ui_fwd: bool,
    ui_back: bool,
    gp: GamepadActions,
) -> PlaybackState {
    let playing1 = if ui_toggle {
        !p.is_playing
    } else {
        p.is_playing
    };
    let playing2 = if gp.play_pause {
        !playing1
    } else {
        playing1
    };
    let pos1 = if ui_fwd {
        spec_seek_forward_target(p.position_us as int)
    } else {
        p.position_us as int
    };
    let pos2 = if ui_back {
        spec_seek_back_target(pos1)
    } else {
        pos1
    };
    let pos3 = if gp.seek_back {
        spec_seek_back_target(pos2)
    } else {
        pos2
    };
    let pos4 = if gp.seek_forward {
        spec_seek_forward_target(pos3)
    } else {
        pos3
    };
    let any_seek = ui_fwd || ui_back || gp.seek_back || gp.seek_forward;
    PlaybackState {
        is_playing: playing2,
        position_us: pos4 as i64,
        duration_us: p.duration_us,
        seek_request: if any_seek {
            Some(pos4 as i64)
        } else {
            p.seek_request
        },
    }
}

/// The browser after one frame's gamepad actions. While visible, the
/// shoulder buttons double as list navigation, the play button selects,
/// the back button goes up a directory and the menu button closes the
/// browser; while hidden, the picker button opens it on a fresh
/// listing.
#[verifier::opaque]
pub open spec fn spec_browser_after(b: BrowserModel, gp: GamepadActions) -> BrowserModel {
    if b.visible {
        let b1 = if gp.nav_up || gp.seek_back {
            spec_move_up(b)
        } else {
            b
        };
        let b2 = if gp.nav_down || gp.seek_forward {
            spec_move_down(b1)
        } else {
            b1
        };
        let b3 = if gp.play_pause {
            spec_select_current(b2)
        } else {
            b2
        };
        let b4 = if gp.back {
            spec_go_back(b3)
        } else {
            b3
        };
        if gp.toggle_ui {
            BrowserModel { visible: false, ..b4 }
        } else {
            b4
        }
    } else {
        if gp.open_file_picker {
            BrowserModel { visible: true, needs_refresh: true, ..b }
        } else {
            b
        }
    }
}

/// The content scale after the held zoom triggers: one step in, one
/// step out, clamped to the slider range.
pub open spec fn spec_content_scale_after(cs: int, gp: GamepadActions) -> int {
    let cs1 = if gp.zoom_in {
        if cs + 200 <= MAX_CONTENT_SCALE {
            cs + 200
        } else {
            MAX_CONTENT_SCALE as int
        }
    } else {
        cs
    };
    if gp.zoom_out {
        if cs1 - 200 >= MIN_CONTENT_SCALE {
            cs1 - 200
        } else {
            MIN_CONTENT_SCALE as int
        }
    } else {
        cs1
    }
}

/// Run one frame's orchestration. In order: age the auto-hiding menu
/// button; apply the control surface's one-shot intents (recenter, pick
/// video, exit VR, play/pause, seeks) and clear them; apply the gamepad
/// actions (play/pause and seeks, menu toggle, recenter, VR toggle,
/// browser navigation, zoom); hand a file chosen in the browser to the
/// host, stopping the old session; and read the orientation and the
/// freshest decoded frame for this frame's render call.
#[verifier::rlimit(100)]
pub fn advance_frame(
    ui: &mut VrUi,
    orientation: &mut OrientationState,
    session: &mut DecodeSession,
    vr_mode: &mut bool,
    gp: GamepadActions,
    now_ms: u64,
) -> (r: (HostActions, RenderInputs))
    requires
        old(ui).wf(),
        old(orientation).wf(),
        old(session).wf(),
    ensures
        final(ui).wf(),
        final(orientation).wf(),
        final(session).wf(),
        // Orientation: a recenter from either source tares to the raw
        // orientation of this very frame and hands it out to persist.
        ({
            let recentered = old(ui).params.recenter_flag || gp.reset_view;
            &&& *final(orientation) == (if recentered {
                spec_recenter(*old(orientation))
            } else {
                *old(orientation)
            })
            &&& r.0.persist_reference == (if recentered {
                Some(old(orientation).raw)
            } else {
                None::<Quat>
            })
        }),
        // VR mode: the UI's exit intent is applied before the gamepad's
        // toggle.
        *final(vr_mode) == ({
            let v1 = *old(vr_mode) && !old(ui).params.vr_exit_requested;
            if gp.toggle_vr_mode {
                !v1
            } else {
                v1
            }
        }),
        // Transport: toggles and seeks land in their fixed order, and
        // the stop on a newly chosen file does not touch the transport.
        final(session).playback == spec_transport_after(
            old(session).playback,
            old(ui).params.toggle_play_pause,
            old(ui).params.seek_forward_flag,
            old(ui).params.seek_backward_flag,
            gp,
        ),
        // Control surface: every one-shot intent is consumed; sliders
        // and the tracking switch stay; zoom moves the content scale.
        final(ui).params == (VrParams {
            recenter_flag: false,
            select_video_flag: false,
            vr_exit_requested: false,
            toggle_play_pause: false,
            seek_forward_flag: false,
            seek_backward_flag: false,
            content_scale: spec_content_scale_after(old(ui).params.content_scale as int, gp) as u64,
            ..old(ui).params
        }),
        r.0.pick_video == old(ui).params.select_video_flag,
        // The menu button ages, then the menu toggle flips it, then a
        // back press outside the browser dismisses it.
        ({
            let h1 = old(ui).hamburger_visible && !(now_ms >= old(ui).last_interaction_ms
                + AUTO_HIDE_MS);
            let h2 = if gp.toggle_ui {
                !h1
            } else {
                h1
            };
            let h3 = if !old(ui).file_browser.visible && gp.back && h2 {
                false
            } else {
                h2
            };
            final(ui).hamburger_visible == h3
        }),
        final(ui).main_menu_visible == old(ui).main_menu_visible,
        final(ui).menu_state == old(ui).menu_state,
        final(ui).open == old(ui).open,
        // Browser: gamepad navigation in its fixed order, then the
        // chosen file is taken exactly once and handed to the host,
        // which must tear the old session down first.
        ({
            let b5 = spec_browser_after(old(ui).file_browser.model(), gp);
            let taken = spec_take_selected(b5).0;
            &&& final(ui).file_browser.model() == spec_take_selected(b5).1
            &&& (match r.0.start_playback {
                Some(path) => Some(path@) == taken,
                None => taken is None,
            })
            &&& final(session).running == (if taken is Some {
                false
            } else {
                old(session).running
            })
        }),
        // Render inputs: the orientation reflects this frame's
        // recenter; tracking off freezes the view at the identity.
        r.1.orientation == (if old(ui).params.gyro_enabled {
            spec_compose(spec_conjugate(final(orientation).reference), final(orientation).raw)
        } else {
            Quat { x: 0i64, y: 0i64, z: 0i64, w: UNIT }
        }),
        r.1.lens_radius == old(ui).params.lens_radius,
        r.1.lens_center_offset == old(ui).params.lens_center_offset,
        r.1.content_scale == final(ui).params.content_scale,
        // The frame handed to the upload: at most once per publication,
        // and none at all when the session was just torn down.
        ({
            let b5 = spec_browser_after(old(ui).file_browser.model(), gp);
            let taken = spec_take_selected(b5).0;
            if taken is Some {
                r.1.frame is None
            } else {
                match r.1.frame {
                    Some((y, uv, w, h)) => Some((y@, uv@, w, h)) == spec_take_frame(
                        old(session).frame,
                    ).0,
                    None => spec_take_frame(old(session).frame).0 is None,
                }
            }
        }),
{
    let browser_was_visible = ui.file_browser.visible;
    update_menu_button(ui, gp, browser_was_visible, now_ms);
    let mut actions = HostActions { pick_video: false, start_playback: None, persist_reference: None };

    // Control-surface intents, consumed on use; a recenter can also
    // come from the gamepad.
    if ui.params.recenter_flag || gp.reset_view {
        let saved = orientation.recenter();
        actions.persist_reference = Some(saved);
        ui.params.recenter_flag = false;
    }
    if ui.params.select_video_flag {
        ui.params.select_video_flag = false;
        actions.pick_video = true;
    }
    if ui.params.vr_exit_requested {
        *vr_mode = false;
        ui.params.vr_exit_requested = false;
    }
    if gp.toggle_vr_mode {
        *vr_mode = !*vr_mode;
    }
    let ui_toggle = ui.params.toggle_play_pause;
    let ui_fwd = ui.params.seek_forward_flag;
    let ui_back = ui.params.seek_backward_flag;
    ui.params.toggle_play_pause = false;
    ui.params.seek_forward_flag = false;
    ui.params.seek_backward_flag = false;
    apply_transport_intents(session, ui_toggle, ui_fwd, ui_back, gp);

    // Browser navigation while it is open; opening it while closed.
    apply_browser_actions(&mut ui.file_browser, gp);

    // Held zoom triggers.
    apply_zoom(&mut ui.params, gp);

    // A file chosen in the browser starts a new playback session; the
    // old one is stopped before the host may open the new source.
    match ui.file_browser.take_selected_file() {
        Some(path) => {
            session.stop();
            actions.start_playback = Some(path);
        },
        None => {},
    }

    // Read the orientation only now, so intents applied above are
    // visible in this frame's render call.
    let head = if ui.params.gyro_enabled {
        orientation.get_orientation()
    } else {
        Quat::identity()
    };

    // Pull at most one freshly decoded frame for upload.
    let frame = session.get_frame();

    let inputs = RenderInputs {
        orientation: head,
        lens_radius: ui.params.lens_radius,
        lens_center_offset: ui.params.lens_center_offset,
        content_scale: ui.params.content_scale,
        frame,
    };
    (actions, inputs)
}

/// Apply one frame's play/pause toggles and seek intents to the
/// transport, in their fixed order; see [`spec_transport_after`].
fn apply_transport_intents(
    session: &mut DecodeSession,
    ui_toggle: bool,
    ui_fwd: bool,
    ui_back: bool,
    gp: GamepadActions,
)
    requires
        old(session).wf(),
    ensures
        final(session).wf(),
        final(session).playback == spec_transport_after(
            old(session).playback,
            ui_toggle,
            ui_fwd,
            ui_back,
            gp,
        ),
        final(session).frame == old(session).frame,
        final(session).pacing == old(session).pacing,
        final(session).video_width == old(session).video_width,
        final(session).video_height == old(session).video_height,
        final(session).running == old(session).running,
{
    proof {
        reveal(spec_transport_after);
    }
    if ui_toggle {
        if session.is_paused() {
            session.resume();
        } else {
            session.pause();
        }
    }
    if ui_fwd {
        let pos = session.get_position();
        session.seek(seek_forward_target(pos));
    }
    if ui_back {
        let pos = session.get_position();
        session.seek(seek_back_target(pos));
    }
    if gp.play_pause {
        if session.is_paused() {
            session.resume();
        } else {
            session.pause();
        }
    }
    if gp.seek_back {
        let pos = session.get_position();
        session.seek(seek_back_target(pos));
    }
    if gp.seek_forward {
        let pos = session.get_position();
        session.seek(seek_forward_target(pos));
    }
}

/// Apply one frame's gamepad actions to the file browser, in their
/// fixed order; see [`spec_browser_after`].
fn apply_browser_actions(browser: &mut crate::browser::FileBrowser, gp: GamepadActions)
    requires
        old(browser).wf(),
    ensures
        final(browser).wf(),
        final(browser).model() == spec_browser_after(old(browser).model(), gp),
        final(browser).error_msg == old(browser).error_msg,
{
    proof {
        reveal(spec_browser_after);
    }
    if browser.visible {
        if gp.nav_up || gp.seek_back {
            browser.move_up();
        }
        if gp.nav_down || gp.seek_forward {
            browser.move_down();
        }
        if gp.play_pause {
            browser.select_current();
        }
        if gp.back {
            browser.go_back();
        }
        if gp.toggle_ui {
            browser.visible = false;
        }
    } else {
        if gp.open_file_picker {
            browser.visible = true;
            browser.needs_refresh = true;
        }
    }
}

/// Age the auto-hiding menu button, apply the gamepad's menu toggle,
/// and let a back press outside the browser dismiss the menu.
fn update_menu_button(ui: &mut VrUi, gp: GamepadActions, browser_visible: bool, now_ms: u64)
    requires
        old(ui).wf(),
    ensures
        final(ui).wf(),
        final(ui).hamburger_visible == ({
            let h1 = old(ui).hamburger_visible && !(now_ms >= old(ui).last_interaction_ms
                + AUTO_HIDE_MS);
            let h2 = if gp.toggle_ui {
                !h1
            } else {
                h1
            };
            if !browser_visible && gp.back && h2 {
                false
            } else {
                h2
            }
        }),
        final(ui).params == old(ui).params,
        final(ui).file_browser == old(ui).file_browser,
        final(ui).main_menu_visible == old(ui).main_menu_visible,
        final(ui).menu_state == old(ui).menu_state,
        final(ui).open == old(ui).open,
{
    ui.update_auto_hide(now_ms);
    if gp.toggle_ui {
        ui.toggle_hamburger(now_ms);
    }
    if !browser_visible && gp.back && ui.is_hamburger_visible() {
        ui.toggle_hamburger(now_ms);
    }
}

/// Apply the held zoom triggers to the content scale.
fn apply_zoom(params: &mut VrParams, gp: GamepadActions)
    ensures
        *final(params) == (VrParams {
            content_scale: spec_content_scale_after(old(params).content_scale as int, gp) as u64,
            ..*old(params)
        }),
{
    if gp.zoom_in {
        let cs = params.content_scale;
        params.content_scale = if cs <= MAX_CONTENT_SCALE - 200 {
            cs + 200
        } else {
            MAX_CONTENT_SCALE
        };
    }
    if gp.zoom_out {
        let cs = params.content_scale;
        params.content_scale = if cs >= MIN_CONTENT_SCALE + 200 {
            cs - 200
        } else {
            MIN_CONTENT_SCALE
        };
    }
}

/// The saturating ten-second forward seek target.
fn seek_forward_target(pos: i64) -> (t: i64)
    ensures
        t == spec_seek_forward_target(pos as int),
{
    if pos <= i64::MAX - SEEK_STEP_US {
        pos + SEEK_STEP_US
    } else {
        i64::MAX
    }
}

/// The clamped ten-second backward seek target.
fn seek_back_target(pos: i64) -> (t: i64)
    ensures
        t == spec_seek_back_target(pos as int),
{
    if pos >= SEEK_STEP_US {
        pos - SEEK_STEP_US
    } else {
        0
    }
}

/// Volume nudges some buttons raise the moment they are pressed.
#[derive(Clone, Copy, PartialEq, Eq, Structural, Debug)]
pub enum VolumeAction {
    KeepVolume,
    VolumeUp,
    VolumeDown,
}

/// Route one platform key event: every code goes through the shared
/// button table, and the shoulder buttons and horizontal directional
/// pad double as volume nudges on their press edge.
pub fn handle_platform_key(reader: &mut GamepadReader, key_code: i32, pressed: bool) -> (volume:
    VolumeAction)
    ensures
        final(reader).state == spec_handle_button(old(reader).state, key_code, pressed),
        final(reader).prev == old(reader).prev,
        volume == (if pressed && (key_code == 102 || key_code == 21) {
            VolumeAction::VolumeDown
        } else if pressed && (key_code == 103 || key_code == 22) {
            VolumeAction::VolumeUp
        } else {
            VolumeAction::KeepVolume
        }),
{
    reader.handle_button(key_code, pressed);
    if pressed && (key_code == 102 || key_code == 21) {
        VolumeAction::VolumeDown
    } else if pressed && (key_code == 103 || key_code == 22) {
        VolumeAction::VolumeUp
    } else {
        VolumeAction::KeepVolume
    }
}

/// A single tap outside VR mode enters it, provided the tap is in the
/// upper seven tenths of the screen (the lower band is left to the
/// playback controls).
pub fn tap_enters_vr(vr_mode: bool, touch_y: i64, screen_height: u32) -> (r: bool)
    requires
        0 <= touch_y <= 100000,
    ensures
        r == (!vr_mode && 10 * touch_y < 7 * screen_height),
{
    !vr_mode && 10 * touch_y < 7 * (screen_height as i64)
}

/// Integer square root: the largest integer whose square does not
/// exceed the input.
pub fn isqrt(n: u64) -> (r: u64)
    ensures
        r * r <= n,
        (r + 1) * (r + 1) > n,
{
    let mut lo: u64 = 0;
    let mut hi: u64 = 4294967295;
    if n < hi {
        hi = n;
    }
    proof {
        assert((hi + 1) * (hi + 1) > n) by (nonlinear_arith)
            requires
                hi == (if n < 4294967295 {
                    n as int
                } else {
                    4294967295
                }),
        ;
    }
    while lo < hi
        invariant
            lo <= hi <= 4294967295,
            lo * lo <= n,
            (hi + 1) * (hi + 1) > n,
        decreases hi - lo,
    {
        let mid: u64 = lo + (hi - lo + 1) / 2;
        proof {
            assert(mid * mid <= 4294967295int * 4294967295) by (nonlinear_arith)
                requires
                    0 <= mid <= 4294967295,
            ;
        }
        if mid * mid <= n {
            lo = mid;
        } else {
            hi = mid - 1;
        }
    }
    lo
}

/// The pinch-zoom update: the content scale a two-finger gesture asks
/// for is the scale at the gesture's start times the ratio of the
/// current finger distance to the initial one, clamped to the slider
/// range. Works on squared pixel distances, so the host never takes a
/// square root.
pub fn pinch_scale(initial_scale: u64, d2_initial: u64, d2_current: u64) -> (s: u64)
    requires
        MIN_CONTENT_SCALE <= initial_scale <= MAX_CONTENT_SCALE,
        0 < d2_initial,
        d2_current <= 0x80000000,
        d2_initial <= 0x80000000,
    ensures
        MIN_CONTENT_SCALE <= s <= MAX_CONTENT_SCALE,
        s == ({
            let raw = (initial_scale * spec_isqrt((d2_current * 100000000int) / (d2_initial as int))) / 10000;
            if raw > MAX_CONTENT_SCALE {
                MAX_CONTENT_SCALE as int
            } else if raw < MIN_CONTENT_SCALE {
                MIN_CONTENT_SCALE as int
            } else {
                raw
            }
        }),
{
    proof {
        assert(d2_current * 100000000 <= 0x80000000int * 100000000) by (nonlinear_arith)
            requires
                d2_current <= 0x80000000,
        ;
        vstd::arithmetic::div_mod::lemma_div_is_ordered(
            (d2_current * 100000000) as int,
            0x80000000int * 100000000,
            d2_initial as int,
        );
        vstd::arithmetic::div_mod::lemma_div_is_ordered(
            0,
            (d2_current * 100000000) as int,
            d2_initial as int,
        );
    }
    let ratio: u64 = (d2_current * 100000000) / d2_initial;
    let root: u64 = isqrt(ratio);
    proof {
        lemma_isqrt_unique(ratio as int, root as int);
        assert(root * root <= 0x80000000int * 100000000);
        assert(root <= 500000000) by (nonlinear_arith)
            requires
                root * root <= 0x80000000int * 100000000,
                0 <= root,
        ;
        assert(initial_scale * root <= 30000int * 500000000) by (nonlinear_arith)
            requires
                initial_scale <= 30000,
                0 <= root <= 500000000,
        ;
        vstd::arithmetic::div_mod::lemma_div_is_ordered(
            0,
            (initial_scale * root) as int,
            10000,
        );
    }
    let raw: u64 = (initial_scale * root) / 10000;
    if raw > MAX_CONTENT_SCALE {
        MAX_CONTENT_SCALE
    } else if raw < MIN_CONTENT_SCALE {
        MIN_CONTENT_SCALE
    } else {
        raw
    }
}

/// The integer square root of a number, named by its defining bounds.
pub open spec fn spec_isqrt(n: int) -> int {
    choose|r: int| 0 <= r && #[trigger] (r * r) <= n < (r + 1) * (r + 1)
}

/// The defining bounds pin the integer square root down: any value
/// satisfying them is the chosen one.
proof fn lemma_isqrt_unique(n: int, r: int)
    requires
        0 <= r,
        r * r <= n,
        (r + 1) * (r + 1) > n,
    ensures
        spec_isqrt(n) == r,
{
    let c = spec_isqrt(n);
    assert(0 <= c && c * c <= n < (c + 1) * (c + 1)) by {
        assert(0 <= r && r * r <= n < (r + 1) * (r + 1));
    }
    if c < r {
        assert((c + 1) * (c + 1) <= r * r) by (nonlinear_arith)
            requires
                0 <= c,
                c + 1 <= r,
        ;
    }
    if c > r {
        assert((r + 1) * (r + 1) <= c * c) by (nonlinear_arith)
            requires
                0 <= r,
                r + 1 <= c,
        ;
    }
}

} // verus!

use vr_core::browser::FileEntry;
use vr_core::decoder::DecodeSession;
use vr_core::gamepad::GamepadActions;
use vr_core::orchestrator::advance_frame;
use vr_core::orchestrator::isqrt;
use vr_core::orchestrator::pinch_scale;
use vr_core::orchestrator::tap_enters_vr;
use vr_core::orientation::OrientationState;
use vr_core::quat::Quat;
use vr_core::quat::UNIT;
use vr_core::ui_state::VrUi;

fn no_actions() -> GamepadActions {
    GamepadActions {
        play_pause: false,
        seek_back: false,
        seek_forward: false,
        toggle_ui: false,
        confirm: false,
        back: false,
        reset_view: false,
        toggle_vr_mode: false,
        open_settings: false,
        open_file_picker: false,
        exit_app: false,
        zoom_in: false,
        zoom_out: false,
        nav_up: false,
        nav_down: false,
    }
}

fn fresh() -> (VrUi, OrientationState, DecodeSession, bool) {
    let ui = VrUi::new(0);
    let orientation = OrientationState::new(Quat { x: 0, y: 0, z: 0, w: UNIT });
    let mut session = DecodeSession::new();
    session.start();
    session.configure(640, 360, 10_000_000);
    (ui, orientation, session, true)
}

#[test]
fn recenter_intent_is_visible_in_the_same_frame() {
    let (mut ui, mut orientation, mut session, mut vr) = fresh();
    orientation.set_raw(Quat { x: 1000, y: 2000, z: 3000, w: 9327 });
    ui.params.recenter_flag = true;
    let (actions, inputs) = advance_frame(&mut ui, &mut orientation, &mut session, &mut vr, no_actions(), 0);
    // The new reference goes out for process-wide persistence...
    assert_eq!(actions.persist_reference, Some(Quat { x: 1000, y: 2000, z: 3000, w: 9327 }));
    // ...the intent is consumed...
    assert!(!ui.params.recenter_flag);
    // ...and this frame already renders the identity orientation.
    assert_eq!(inputs.orientation.x, 0);
    assert_eq!(inputs.orientation.y, 0);
    assert_eq!(inputs.orientation.z, 0);
    assert!(inputs.orientation.w > 0);
}

#[test]
fn gyro_disabled_freezes_the_view_at_identity() {
    let (mut ui, mut orientation, mut session, mut vr) = fresh();
    orientation.set_raw(Quat { x: 1000, y: 0, z: 0, w: 9950 });
    ui.params.gyro_enabled = false;
    let (_, inputs) = advance_frame(&mut ui, &mut orientation, &mut session, &mut vr, no_actions(), 0);
    assert_eq!(inputs.orientation, Quat { x: 0, y: 0, z: 0, w: UNIT });
}

#[test]
fn play_pause_intent_toggles_the_transport() {
    let (mut ui, mut orientation, mut session, mut vr) = fresh();
    assert!(!session.is_paused());
    ui.params.toggle_play_pause = true;
    advance_frame(&mut ui, &mut orientation, &mut session, &mut vr, no_actions(), 0);
    assert!(session.is_paused());
    assert!(!ui.params.toggle_play_pause);
    // A gamepad press the next frame resumes.
    let mut gp = no_actions();
    gp.play_pause = true;
    advance_frame(&mut ui, &mut orientation, &mut session, &mut vr, gp, 16);
    assert!(!session.is_paused());
}

#[test]
fn seek_intents_step_ten_seconds_and_clamp_at_zero() {
    let (mut ui, mut orientation, mut session, mut vr) = fresh();
    session.seek(2_000_000);
    // Seeking back from two seconds clamps at the start.
    ui.params.seek_backward_flag = true;
    advance_frame(&mut ui, &mut orientation, &mut session, &mut vr, no_actions(), 0);
    assert_eq!(session.get_position(), 0);
    // Seeking forward steps ten seconds.
    ui.params.seek_forward_flag = true;
    advance_frame(&mut ui, &mut orientation, &mut session, &mut vr, no_actions(), 16);
    assert_eq!(session.get_position(), 10_000_000);
}

#[test]
fn vr_exit_intent_and_gamepad_toggle() {
    let (mut ui, mut orientation, mut session, mut vr) = fresh();
    ui.params.vr_exit_requested = true;
    advance_frame(&mut ui, &mut orientation, &mut session, &mut vr, no_actions(), 0);
    assert!(!vr);
    assert!(!ui.params.vr_exit_requested);
    let mut gp = no_actions();
    gp.toggle_vr_mode = true;
    advance_frame(&mut ui, &mut orientation, &mut session, &mut vr, gp, 16);
    assert!(vr);
}

#[test]
fn pick_video_intent_becomes_a_host_action() {
    let (mut ui, mut orientation, mut session, mut vr) = fresh();
    ui.params.select_video_flag = true;
    let (actions, _) = advance_frame(&mut ui, &mut orientation, &mut session, &mut vr, no_actions(), 0);
    assert!(actions.pick_video);
    assert!(!ui.params.select_video_flag);
    let (again, _) = advance_frame(&mut ui, &mut orientation, &mut session, &mut vr, no_actions(), 16);
    assert!(!again.pick_video);
}

#[test]
fn zoom_triggers_step_and_clamp_content_scale() {
    let (mut ui, mut orientation, mut session, mut vr) = fresh();
    let mut gp = no_actions();
    gp.zoom_in = true;
    advance_frame(&mut ui, &mut orientation, &mut session, &mut vr, gp, 0);
    assert_eq!(ui.params.content_scale, 10_200);
    // Held long enough, the scale saturates at 3.0.
    for _ in 0..200 {
        advance_frame(&mut ui, &mut orientation, &mut session, &mut vr, gp, 0);
    }
    assert_eq!(ui.params.content_scale, 30_000);
    let mut out = no_actions();
    out.zoom_out = true;
    for _ in 0..300 {
        advance_frame(&mut ui, &mut orientation, &mut session, &mut vr, out, 0);
    }
    assert_eq!(ui.params.content_scale, 5_000);
}

#[test]
fn browser_opens_navigates_and_starts_playback() {
    let (mut ui, mut orientation, mut session, mut vr) = fresh();
    // Open the browser with the picker button; it asks for a listing.
    let mut open = no_actions();
    open.open_file_picker = true;
    advance_frame(&mut ui, &mut orientation, &mut session, &mut vr, open, 0);
    assert!(ui.file_browser.visible);
    assert!(ui.file_browser.needs_refresh);
    ui.file_browser.apply_listing(vec![
        FileEntry { name: String::from("a.mp4"), is_dir: false },
        FileEntry { name: String::from("b.mp4"), is_dir: false },
    ]);
    // Navigate down and select with the play button.
    let mut nav = no_actions();
    nav.nav_down = true;
    advance_frame(&mut ui, &mut orientation, &mut session, &mut vr, nav, 16);
    let mut select = no_actions();
    select.play_pause = true;
    let (actions, inputs) = advance_frame(&mut ui, &mut orientation, &mut session, &mut vr, select, 32);
    // The chosen file comes back as a host action, the old session is
    // stopped first, and no stale frame leaks into this frame's render.
    let path = actions.start_playback.expect("a file was chosen");
    assert_eq!(path.last().map(|c| c.as_str()), Some("b.mp4"));
    assert!(!session.is_running());
    assert!(inputs.frame.is_none());
    assert!(!ui.file_browser.visible);
}

#[test]
fn browser_close_and_menu_dismiss() {
    let (mut ui, mut orientation, mut session, mut vr) = fresh();
    let mut open = no_actions();
    open.open_file_picker = true;
    advance_frame(&mut ui, &mut orientation, &mut session, &mut vr, open, 0);
    assert!(ui.file_browser.visible);
    // The menu button closes the browser while it is open.
    let mut close = no_actions();
    close.toggle_ui = true;
    advance_frame(&mut ui, &mut orientation, &mut session, &mut vr, close, 16);
    assert!(!ui.file_browser.visible);
    // The menu-toggle press also flipped the menu button away; a tap
    // brings it back.
    assert!(!ui.is_hamburger_visible());
    ui.show_hamburger(20);
    // Outside the browser, a back press dismisses the visible menu.
    let mut back = no_actions();
    back.back = true;
    advance_frame(&mut ui, &mut orientation, &mut session, &mut vr, back, 32);
    assert!(!ui.is_hamburger_visible());
}

#[test]
fn decoded_frames_reach_the_render_inputs_once() {
    let (mut ui, mut orientation, mut session, mut vr) = fresh();
    let plane: Vec<u8> = vec![6u8; 640 * 360 * 3 / 2];
    session.on_output(100, &plane, 0);
    let (_, inputs) = advance_frame(&mut ui, &mut orientation, &mut session, &mut vr, no_actions(), 0);
    let (y, _, w, h) = inputs.frame.expect("the fresh frame is delivered");
    assert_eq!((w, h), (640, 360));
    assert_eq!(y.len(), 640 * 360);
    // Without a new decode the next frame has nothing to upload.
    let (_, second) = advance_frame(&mut ui, &mut orientation, &mut session, &mut vr, no_actions(), 16);
    assert!(second.frame.is_none());
}

#[test]
fn tap_enters_vr_only_in_the_upper_band() {
    assert!(tap_enters_vr(false, 100, 1000));
    assert!(!tap_enters_vr(false, 700, 1000));
    assert!(tap_enters_vr(false, 699, 1000));
    assert!(!tap_enters_vr(true, 100, 1000));
}

#[test]
fn isqrt_exact_bounds() {
    assert_eq!(isqrt(0), 0);
    assert_eq!(isqrt(1), 1);
    assert_eq!(isqrt(3), 1);
    assert_eq!(isqrt(4), 2);
    assert_eq!(isqrt(99), 9);
    assert_eq!(isqrt(100_000_000), 10_000);
    assert_eq!(isqrt(u64::MAX), 4_294_967_295);
}

#[test]
fn pinch_scales_by_distance_ratio() {
    // Doubling the finger distance (quadrupling its square) doubles the
    // content scale.
    assert_eq!(pinch_scale(10_000, 100, 400), 20_000);
    // Halving it halves the scale.
    assert_eq!(pinch_scale(10_000, 400, 100), 5_000);
    // Clamped at both ends of the slider range.
    assert_eq!(pinch_scale(20_000, 100, 1_000_000), 30_000);
    assert_eq!(pinch_scale(10_000, 1_000_000, 100), 5_000);
}

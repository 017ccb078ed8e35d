use vr_core::gamepad::BUTTON_A;
use vr_core::gamepad::BUTTON_L1;
use vr_core::gamepad::BUTTON_R2;
use vr_core::gamepad::DPAD_RIGHT;
use vr_core::gamepad::GamepadReader;
use vr_core::gamepad::GamepadState;
use vr_core::gamepad::get_hat_state;
use vr_core::gamepad::handle_axis;
use vr_core::gamepad::handle_button;
use vr_core::gamepad::set_hat_state;
use vr_core::gamepad::poll_actions;
use vr_core::input::InputState;
use vr_core::input::KeyInput;
use vr_core::input::PadAxis;
use vr_core::input::PadButton;
use vr_core::input::PadEvent;
use vr_core::orchestrator::VolumeAction;
use vr_core::orchestrator::handle_platform_key;
use vr_core::ui_state::VrParams;
use vr_core::ui_state::VrUi;
use vr_core::video::VideoManager;
use vr_core::video::get_pending_fd;
use vr_core::window_manager::Vec3Fixed;
use vr_core::window_manager::WindowManager;

#[test]
fn button_table_maps_codes() {
    let mut s = GamepadState::new();
    handle_button(&mut s, BUTTON_A, true);
    assert!(s.btn_south);
    handle_button(&mut s, BUTTON_L1, true);
    assert!(s.btn_l1);
    handle_button(&mut s, BUTTON_A, false);
    assert!(!s.btn_south);
    // Unknown codes change nothing.
    let before = s;
    handle_button(&mut s, 1234, true);
    assert_eq!(s, before);
}

#[test]
fn actions_fire_on_press_edges_only() {
    let mut reader = GamepadReader::new();
    reader.handle_button(BUTTON_A, true);
    let first = reader.poll_actions();
    assert!(first.play_pause);
    // Held across the next frame: the edge fired already.
    let second = reader.poll_actions();
    assert!(!second.play_pause);
    // Release and press again: a fresh edge.
    reader.handle_button(BUTTON_A, false);
    let third = reader.poll_actions();
    assert!(!third.play_pause);
    reader.handle_button(BUTTON_A, true);
    let fourth = reader.poll_actions();
    assert!(fourth.play_pause);
}

#[test]
fn zoom_is_level_triggered() {
    let mut current = GamepadState::new();
    let mut prev = GamepadState::new();
    handle_button(&mut current, BUTTON_R2, true);
    let a1 = poll_actions(&current, &mut prev);
    let a2 = poll_actions(&current, &mut prev);
    // Zoom stays live while the trigger is held, unlike the one-shots.
    assert!(a1.zoom_in && a2.zoom_in);
}

#[test]
fn axis_report_is_stored() {
    let mut s = GamepadState::new();
    handle_axis(&mut s, 10, -20, 30, -40, 500, 600);
    assert_eq!(
        (s.left_stick_x, s.left_stick_y, s.right_stick_x, s.right_stick_y),
        (10, -20, 30, -40),
    );
    assert_eq!((s.l2_trigger, s.r2_trigger), (500, 600));
}

#[test]
fn hat_axes_are_stored_and_read_back() {
    let mut s = GamepadState::new();
    assert_eq!(get_hat_state(&s), (0, 0));
    set_hat_state(&mut s, -1000, 1000);
    assert_eq!(get_hat_state(&s), (-1000, 1000));
}

#[test]
fn platform_keys_raise_volume_nudges_on_press() {
    let mut reader = GamepadReader::new();
    assert_eq!(handle_platform_key(&mut reader, BUTTON_L1, true), VolumeAction::VolumeDown);
    assert!(reader.state.btn_l1);
    assert_eq!(handle_platform_key(&mut reader, BUTTON_L1, false), VolumeAction::KeepVolume);
    assert_eq!(handle_platform_key(&mut reader, DPAD_RIGHT, true), VolumeAction::VolumeUp);
    assert_eq!(handle_platform_key(&mut reader, BUTTON_A, true), VolumeAction::KeepVolume);
}

#[test]
fn input_state_applies_deadzone_and_inversion() {
    let mut input = InputState::new();
    let events = vec![
        PadEvent::AxisChanged(PadAxis::LeftStickX, 50),  // inside the dead zone
        PadEvent::AxisChanged(PadAxis::LeftStickY, 400),  // inverted
        PadEvent::AxisChanged(PadAxis::RightStickX, 500),
        PadEvent::ButtonPressed(PadButton::South),
    ];
    input.update(&events);
    assert_eq!(input.left_stick_x, 0);
    assert_eq!(input.left_stick_y, -400);
    assert_eq!(input.right_stick_x, 500);
    assert!(input.play_pause);
    // The cursor advanced by one fiftieth of the right stick.
    assert_eq!(input.cursor_x, 10);
    assert_eq!(input.cursor_y, 0);
}

#[test]
fn cursor_clamps_to_unit_square() {
    let mut input = InputState::new();
    let events = vec![PadEvent::AxisChanged(PadAxis::RightStickX, 1000)];
    for _ in 0..60 {
        input.update(&events);
    }
    assert_eq!(input.cursor_x, 1000);
}

#[test]
fn keyboard_maps_to_playback_actions() {
    let mut input = InputState::new();
    input.handle_keyboard_input(KeyInput::Space, true);
    assert!(input.play_pause);
    input.handle_keyboard_input(KeyInput::ArrowRight, true);
    assert!(input.seek_forward);
    input.handle_keyboard_input(KeyInput::Escape, true);
    assert!(input.menu_action);
    input.handle_keyboard_input(KeyInput::Other, true);
    input.handle_keyboard_input(KeyInput::Space, false);
    assert!(!input.play_pause);
}

#[test]
fn vr_params_defaults() {
    let p = VrParams::default();
    assert_eq!(p.lens_radius, 10_000);
    assert_eq!(p.lens_center_offset, 0);
    assert_eq!(p.content_scale, 10_000);
    assert!(p.gyro_enabled);
    assert!(!p.recenter_flag && !p.select_video_flag && !p.vr_exit_requested);
    assert!(!p.toggle_play_pause && !p.seek_forward_flag && !p.seek_backward_flag);
}

#[test]
fn menu_button_auto_hides_after_three_seconds() {
    let mut ui = VrUi::new(1_000);
    assert!(ui.is_hamburger_visible());
    ui.update_auto_hide(3_999);
    assert!(ui.is_hamburger_visible());
    ui.update_auto_hide(4_000);
    assert!(!ui.is_hamburger_visible());
    // A tap brings it back and restarts the clock.
    ui.show_hamburger(10_000);
    assert!(ui.is_hamburger_visible());
    ui.update_auto_hide(12_999);
    assert!(ui.is_hamburger_visible());
    ui.toggle_hamburger(13_000);
    assert!(!ui.is_hamburger_visible());
}

#[test]
fn pending_fd_is_claimed_exactly_once() {
    let mut slot: i32 = 37;
    assert_eq!(get_pending_fd(&mut slot), Some(37));
    assert_eq!(slot, -1);
    assert_eq!(get_pending_fd(&mut slot), None);
    let mut empty: i32 = -1;
    assert_eq!(get_pending_fd(&mut empty), None);
}

#[test]
fn platform_frames_need_bytes() {
    assert!(VideoManager::frame_from_parts(Vec::new(), 640, 360).is_none());
    let f = VideoManager::frame_from_parts(vec![1, 2, 3], 640, 360).unwrap();
    assert_eq!((f.width, f.height), (640, 360));
    assert_eq!(f.data, vec![1, 2, 3]);
}

#[test]
fn panels_spawn_move_scale_and_close() {
    let mut wm = WindowManager::new();
    let dock = wm.spawn_dock();
    let web = wm.spawn_browser("about:blank", Vec3Fixed { x: 0, y: 0, z: -15_000 });
    assert_eq!((dock, web), (0, 1));
    assert_eq!(wm.focused_panel, Some(web));
    assert_eq!(wm.panels().len(), 2);

    wm.move_panel(web, Vec3Fixed { x: 5_000, y: 0, z: 0 });
    assert_eq!(wm.panels()[1].position, Vec3Fixed { x: 5_000, y: 0, z: -15_000 });

    // Scaling by 10x clamps at the 3.0 ceiling; the tiny depth clamps
    // at the 0.3 floor.
    wm.scale_panel(web, 100_000);
    assert_eq!(wm.panels()[1].scale.x, 30_000);
    assert_eq!(wm.panels()[1].scale.z, 3_000);

    // Closing the focused panel moves focus to the first remaining one.
    wm.close_panel(web);
    assert_eq!(wm.panels().len(), 1);
    assert_eq!(wm.focused_panel, Some(dock));
    wm.close_panel(dock);
    assert_eq!(wm.focused_panel, None);
}

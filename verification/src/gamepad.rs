//! Gamepad input: raw button/axis state and the one-shot actions the
//! application consumes.
//!
//! Button events arrive as platform key codes; a single mapping keeps
//! the raw state current, and once per frame the edge detector turns it
//! into high-level actions that fire exactly on a press (zoom is the
//! exception: it is live while the trigger is held). Stick and trigger
//! axes are kept in thousandths of the platform's unit range.

use vstd::prelude::*;

verus! {

pub const BUTTON_A: i32 = 96;

pub const BUTTON_B: i32 = 97;

pub const BUTTON_X: i32 = 99;

pub const BUTTON_Y: i32 = 100;

pub const BUTTON_L1: i32 = 102;

pub const BUTTON_R1: i32 = 103;

pub const BUTTON_L2: i32 = 104;

pub const BUTTON_R2: i32 = 105;

pub const BUTTON_THUMBL: i32 = 106;

pub const BUTTON_THUMBR: i32 = 107;

pub const BUTTON_START: i32 = 108;

pub const BUTTON_SELECT: i32 = 109;

pub const BUTTON_MODE: i32 = 110;

pub const DPAD_UP: i32 = 19;

pub const DPAD_DOWN: i32 = 20;

pub const DPAD_LEFT: i32 = 21;

pub const DPAD_RIGHT: i32 = 22;

/// Raw gamepad state: button levels plus stick/trigger axes in
/// thousandths.
#[derive(Clone, Copy, PartialEq, Eq, Structural, Debug)]
pub struct GamepadState {
    pub btn_south: bool,
    pub btn_east: bool,
    pub btn_north: bool,
    pub btn_west: bool,
    pub btn_l1: bool,
    pub btn_r1: bool,
    pub btn_l2: bool,
    pub btn_r2: bool,
    pub btn_select: bool,
    pub btn_start: bool,
    pub btn_mode: bool,
    pub btn_thumbl: bool,
    pub btn_thumbr: bool,
    pub btn_dpad_up: bool,
    pub btn_dpad_down: bool,
    pub btn_dpad_left: bool,
    pub btn_dpad_right: bool,
    pub left_stick_x: i32,
    pub left_stick_y: i32,
    pub right_stick_x: i32,
    pub right_stick_y: i32,
    pub l2_trigger: i32,
    pub r2_trigger: i32,
    /// Directional-pad hat axes (thousandths), delivered separately by
    /// some platforms.
    pub hat_x: i32,
    pub hat_y: i32,
}

impl GamepadState {
    /// All buttons up, all axes centered.
    pub fn new() -> (s: GamepadState)
        ensures
            s == spec_gamepad_default(),
    {
        GamepadState {
            btn_south: false,
            btn_east: false,
            btn_north: false,
            btn_west: false,
            btn_l1: false,
            btn_r1: false,
            btn_l2: false,
            btn_r2: false,
            btn_select: false,
            btn_start: false,
            btn_mode: false,
            btn_thumbl: false,
            btn_thumbr: false,
            btn_dpad_up: false,
            btn_dpad_down: false,
            btn_dpad_left: false,
            btn_dpad_right: false,
            left_stick_x: 0,
            left_stick_y: 0,
            right_stick_x: 0,
            right_stick_y: 0,
            l2_trigger: 0,
            r2_trigger: 0,
            hat_x: 0,
            hat_y: 0,
        }
    }
}

/// The state with every control released.
pub open spec fn spec_gamepad_default() -> GamepadState {
    GamepadState {
        btn_south: false,
        btn_east: false,
        btn_north: false,
        btn_west: false,
        btn_l1: false,
        btn_r1: false,
        btn_l2: false,
        btn_r2: false,
        btn_select: false,
        btn_start: false,
        btn_mode: false,
        btn_thumbl: false,
        btn_thumbr: false,
        btn_dpad_up: false,
        btn_dpad_down: false,
        btn_dpad_left: false,
        btn_dpad_right: false,
        left_stick_x: 0i32,
        left_stick_y: 0i32,
        right_stick_x: 0i32,
        right_stick_y: 0i32,
        l2_trigger: 0i32,
        r2_trigger: 0i32,
        hat_x: 0i32,
        hat_y: 0i32,
    }
}

/// The raw state after one button event: the single lookup from a
/// platform key code to the logical button it sets, shared by every
/// input source; an unknown code changes nothing.
pub open spec fn spec_handle_button(s: GamepadState, key_code: i32, pressed: bool) -> GamepadState {
    if key_code == BUTTON_A {
        GamepadState { btn_south: pressed, ..s }
    } else if key_code == BUTTON_B {
        GamepadState { btn_east: pressed, ..s }
    } else if key_code == BUTTON_X {
        GamepadState { btn_west: pressed, ..s }
    } else if key_code == BUTTON_Y {
        GamepadState { btn_north: pressed, ..s }
    } else if key_code == BUTTON_L1 {
        GamepadState { btn_l1: pressed, ..s }
    } else if key_code == BUTTON_R1 {
        GamepadState { btn_r1: pressed, ..s }
    } else if key_code == BUTTON_L2 {
        GamepadState { btn_l2: pressed, ..s }
    } else if key_code == BUTTON_R2 {
        GamepadState { btn_r2: pressed, ..s }
    } else if key_code == BUTTON_THUMBL {
        GamepadState { btn_thumbl: pressed, ..s }
    } else if key_code == BUTTON_THUMBR {
        GamepadState { btn_thumbr: pressed, ..s }
    } else if key_code == BUTTON_START {
        GamepadState { btn_start: pressed, ..s }
    } else if key_code == BUTTON_SELECT {
        GamepadState { btn_select: pressed, ..s }
    } else if key_code == BUTTON_MODE {
        GamepadState { btn_mode: pressed, ..s }
    } else if key_code == DPAD_UP {
        GamepadState { btn_dpad_up: pressed, ..s }
    } else if key_code == DPAD_DOWN {
        GamepadState { btn_dpad_down: pressed, ..s }
    } else if key_code == DPAD_LEFT {
        GamepadState { btn_dpad_left: pressed, ..s }
    } else if key_code == DPAD_RIGHT {
        GamepadState { btn_dpad_right: pressed, ..s }
    } else {
        s
    }
}

/// Apply one button event from the platform to the raw state.
pub fn handle_button(state: &mut GamepadState, key_code: i32, pressed: bool)
    ensures
        *final(state) == spec_handle_button(*old(state), key_code, pressed),
{
    if key_code == BUTTON_A {
        state.btn_south = pressed;
    } else if key_code == BUTTON_B {
        state.btn_east = pressed;
    } else if key_code == BUTTON_X {
        state.btn_west = pressed;
    } else if key_code == BUTTON_Y {
        state.btn_north = pressed;
    } else if key_code == BUTTON_L1 {
        state.btn_l1 = pressed;
    } else if key_code == BUTTON_R1 {
        state.btn_r1 = pressed;
    } else if key_code == BUTTON_L2 {
        state.btn_l2 = pressed;
    } else if key_code == BUTTON_R2 {
        state.btn_r2 = pressed;
    } else if key_code == BUTTON_THUMBL {
        state.btn_thumbl = pressed;
    } else if key_code == BUTTON_THUMBR {
        state.btn_thumbr = pressed;
    } else if key_code == BUTTON_START {
        state.btn_start = pressed;
    } else if key_code == BUTTON_SELECT {
        state.btn_select = pressed;
    } else if key_code == BUTTON_MODE {
        state.btn_mode = pressed;
    } else if key_code == DPAD_UP {
        state.btn_dpad_up = pressed;
    } else if key_code == DPAD_DOWN {
        state.btn_dpad_down = pressed;
    } else if key_code == DPAD_LEFT {
        state.btn_dpad_left = pressed;
    } else if key_code == DPAD_RIGHT {
        state.btn_dpad_right = pressed;
    }
}

/// Apply one axis report from the platform (thousandths).
pub fn handle_axis(
    state: &mut GamepadState,
    left_x: i32,
    left_y: i32,
    right_x: i32,
    right_y: i32,
    l2: i32,
    r2: i32,
)
    ensures
        *final(state) == (GamepadState {
            left_stick_x: left_x,
            left_stick_y: left_y,
            right_stick_x: right_x,
            right_stick_y: right_y,
            l2_trigger: l2,
            r2_trigger: r2,
            ..*old(state)
        }),
{
    state.left_stick_x = left_x;
    state.left_stick_y = left_y;
    state.right_stick_x = right_x;
    state.right_stick_y = right_y;
    state.l2_trigger = l2;
    state.r2_trigger = r2;
}

/// Record a directional-pad hat report.
pub fn set_hat_state(state: &mut GamepadState, hat_x: i32, hat_y: i32)
    ensures
        *final(state) == (GamepadState { hat_x, hat_y, ..*old(state) }),
{
    state.hat_x = hat_x;
    state.hat_y = hat_y;
}

/// Read the current directional-pad hat axes.
pub fn get_hat_state(state: &GamepadState) -> (r: (i32, i32))
    ensures
        r == (state.hat_x, state.hat_y),
{
    (state.hat_x, state.hat_y)
}

/// High-level one-shot actions derived from the gamepad once per frame.
#[derive(Clone, Copy, PartialEq, Eq, Structural, Debug)]
pub struct GamepadActions {
    pub play_pause: bool,
    pub seek_back: bool,
    pub seek_forward: bool,
    pub toggle_ui: bool,
    pub confirm: bool,
    pub back: bool,
    pub reset_view: bool,
    pub toggle_vr_mode: bool,
    pub open_settings: bool,
    pub open_file_picker: bool,
    pub exit_app: bool,
    pub zoom_in: bool,
    pub zoom_out: bool,
    pub nav_up: bool,
    pub nav_down: bool,
}

/// The actions raised between two samples of the raw state: each fires
/// on the rising edge of its button, except zoom, which is live while
/// the trigger is held.
pub open spec fn spec_actions(current: GamepadState, prev: GamepadState) -> GamepadActions {
    GamepadActions {
        play_pause: current.btn_south && !prev.btn_south,
        seek_back: current.btn_l1 && !prev.btn_l1,
        seek_forward: current.btn_r1 && !prev.btn_r1,
        toggle_ui: current.btn_north && !prev.btn_north,
        confirm: current.btn_west && !prev.btn_west,
        back: current.btn_east && !prev.btn_east,
        reset_view: current.btn_thumbl && !prev.btn_thumbl,
        toggle_vr_mode: current.btn_thumbr && !prev.btn_thumbr,
        open_settings: current.btn_start && !prev.btn_start,
        open_file_picker: current.btn_select && !prev.btn_select,
        exit_app: current.btn_mode && !prev.btn_mode,
        zoom_in: current.btn_r2,
        zoom_out: current.btn_l2,
        nav_up: current.btn_dpad_up && !prev.btn_dpad_up,
        nav_down: current.btn_dpad_down && !prev.btn_dpad_down,
    }
}

/// No action fires between two identical samples: polling twice without
/// an intervening button event yields nothing (held triggers excepted,
/// since zoom is level-triggered by design).
pub proof fn lemma_actions_fire_once(s: GamepadState)
    ensures
        ({
            let a = spec_actions(s, s);
            &&& !a.play_pause
            &&& !a.seek_back
            &&& !a.seek_forward
            &&& !a.toggle_ui
            &&& !a.confirm
            &&& !a.back
            &&& !a.reset_view
            &&& !a.toggle_vr_mode
            &&& !a.open_settings
            &&& !a.open_file_picker
            &&& !a.exit_app
            &&& !a.nav_up
            &&& !a.nav_down
        }),
{
}

/// Compute this frame's one-shot actions from the current raw state and
/// the previous frame's sample, and remember the current state as the
/// new previous sample (so a held button fires exactly once).
pub fn poll_actions(current: &GamepadState, prev: &mut GamepadState) -> (actions: GamepadActions)
    ensures
        actions == spec_actions(*current, *old(prev)),
        *final(prev) == *current,
{
    let actions = GamepadActions {
        play_pause: current.btn_south && !prev.btn_south,
        seek_back: current.btn_l1 && !prev.btn_l1,
        seek_forward: current.btn_r1 && !prev.btn_r1,
        toggle_ui: current.btn_north && !prev.btn_north,
        confirm: current.btn_west && !prev.btn_west,
        back: current.btn_east && !prev.btn_east,
        reset_view: current.btn_thumbl && !prev.btn_thumbl,
        toggle_vr_mode: current.btn_thumbr && !prev.btn_thumbr,
        open_settings: current.btn_start && !prev.btn_start,
        open_file_picker: current.btn_select && !prev.btn_select,
        exit_app: current.btn_mode && !prev.btn_mode,
        zoom_in: current.btn_r2,
        zoom_out: current.btn_l2,
        nav_up: current.btn_dpad_up && !prev.btn_dpad_up,
        nav_down: current.btn_dpad_down && !prev.btn_dpad_down,
    };
    *prev = *current;
    actions
}

/// Owner of the raw state and the edge detector's memory.
pub struct GamepadReader {
    pub state: GamepadState,
    pub prev: GamepadState,
}

impl GamepadReader {
    /// A reader with everything released.
    pub fn new() -> (r: GamepadReader)
        ensures
            r.state == spec_gamepad_default(),
            r.prev == spec_gamepad_default(),
    {
        GamepadReader { state: GamepadState::new(), prev: GamepadState::new() }
    }

    /// Apply one button event.
    pub fn handle_button(&mut self, key_code: i32, pressed: bool)
        ensures
            final(self).state == spec_handle_button(old(self).state, key_code, pressed),
            final(self).prev == old(self).prev,
    {
        handle_button(&mut self.state, key_code, pressed);
    }

    /// The current raw state.
    pub fn get_state(&self) -> (s: GamepadState)
        ensures
            s == self.state,
    {
        self.state
    }

    /// This frame's one-shot actions; call once per frame.
    pub fn poll_actions(&mut self) -> (actions: GamepadActions)
        ensures
            actions == spec_actions(old(self).state, old(self).prev),
            final(self).prev == old(self).state,
            final(self).state == old(self).state,
    {
        let s = self.state;
        poll_actions(&s, &mut self.prev)
    }
}

} // verus!

//! Controller and keyboard input state for cursor interaction.
//!
//! The platform layer polls its input backend and hands the events over
//! as plain values; this module applies them — button levels, stick axes
//! with a dead zone, and the cursor that the right stick drives — so
//! every physical source (touch, gamepad, keyboard) feeds one state.
//! Axis values are thousandths of the unit range.

use vstd::prelude::*;

verus! {

/// Stick values closer to center than this are treated as zero.
pub const AXIS_DEADZONE: i32 = 100;

/// Magnitude bound on accepted axis values.
pub const AXIS_BOUND: i32 = 100000;

/// Cursor coordinates stay in the unit square (thousandths).
pub const CURSOR_BOUND: i64 = 1000;

/// The gamepad buttons this state reacts to.
#[derive(Clone, Copy, PartialEq, Eq, Structural, Debug)]
pub enum PadButton {
    South,
    West,
    East,
    Start,
    RightTrigger,
    RightTrigger2,
    LeftTrigger2,
    Other,
}

/// The gamepad axes this state reacts to.
#[derive(Clone, Copy, PartialEq, Eq, Structural, Debug)]
pub enum PadAxis {
    LeftStickX,
    LeftStickY,
    RightStickX,
    RightStickY,
    Other,
}

/// One event from the input backend.
#[derive(Clone, Copy, PartialEq, Eq, Structural, Debug)]
pub enum PadEvent {
    ButtonPressed(PadButton),
    ButtonReleased(PadButton),
    AxisChanged(PadAxis, i32),
    Other,
}

/// The keyboard keys this state reacts to.
#[derive(Clone, Copy, PartialEq, Eq, Structural, Debug)]
pub enum KeyInput {
    Space,
    Enter,
    Escape,
    ArrowRight,
    ArrowLeft,
    Other,
}

/// Controller state for cursor and playback interaction.
pub struct InputState {
    /// Cursor position in the unit square, thousandths.
    pub cursor_x: i64,
    pub cursor_y: i64,
    pub left_stick_x: i32,
    pub left_stick_y: i32,
    pub right_stick_x: i32,
    pub right_stick_y: i32,
    pub primary_action: bool,
    pub secondary_action: bool,
    pub menu_action: bool,
    pub play_pause: bool,
    pub seek_forward: bool,
    pub seek_backward: bool,
    pub zoom: bool,
}

/// The state after one button event.
pub open spec fn spec_pad_button(s: InputState, b: PadButton, pressed: bool) -> InputState {
    match b {
        PadButton::South => InputState { play_pause: pressed, ..s },
        PadButton::West => InputState { primary_action: pressed, ..s },
        PadButton::East => InputState { secondary_action: pressed, ..s },
        PadButton::Start => InputState { menu_action: pressed, ..s },
        PadButton::RightTrigger2 => InputState { seek_forward: pressed, ..s },
        PadButton::LeftTrigger2 => InputState { seek_backward: pressed, ..s },
        PadButton::RightTrigger => InputState { zoom: pressed, ..s },
        PadButton::Other => s,
    }
}

/// An axis value with the dead zone applied.
pub open spec fn spec_deadzone(v: i32) -> i32 {
    if -AXIS_DEADZONE < v < AXIS_DEADZONE {
        0i32
    } else {
        v
    }
}

/// The state after one axis event; vertical axes arrive inverted from
/// the backend and are negated here.
pub open spec fn spec_pad_axis(s: InputState, a: PadAxis, v: i32) -> InputState {
    let dz = spec_deadzone(v);
    match a {
        PadAxis::LeftStickX => InputState { left_stick_x: dz, ..s },
        PadAxis::LeftStickY => InputState { left_stick_y: (-dz) as i32, ..s },
        PadAxis::RightStickX => InputState { right_stick_x: dz, ..s },
        PadAxis::RightStickY => InputState { right_stick_y: (-dz) as i32, ..s },
        PadAxis::Other => s,
    }
}

/// The state after one event of any kind.
pub open spec fn spec_pad_event(s: InputState, e: PadEvent) -> InputState {
    match e {
        PadEvent::ButtonPressed(b) => spec_pad_button(s, b, true),
        PadEvent::ButtonReleased(b) => spec_pad_button(s, b, false),
        PadEvent::AxisChanged(a, v) => spec_pad_axis(s, a, v),
        PadEvent::Other => s,
    }
}

/// The state after a batch of events, applied in order.
pub open spec fn spec_pad_events(s: InputState, evs: Seq<PadEvent>) -> InputState
    decreases evs.len(),
{
    if evs.len() == 0 {
        s
    } else {
        spec_pad_event(spec_pad_events(s, evs.drop_last()), evs.last())
    }
}

/// A cursor coordinate held in the unit square.
pub open spec fn spec_clamp_cursor(v: int) -> int {
    if v > CURSOR_BOUND {
        CURSOR_BOUND as int
    } else if v < -CURSOR_BOUND {
        -CURSOR_BOUND as int
    } else {
        v
    }
}

/// One fiftieth of a stick value, truncated toward zero: the distance
/// the cursor moves per frame at full deflection is 0.02 of the range.
pub open spec fn spec_cursor_step(v: i32) -> int {
    if v >= 0 {
        v / 50
    } else {
        -((-v) / 50)
    }
}

impl InputState {
    /// Axis values inside the accepted bound.
    pub open spec fn wf(self) -> bool {
        &&& -CURSOR_BOUND <= self.cursor_x <= CURSOR_BOUND
        &&& -CURSOR_BOUND <= self.cursor_y <= CURSOR_BOUND
        &&& -AXIS_BOUND <= self.left_stick_x <= AXIS_BOUND
        &&& -AXIS_BOUND <= self.left_stick_y <= AXIS_BOUND
        &&& -AXIS_BOUND <= self.right_stick_x <= AXIS_BOUND
        &&& -AXIS_BOUND <= self.right_stick_y <= AXIS_BOUND
    }

    /// Everything released, cursor centered.
    pub fn new() -> (s: InputState)
        ensures
            s.wf(),
            s.cursor_x == 0,
            s.cursor_y == 0,
            s.left_stick_x == 0,
            s.left_stick_y == 0,
            s.right_stick_x == 0,
            s.right_stick_y == 0,
            !s.primary_action,
            !s.secondary_action,
            !s.menu_action,
            !s.play_pause,
            !s.seek_forward,
            !s.seek_backward,
            !s.zoom,
    {
        InputState {
            cursor_x: 0,
            cursor_y: 0,
            left_stick_x: 0,
            left_stick_y: 0,
            right_stick_x: 0,
            right_stick_y: 0,
            primary_action: false,
            secondary_action: false,
            menu_action: false,
            play_pause: false,
            seek_forward: false,
            seek_backward: false,
            zoom: false,
        }
    }

    /// Apply one frame's worth of backend events in order, then advance
    /// the cursor by the right stick (clamped to the unit square).
    pub fn update(&mut self, events: &Vec<PadEvent>)
        requires
            old(self).wf(),
            forall|i: int|
                0 <= i < events@.len() ==> match #[trigger] events@[i] {
                    PadEvent::AxisChanged(_, v) => -AXIS_BOUND <= v <= AXIS_BOUND,
                    _ => true,
                },
        ensures
            final(self).wf(),
            ({
                let applied = spec_pad_events(*old(self), events@);
                *final(self) == (InputState {
                    cursor_x: spec_clamp_cursor(
                        applied.cursor_x + spec_cursor_step(applied.right_stick_x),
                    ) as i64,
                    cursor_y: spec_clamp_cursor(
                        applied.cursor_y + spec_cursor_step(applied.right_stick_y),
                    ) as i64,
                    ..applied
                })
            }),
    {
        let n = events.len();
        let mut i: usize = 0;
        proof {
            assert(events@.take(0) =~= Seq::<PadEvent>::empty());
        }
        while i < n
            invariant
                i <= n,
                n == events@.len(),
                *self == spec_pad_events(*old(self), events@.take(i as int)),
                old(self).wf(),
                self.wf(),
                forall|k: int|
                    0 <= k < events@.len() ==> match #[trigger] events@[k] {
                        PadEvent::AxisChanged(_, v) => -AXIS_BOUND <= v <= AXIS_BOUND,
                        _ => true,
                    },
            decreases n - i,
        {
            let e = events[i];
            proof {
                assert(events@.take(i + 1).drop_last() =~= events@.take(i as int));
                assert(events@.take(i + 1).last() == events@[i as int]);
            }
            match e {
                PadEvent::ButtonPressed(b) => self.apply_button(b, true),
                PadEvent::ButtonReleased(b) => self.apply_button(b, false),
                PadEvent::AxisChanged(a, v) => self.apply_axis(a, v),
                PadEvent::Other => {},
            }
            i = i + 1;
        }
        proof {
            assert(events@.take(n as int) =~= events@);
        }
        let sx: i64 = cursor_step(self.right_stick_x);
        let sy: i64 = cursor_step(self.right_stick_y);
        self.cursor_x = clamp_cursor(self.cursor_x + sx);
        self.cursor_y = clamp_cursor(self.cursor_y + sy);
    }

    /// Apply one button level change.
    fn apply_button(&mut self, b: PadButton, pressed: bool)
        ensures
            *final(self) == spec_pad_button(*old(self), b, pressed),
    {
        match b {
            PadButton::South => self.play_pause = pressed,
            PadButton::West => self.primary_action = pressed,
            PadButton::East => self.secondary_action = pressed,
            PadButton::Start => self.menu_action = pressed,
            PadButton::RightTrigger2 => self.seek_forward = pressed,
            PadButton::LeftTrigger2 => self.seek_backward = pressed,
            PadButton::RightTrigger => self.zoom = pressed,
            PadButton::Other => {},
        }
    }

    /// Apply one axis change with the dead zone.
    fn apply_axis(&mut self, a: PadAxis, v: i32)
        requires
            -AXIS_BOUND <= v <= AXIS_BOUND,
        ensures
            *final(self) == spec_pad_axis(*old(self), a, v),
    {
        let dz: i32 = if -AXIS_DEADZONE < v && v < AXIS_DEADZONE {
            0
        } else {
            v
        };
        match a {
            PadAxis::LeftStickX => self.left_stick_x = dz,
            PadAxis::LeftStickY => self.left_stick_y = -dz,
            PadAxis::RightStickX => self.right_stick_x = dz,
            PadAxis::RightStickY => self.right_stick_y = -dz,
            PadAxis::Other => {},
        }
    }

    /// Map a keyboard key to its playback action (space/enter toggle
    /// playback, escape opens the menu, arrows seek).
    pub fn handle_keyboard_input(&mut self, key: KeyInput, pressed: bool)
        ensures
            *final(self) == (match key {
                KeyInput::Space | KeyInput::Enter => InputState {
                    play_pause: pressed,
                    ..*old(self)
                },
                KeyInput::Escape => InputState { menu_action: pressed, ..*old(self) },
                KeyInput::ArrowRight => InputState { seek_forward: pressed, ..*old(self) },
                KeyInput::ArrowLeft => InputState { seek_backward: pressed, ..*old(self) },
                KeyInput::Other => *old(self),
            }),
    {
        match key {
            KeyInput::Space | KeyInput::Enter => self.play_pause = pressed,
            KeyInput::Escape => self.menu_action = pressed,
            KeyInput::ArrowRight => self.seek_forward = pressed,
            KeyInput::ArrowLeft => self.seek_backward = pressed,
            KeyInput::Other => {},
        }
    }
}

/// One fiftieth of a stick value, truncated toward zero.
fn cursor_step(v: i32) -> (r: i64)
    requires
        -AXIS_BOUND <= v <= AXIS_BOUND,
    ensures
        r == spec_cursor_step(v),
        -AXIS_BOUND <= r <= AXIS_BOUND,
{
    if v >= 0 {
        proof {
            vstd::arithmetic::div_mod::lemma_div_is_ordered(0, v as int, 50);
            vstd::arithmetic::div_mod::lemma_div_is_ordered(v as int, AXIS_BOUND as int, 50);
        }
        ((v / 50) as i64)
    } else {
        let m: i32 = -v;
        proof {
            vstd::arithmetic::div_mod::lemma_div_is_ordered(0, m as int, 50);
            vstd::arithmetic::div_mod::lemma_div_is_ordered(m as int, AXIS_BOUND as int, 50);
        }
        -((m / 50) as i64)
    }
}

/// Hold a cursor coordinate in the unit square.
fn clamp_cursor(v: i64) -> (r: i64)
    ensures
        r == spec_clamp_cursor(v as int),
{
    if v > CURSOR_BOUND {
        CURSOR_BOUND
    } else if v < -CURSOR_BOUND {
        -CURSOR_BOUND
    } else {
        v
    }
}

} // verus!

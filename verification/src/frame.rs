//! Per-video-frame snapshots and the gamepad state they embed.
//!
//! Analog gamepad values (stick deflections, trigger positions) are carried
//! in thousandths of the unit range.

use vstd::prelude::*;
use crate::geom::{Vec2, MAX_SAMPLES};
use crate::event::{wf_events, DeviceEvent, PadAxis, PadButton, PadEvent};

verus! {

/// The digital buttons of a gamepad.
#[derive(Clone, Copy, Debug, PartialEq, Eq, Structural, Default)]
pub struct Buttons {
    pub south: bool,
    pub north: bool,
    pub east: bool,
    pub west: bool,
    pub dpad_up: bool,
    pub dpad_down: bool,
    pub dpad_left: bool,
    pub dpad_right: bool,
    pub start: bool,
    pub select: bool,
    pub left_bumper: bool,
    pub right_bumper: bool,
}

/// The analog triggers, in thousandths of full travel.
#[derive(Clone, Copy, Debug, PartialEq, Eq, Structural, Default)]
pub struct Triggers {
    pub left_trigger: i32,
    pub right_trigger: i32,
}

/// One thumb stick: deflection in thousandths, plus its click state.
#[derive(Clone, Copy, Debug, PartialEq, Eq, Structural, Default)]
pub struct Stick {
    pub x: i32,
    pub y: i32,
    pub pressed: bool,
}

/// A full gamepad snapshot.
#[derive(Clone, Copy, Debug, PartialEq, Eq, Structural, Default)]
pub struct GamePad {
    pub buttons: Buttons,
    pub triggers: Triggers,
    pub left_stick: Stick,
    pub right_stick: Stick,
}

/// The snapshot that results from applying one raw controller event.
pub open spec fn pad_after(g: GamePad, e: PadEvent) -> GamePad {
    match e {
        PadEvent::ButtonPressed(b) => pad_with_button(g, b, true),
        PadEvent::ButtonReleased(b) => pad_with_button(g, b, false),
        PadEvent::ButtonChanged(b, value) => match b {
            PadButton::LeftTrigger => GamePad {
                triggers: Triggers { left_trigger: value, ..g.triggers },
                ..g
            },
            PadButton::RightTrigger => GamePad {
                triggers: Triggers { right_trigger: value, ..g.triggers },
                ..g
            },
            _ => g,
        },
        PadEvent::AxisChanged(a, value) => match a {
            PadAxis::LeftStickX => GamePad {
                left_stick: Stick { x: value, ..g.left_stick },
                ..g
            },
            PadAxis::LeftStickY => GamePad {
                left_stick: Stick { y: value, ..g.left_stick },
                ..g
            },
            PadAxis::RightStickX => GamePad {
                right_stick: Stick { x: value, ..g.right_stick },
                ..g
            },
            PadAxis::RightStickY => GamePad {
                right_stick: Stick { y: value, ..g.right_stick },
                ..g
            },
            PadAxis::Other => g,
        },
        _ => g,
    }
}

/// The snapshot with one digital button set to `down`.
pub open spec fn pad_with_button(g: GamePad, b: PadButton, down: bool) -> GamePad {
    match b {
        PadButton::South => GamePad { buttons: Buttons { south: down, ..g.buttons }, ..g },
        PadButton::North => GamePad { buttons: Buttons { north: down, ..g.buttons }, ..g },
        PadButton::East => GamePad { buttons: Buttons { east: down, ..g.buttons }, ..g },
        PadButton::West => GamePad { buttons: Buttons { west: down, ..g.buttons }, ..g },
        PadButton::DPadUp => GamePad { buttons: Buttons { dpad_up: down, ..g.buttons }, ..g },
        PadButton::DPadDown => GamePad { buttons: Buttons { dpad_down: down, ..g.buttons }, ..g },
        PadButton::DPadLeft => GamePad { buttons: Buttons { dpad_left: down, ..g.buttons }, ..g },
        PadButton::DPadRight => GamePad {
            buttons: Buttons { dpad_right: down, ..g.buttons },
            ..g
        },
        PadButton::Start => GamePad { buttons: Buttons { start: down, ..g.buttons }, ..g },
        PadButton::Select => GamePad { buttons: Buttons { select: down, ..g.buttons }, ..g },
        PadButton::LeftBumper => GamePad {
            buttons: Buttons { left_bumper: down, ..g.buttons },
            ..g
        },
        PadButton::RightBumper => GamePad {
            buttons: Buttons { right_bumper: down, ..g.buttons },
            ..g
        },
        PadButton::LeftThumb => GamePad {
            left_stick: Stick { pressed: down, ..g.left_stick },
            ..g
        },
        PadButton::RightThumb => GamePad {
            right_stick: Stick { pressed: down, ..g.right_stick },
            ..g
        },
        _ => g,
    }
}

impl GamePad {
    /// Apply one raw controller event to this snapshot.
    pub fn apply(&mut self, e: PadEvent)
        ensures
            *final(self) == pad_after(*old(self), e),
    {
        let g = *self;
        match e {
            PadEvent::ButtonPressed(b) => self.set_button(b, true),
            PadEvent::ButtonReleased(b) => self.set_button(b, false),
            PadEvent::ButtonChanged(b, value) => match b {
                PadButton::LeftTrigger => {
                    *self = GamePad {
                        triggers: Triggers { left_trigger: value, ..g.triggers },
                        ..g
                    };
                },
                PadButton::RightTrigger => {
                    *self = GamePad {
                        triggers: Triggers { right_trigger: value, ..g.triggers },
                        ..g
                    };
                },
                _ => {},
            },
            PadEvent::AxisChanged(a, value) => match a {
                PadAxis::LeftStickX => {
                    *self = GamePad { left_stick: Stick { x: value, ..g.left_stick }, ..g };
                },
                PadAxis::LeftStickY => {
                    *self = GamePad { left_stick: Stick { y: value, ..g.left_stick }, ..g };
                },
                PadAxis::RightStickX => {
                    *self = GamePad { right_stick: Stick { x: value, ..g.right_stick }, ..g };
                },
                PadAxis::RightStickY => {
                    *self = GamePad { right_stick: Stick { y: value, ..g.right_stick }, ..g };
                },
                PadAxis::Other => {},
            },
            _ => {},
        }
    }

    #[verifier::rlimit(30)]
    fn set_button(&mut self, b: PadButton, down: bool)
        ensures
            *final(self) == pad_with_button(*old(self), b, down),
    {
        let g = *self;
        *self = match b {
            PadButton::South => GamePad { buttons: Buttons { south: down, ..g.buttons }, ..g },
            PadButton::North => GamePad { buttons: Buttons { north: down, ..g.buttons }, ..g },
            PadButton::East => GamePad { buttons: Buttons { east: down, ..g.buttons }, ..g },
            PadButton::West => GamePad { buttons: Buttons { west: down, ..g.buttons }, ..g },
            PadButton::DPadUp => GamePad {
                buttons: Buttons { dpad_up: down, ..g.buttons },
                ..g
            },
            PadButton::DPadDown => GamePad {
                buttons: Buttons { dpad_down: down, ..g.buttons },
                ..g
            },
            PadButton::DPadLeft => GamePad {
                buttons: Buttons { dpad_left: down, ..g.buttons },
                ..g
            },
            PadButton::DPadRight => GamePad {
                buttons: Buttons { dpad_right: down, ..g.buttons },
                ..g
            },
            PadButton::Start => GamePad { buttons: Buttons { start: down, ..g.buttons }, ..g },
            PadButton::Select => GamePad { buttons: Buttons { select: down, ..g.buttons }, ..g },
            PadButton::LeftBumper => GamePad {
                buttons: Buttons { left_bumper: down, ..g.buttons },
                ..g
            },
            PadButton::RightBumper => GamePad {
                buttons: Buttons { right_bumper: down, ..g.buttons },
                ..g
            },
            PadButton::LeftThumb => GamePad {
                left_stick: Stick { pressed: down, ..g.left_stick },
                ..g
            },
            PadButton::RightThumb => GamePad {
                right_stick: Stick { pressed: down, ..g.right_stick },
                ..g
            },
            _ => g,
        };
    }
}

/// The mouse half of a frame snapshot, for one space.
#[derive(Debug, Clone)]
pub struct InputFrameMouse {
    /// Summed relative motion over the frame.
    pub delta: Vec2,
    /// Cursor position at sample time.
    pub mouse_pos: Vec2,
    /// Buttons held at sample time.
    pub buttons: Vec<u32>,
    /// Summed wheel motion over the frame.
    pub scroll: Vec2,
}

impl InputFrameMouse {
    pub open spec fn wf(&self) -> bool {
        &&& self.delta.in_sum_range()
        &&& self.scroll.in_sum_range()
        &&& self.mouse_pos.in_coord_range()
        &&& self.buttons@.no_duplicates()
    }
}

/// One immutable per-video-frame snapshot.
#[derive(Debug, Clone)]
pub struct InputFrame {
    /// Sample time, nanoseconds from the process epoch.
    pub time: u64,
    /// Keys physically held by the user, hotkeys excluded.
    pub user_keys: Vec<u32>,
    /// Keys held by synthetic injection, hotkeys excluded.
    pub system_keys: Vec<u32>,
    /// Whether the model owned synthetic input at sample time.
    pub inference_running: bool,
    /// User-space mouse aggregates.
    pub user_mouse: InputFrameMouse,
    /// System-space mouse aggregates.
    pub system_mouse: InputFrameMouse,
    /// The latest gamepad snapshot, if a pad is connected.
    pub game_pad: Option<GamePad>,
    /// The raw events attributed to this frame, in arrival order.
    pub timeline: Vec<DeviceEvent>,
}

impl InputFrame {
    pub open spec fn wf(&self) -> bool {
        &&& self.user_keys@.no_duplicates()
        &&& self.system_keys@.no_duplicates()
        &&& self.user_mouse.wf()
        &&& self.system_mouse.wf()
        &&& self.timeline@.len() <= MAX_SAMPLES
        &&& wf_events(self.timeline@)
    }
}

/// Every frame of the sequence is well-formed.
pub open spec fn wf_frames(s: Seq<InputFrame>) -> bool {
    forall|i: int| 0 <= i < s.len() ==> (#[trigger] s[i]).wf()
}

} // verus!

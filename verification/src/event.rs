//! Raw device events.
//!
//! Keys and mouse buttons are identified by numeric codes (`u32`); mouse
//! buttons use `0` for left, `1` for right and `2` for middle. Times are
//! nanoseconds from an arbitrary process epoch. An event whose `simulated`
//! flag is set was injected by this process itself (model-driven or
//! playback-driven) rather than produced by a physical device.

use vstd::prelude::*;
use crate::geom::Vec2;

verus! {

/// Mouse button code for the left button.
pub const BUTTON_LEFT: u32 = 0;

/// Mouse button code for the right button.
pub const BUTTON_RIGHT: u32 = 1;

/// Mouse button code for the middle button.
pub const BUTTON_MIDDLE: u32 = 2;

/// A gamepad button, in this library's own vocabulary.
#[derive(Clone, Copy, Debug, PartialEq, Eq, Structural)]
pub enum PadButton {
    South,
    North,
    East,
    West,
    DPadUp,
    DPadDown,
    DPadLeft,
    DPadRight,
    Start,
    Select,
    LeftBumper,
    RightBumper,
    LeftTrigger,
    RightTrigger,
    LeftThumb,
    RightThumb,
    Mode,
    Other,
}

/// A gamepad axis.
#[derive(Clone, Copy, Debug, PartialEq, Eq, Structural)]
pub enum PadAxis {
    LeftStickX,
    LeftStickY,
    RightStickX,
    RightStickY,
    Other,
}

/// A raw controller event. Analog values (trigger positions, stick
/// deflections) are carried in thousandths of the unit range.
#[derive(Clone, Copy, Debug, PartialEq, Eq, Structural)]
pub enum PadEvent {
    ButtonPressed(PadButton),
    ButtonReleased(PadButton),
    ButtonChanged(PadButton, i32),
    AxisChanged(PadAxis, i32),
    Connected,
    Disconnected,
    Other,
}

/// The payload of a device event.
#[derive(Clone, Copy, Debug, PartialEq, Eq, Structural)]
pub enum Event {
    /// Absolute cursor position.
    MouseMove(Vec2),
    /// Relative cursor motion.
    MouseDelta(Vec2),
    /// Wheel motion.
    MouseWheel(Vec2),
    /// A mouse button went down or up.
    MouseButton { pressed: bool, button: u32 },
    /// A key went down or up.
    KeyboardInput { key: u32, pressed: bool },
    /// A raw controller event.
    GamePadAction(PadEvent),
}

/// One time-stamped event as merged onto the device event bus.
#[derive(Clone, Copy, Debug, PartialEq, Eq, Structural)]
pub struct DeviceEvent {
    /// Nanoseconds from the process epoch.
    pub time: u64,
    /// What happened.
    pub event: Event,
    /// Whether this process injected the event itself.
    pub simulated: bool,
}

impl Event {
    /// Any coordinates the payload carries fit in the 32-bit event range.
    pub open spec fn coords_in_range(self) -> bool {
        match self {
            Event::MouseMove(p) => p.in_coord_range(),
            Event::MouseDelta(d) => d.in_coord_range(),
            Event::MouseWheel(d) => d.in_coord_range(),
            _ => true,
        }
    }

    /// Whether this is a key-down or button-down payload.
    pub open spec fn is_press(self) -> bool {
        match self {
            Event::KeyboardInput { pressed, .. } => pressed,
            Event::MouseButton { pressed, .. } => pressed,
            _ => false,
        }
    }
}

impl DeviceEvent {
    /// Well-formedness of a single event.
    pub open spec fn wf(self) -> bool {
        self.event.coords_in_range()
    }
}

/// Every event of the sequence is well-formed.
pub open spec fn wf_events(s: Seq<DeviceEvent>) -> bool {
    forall|i: int| 0 <= i < s.len() ==> (#[trigger] s[i]).wf()
}

} // verus!

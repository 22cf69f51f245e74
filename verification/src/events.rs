//! The two event vocabularies: the raw events a native backend emits, and the
//! generic input events this adapter hands to its callers.

use crate::keys::{Key, KeyCode};
use vstd::prelude::*;

verus! {

/// A generic mouse button.
#[derive(Clone, Copy, Debug, PartialEq, Eq)]
pub enum MouseButton {
    Left,
    Right,
    Middle,
}

/// Whether a button was pressed or released.
#[derive(Clone, Copy, Debug, PartialEq, Eq)]
pub enum ButtonState {
    Press,
    Release,
}

/// A generic button: a keyboard key or a mouse button.
#[derive(Clone, Copy, Debug, PartialEq, Eq)]
pub enum Button {
    Keyboard(Key),
    Mouse(MouseButton),
}

/// A button event. This backend carries no scancode information, so the
/// scancode is always absent.
#[derive(Clone, Copy, Debug, PartialEq, Eq)]
pub struct ButtonArgs {
    pub state: ButtonState,
    pub button: Button,
    pub scancode: Option<i32>,
}

/// Mouse motion: a relative delta or an absolute cursor position, in the
/// integer units the backend reports.
#[derive(Clone, Copy, Debug, PartialEq, Eq)]
pub enum Motion {
    /// A relative movement (dx, dy).
    MouseRelative(i32, i32),
    /// An absolute cursor position (x, y).
    MouseCursor(i32, i32),
}

/// The generic input event vocabulary this adapter produces.
#[derive(Clone, Debug, PartialEq, Eq)]
pub enum InputEvent {
    /// A keyboard key or mouse button changed state.
    Button(ButtonArgs),
    /// The mouse moved.
    Move(Motion),
    /// Text input, usually from the keyboard.
    Text(String),
    /// The window was resized to (width, height).
    Resize(u32, u32),
    /// The cursor entered (true) or left (false) the window.
    Cursor(bool),
    /// The window was asked to close.
    Close,
}

/// A raw event as the native backend reports it, reduced to the plain values
/// the translation logic reads.
#[derive(Clone, Copy, Debug, PartialEq, Eq)]
pub enum RawEvent {
    /// The sentinel "nothing pending" marker: not a real event.
    NoEvent,
    DisplayClose,
    DisplayResize { width: u32, height: u32 },
    JoystickAxes,
    JoystickButtonDown,
    JoystickButtonUp,
    JoystickConfiguration,
    KeyDown { keycode: KeyCode },
    KeyUp { keycode: KeyCode },
    KeyChar { unichar: char },
    MouseAxes { dx: i32, dy: i32 },
    MouseButtonDown { button: u32 },
    MouseButtonUp { button: u32 },
    MouseWarped { x: i32, y: i32 },
    MouseEnterDisplay,
    MouseLeaveDisplay,
    TimerTick,
}

/// A backend capability this adapter does not support. Translation returns
/// this tagged error instead of producing a wrong event silently; the
/// embedding application chooses whether to skip or to escalate.
#[derive(Clone, Copy, Debug, PartialEq, Eq)]
pub enum Unsupported {
    /// A "no event" marker reached translation: callers must filter it out.
    NoEvent,
    /// Joystick events are not supported.
    Joystick,
    /// Timer-tick events are not supported.
    Timer,
    /// A keycode from the deny-list of unmapped backend codes.
    Key(KeyCode),
    /// A mouse-button mask with none of the three known bits set.
    MouseButton(u32),
}

} // verus!

//! The input that a host hands over: buttons and pointer motion as the
//! windowing layer reports them, and the events that they stand for.

use vstd::prelude::*;

verus! {

/// A button of the pointer device.
#[derive(Clone, Copy, Debug, PartialEq, Eq, Structural)]
pub enum MouseButton {
    /// The primary button.
    Left,
    /// Any other button.
    Other,
}

/// A key of the keyboard.
#[derive(Clone, Copy, Debug, PartialEq, Eq, Structural)]
pub enum Key {
    /// The space bar.
    Space,
    /// The up arrow.
    Up,
    /// The down arrow.
    Down,
    /// Any other key.
    Other,
}

/// Something that can be pressed and released.
#[derive(Clone, Copy, Debug, PartialEq, Eq, Structural)]
pub enum Button {
    /// A button of the pointer device.
    Mouse(MouseButton),
    /// A key of the keyboard.
    Keyboard(Key),
    /// A button of any other device.
    Other,
}

/// A movement that the host reports.
#[derive(Clone, Copy, Debug, PartialEq, Eq, Structural)]
pub enum Motion {
    /// The pointer is now at pixel `(x, y)`.
    MouseCursor(i32, i32),
    /// Any other movement, such as scrolling.
    Other,
}

/// An event that changes the sandbox.
#[derive(Clone, Copy, Debug, PartialEq, Eq, Structural)]
pub enum Event {
    /// The host's clock has advanced by one tick.
    Tick,
    /// The pointer has moved to pixel `(x, y)`.
    PointerMoved { x: i32, y: i32 },
    /// The primary button went down.
    PrimaryButtonPressed,
    /// The primary button came up.
    PrimaryButtonReleased,
    /// The user asked to pause or to resume.
    PauseToggleRequested,
    /// The user asked for one speed level more.
    SpeedIncreaseRequested,
    /// The user asked for one speed level less.
    SpeedDecreaseRequested,
}

/// The event that pressing `button` stands for, if it stands for one.
pub open spec fn press_event(button: Button) -> Option<Event> {
    match button {
        Button::Mouse(MouseButton::Left) => Some(Event::PrimaryButtonPressed),
        Button::Keyboard(Key::Space) => Some(Event::PauseToggleRequested),
        Button::Keyboard(Key::Up) => Some(Event::SpeedIncreaseRequested),
        Button::Keyboard(Key::Down) => Some(Event::SpeedDecreaseRequested),
        _ => None,
    }
}

/// The event that releasing `button` stands for, if it stands for one.
pub open spec fn release_event(button: Button) -> Option<Event> {
    match button {
        Button::Mouse(MouseButton::Left) => Some(Event::PrimaryButtonReleased),
        _ => None,
    }
}

/// The event that `motion` stands for, if it stands for one.
pub open spec fn motion_event(motion: Motion) -> Option<Event> {
    match motion {
        Motion::MouseCursor(x, y) => Some(Event::PointerMoved { x, y }),
        Motion::Other => None,
    }
}

} // verus!

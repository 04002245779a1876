use vstd::prelude::*;
use crate::rect::Point;

verus! {

/// Keyboard modifier state.
#[derive(Debug, Clone, Copy, PartialEq, Eq, Structural)]
pub struct Modifiers {
    pub shift: bool,
    pub ctrl: bool,
    pub alt: bool,
    pub super_key: bool,
    pub caps_lock: bool,
    pub num_lock: bool,
}

impl Modifiers {
    /// No modifier held and no lock active.
    pub fn none() -> (m: Self)
        ensures
            !m.shift && !m.ctrl && !m.alt && !m.super_key && !m.caps_lock && !m.num_lock,
    {
        Modifiers {
            shift: false,
            ctrl: false,
            alt: false,
            super_key: false,
            caps_lock: false,
            num_lock: false,
        }
    }

    /// True when none of shift, ctrl, alt and super is held; the lock
    /// states are not considered.
    pub fn is_empty(self) -> (b: bool)
        ensures
            b == (!self.shift && !self.ctrl && !self.alt && !self.super_key),
    {
        !self.shift && !self.ctrl && !self.alt && !self.super_key
    }
}

impl Default for Modifiers {
    fn default() -> (m: Self)
        ensures
            !m.shift && !m.ctrl && !m.alt && !m.super_key && !m.caps_lock && !m.num_lock,
    {
        Modifiers::none()
    }
}

/// Mouse button.
#[derive(Debug, Clone, Copy, PartialEq, Eq, Structural)]
pub enum MouseButton {
    Left,
    Middle,
    Right,
    ScrollUp,
    ScrollDown,
    ScrollLeft,
    ScrollRight,
    Back,
    Forward,
    Unknown(u8),
}

/// The button that an X11 button number denotes.
pub open spec fn button_of(button: u8) -> MouseButton {
    if button == 1 {
        MouseButton::Left
    } else if button == 2 {
        MouseButton::Middle
    } else if button == 3 {
        MouseButton::Right
    } else if button == 4 {
        MouseButton::ScrollUp
    } else if button == 5 {
        MouseButton::ScrollDown
    } else if button == 6 {
        MouseButton::ScrollLeft
    } else if button == 7 {
        MouseButton::ScrollRight
    } else if button == 8 {
        MouseButton::Back
    } else if button == 9 {
        MouseButton::Forward
    } else {
        MouseButton::Unknown(button)
    }
}

impl MouseButton {
    /// Whether the button is one of the four scroll-wheel directions.
    pub open spec fn is_scroll_spec(self) -> bool {
        match self {
            MouseButton::ScrollUp | MouseButton::ScrollDown | MouseButton::ScrollLeft
            | MouseButton::ScrollRight => true,
            _ => false,
        }
    }

    pub fn from_x11(button: u8) -> (b: Self)
        ensures
            b == button_of(button),
    {
        match button {
            1 => MouseButton::Left,
            2 => MouseButton::Middle,
            3 => MouseButton::Right,
            4 => MouseButton::ScrollUp,
            5 => MouseButton::ScrollDown,
            6 => MouseButton::ScrollLeft,
            7 => MouseButton::ScrollRight,
            8 => MouseButton::Back,
            9 => MouseButton::Forward,
            n => MouseButton::Unknown(n),
        }
    }

    /// Whether the button is one of the four scroll-wheel directions.
    pub fn is_scroll(self) -> (b: bool)
        ensures
            b == self.is_scroll_spec(),
    {
        match self {
            MouseButton::ScrollUp | MouseButton::ScrollDown | MouseButton::ScrollLeft
            | MouseButton::ScrollRight => true,
            _ => false,
        }
    }
}

/// Keys (special keys, printable characters, unknown keycodes).
#[derive(Debug, Clone, Copy, PartialEq, Eq, Structural)]
pub enum Key {
    Escape,
    Return,
    Tab,
    Backspace,
    Delete,
    Insert,
    Home,
    End,
    PageUp,
    PageDown,
    Left,
    Right,
    Up,
    Down,
    F1,
    F2,
    F3,
    F4,
    F5,
    F6,
    F7,
    F8,
    F9,
    F10,
    F11,
    F12,
    Space,
    /// A printable character
    Char(char),
    /// Unknown keycode
    Unknown(u8),
}

/// Keyboard event data.
#[derive(Debug, Clone, Copy, PartialEq, Eq, Structural)]
pub struct KeyEvent {
    pub key: Key,
    pub keycode: u8,
    pub modifiers: Modifiers,
    pub pressed: bool,
}

impl KeyEvent {
    /// The key produces text: a character or the space bar.
    pub fn is_printable(&self) -> (b: bool)
        ensures
            b == (self.key is Char || self.key is Space),
    {
        match self.key {
            Key::Char(_) | Key::Space => true,
            _ => false,
        }
    }

    /// The text character that the key produces, if any.
    pub fn char(&self) -> (c: Option<char>)
        ensures
            c == (match self.key {
                Key::Char(ch) => Some(ch),
                Key::Space => Some(' '),
                _ => None,
            }),
    {
        match self.key {
            Key::Char(c) => Some(c),
            Key::Space => Some(' '),
            _ => None,
        }
    }
}

/// Mouse event data.
#[derive(Debug, Clone, Copy, PartialEq, Eq, Structural)]
pub struct MouseEvent {
    pub position: Point,
    pub button: Option<MouseButton>,
    pub modifiers: Modifiers,
}

/// Scroll event data.
#[derive(Debug, Clone, Copy, PartialEq, Eq, Structural)]
pub struct ScrollEvent {
    pub position: Point,
    pub delta_x: i32,
    pub delta_y: i32,
    pub modifiers: Modifiers,
}

/// A request from another client for the contents of a selection we own.
#[derive(Debug, Clone, Copy, PartialEq, Eq, Structural)]
pub struct SelectionRequestEvent {
    pub requestor: u32,
    pub selection: u32,
    pub target: u32,
    pub property: u32,
    pub time: u32,
}

/// The answer to a selection conversion that this window asked for.
#[derive(Debug, Clone, Copy, PartialEq, Eq, Structural)]
pub struct SelectionNotifyEvent {
    pub requestor: u32,
    pub selection: u32,
    pub target: u32,
    pub property: u32,
    pub time: u32,
}

/// All input event types.
#[derive(Debug, Clone, PartialEq, Eq)]
pub enum InputEvent {
    /// Key pressed or released
    Key(KeyEvent),
    /// Mouse button pressed
    MousePress(MouseEvent),
    /// Mouse button released
    MouseRelease(MouseEvent),
    /// Mouse moved
    MouseMove(MouseEvent),
    /// Mouse entered window
    MouseEnter(Point),
    /// Mouse left window
    MouseLeave,
    /// Scroll wheel
    Scroll(ScrollEvent),
    /// Window needs redraw
    Expose,
    /// Window resized
    Resize { width: u32, height: u32 },
    /// Window focus gained
    FocusIn,
    /// Window focus lost
    FocusOut,
    /// Window close requested
    CloseRequested,
    /// Sent once per frame when the event queue has been drained
    Idle,
    /// A selection conversion we requested has completed
    SelectionNotify(SelectionNotifyEvent),
    /// Another client asks for a selection we own
    SelectionRequest(SelectionRequestEvent),
    /// We lost ownership of a selection
    SelectionClear,
    /// Files were dropped onto the window (decoded local paths)
    FileDrop(Vec<String>),
}

impl InputEvent {
    /// A key event that is a press of exactly this key.
    pub fn is_key_press(&self, key: Key) -> (b: bool)
        ensures
            b == (self matches InputEvent::Key(e) && e.pressed && e.key == key),
    {
        match self {
            InputEvent::Key(e) => e.pressed && e.key == key,
            _ => false,
        }
    }

    /// A mouse press of exactly this button.
    pub fn is_mouse_press(&self, button: MouseButton) -> (b: bool)
        ensures
            b == (self matches InputEvent::MousePress(e) && e.button == Some(button)),
    {
        match self {
            InputEvent::MousePress(e) => match e.button {
                Some(b) => b == button,
                None => false,
            },
            _ => false,
        }
    }
}

} // verus!

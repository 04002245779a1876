//! gartk: verified core of a small X11 toolkit.
//!
//! The library holds the toolkit's own logic: geometry, input events and
//! how X11 event data becomes them, keyboard mapping, colour-string
//! parsing, URI encoding for the clipboard, clipboard replies, monitor
//! selection, window configuration and font-specification parsing.

pub mod atoms;
pub mod clipboard;
pub mod color;
pub mod cursor;
pub mod event;
pub mod event_loop;
pub mod font;
pub mod keyboard;
pub mod monitor;
pub mod rect;
pub mod text;
pub mod uri;
pub mod window;

pub use atoms::Atoms;
pub use clipboard::{ClipboardContent, ClipboardState, SelectionReply};
pub use color::{ColorError, ColorValue, NamedColor, Rgba8};
pub use cursor::{CursorCache, CursorShape};
pub use event::{
    InputEvent, Key, KeyEvent, Modifiers, MouseButton, MouseEvent, ScrollEvent,
    SelectionNotifyEvent, SelectionRequestEvent,
};
pub use event_loop::{EventLoopConfig, EventLoopState, XEvent, XdndAction, XdndState};
pub use font::{FontSpecShape, TextAlign};
pub use keyboard::{key_event_from_x11, key_from_keycode, modifiers_from_x11};
pub use monitor::{CrtcGeometry, Monitor, OutputReport};
pub use rect::{Edges, Point, Rect, Size};
pub use window::{WindowConfig, WindowType};

use vstd::prelude::*;
use crate::atoms::Atoms;
use crate::event::{
    button_of, InputEvent, KeyEvent, MouseButton, MouseEvent, ScrollEvent, SelectionNotifyEvent,
    SelectionRequestEvent,
};
use crate::keyboard::{key_event_from_x11, key_of, modifiers_from_x11, modifiers_of};
use crate::rect::Point;

verus! {

/// Event loop configuration.
#[derive(Debug, Clone, Copy, PartialEq, Eq, Structural)]
pub struct EventLoopConfig {
    /// Target frames per second
    pub fps: u32,
    /// Whether to redraw every frame or only on expose
    pub continuous_redraw: bool,
}

impl Default for EventLoopConfig {
    /// 60 frames per second, redraw only when needed.
    fn default() -> (c: Self)
        ensures
            c.fps == 60,
            !c.continuous_redraw,
    {
        EventLoopConfig { fps: 60, continuous_redraw: false }
    }
}

/// The data of an X11 event that the event loop reads. Window identifiers,
/// atoms and timestamps are the protocol's 32-bit values.
#[derive(Debug, Clone, Copy, PartialEq, Eq)]
pub enum XEvent {
    Expose { window: u32 },
    KeyPress { event: u32, detail: u8, state: u16 },
    KeyRelease { event: u32, detail: u8, state: u16 },
    ButtonPress { event: u32, detail: u8, event_x: i16, event_y: i16, state: u16 },
    ButtonRelease { event: u32, detail: u8, event_x: i16, event_y: i16, state: u16 },
    MotionNotify { event: u32, event_x: i16, event_y: i16, state: u16 },
    EnterNotify { event: u32, event_x: i16, event_y: i16 },
    LeaveNotify { event: u32 },
    FocusIn { event: u32 },
    FocusOut { event: u32 },
    ConfigureNotify { window: u32, width: u16, height: u16 },
    ClientMessage { window: u32, type_: u32, data: [u32; 5] },
    SelectionNotify { requestor: u32, selection: u32, target: u32, property: u32, time: u32 },
    SelectionRequest { requestor: u32, selection: u32, target: u32, property: u32, time: u32 },
    SelectionClear { owner: u32 },
    /// Any event the loop does not handle
    Other,
}

/// State of an incoming drag-and-drop (XDND) operation.
#[derive(Debug, Clone, PartialEq, Eq)]
pub struct XdndState {
    /// Source window of the current drag
    pub source: Option<u32>,
    /// Data types the source offers
    pub types: Vec<u32>,
    /// Last pointer position reported by the source
    pub position: Option<(i16, i16)>,
    /// A drop happened and its data has been requested
    pub waiting_for_drop: bool,
}

/// The abstract state of a drag-and-drop operation.
pub struct XdndModel {
    pub source: Option<u32>,
    pub types: Seq<u32>,
    pub position: Option<(i16, i16)>,
    pub waiting_for_drop: bool,
}

impl View for XdndState {
    type V = XdndModel;

    open spec fn view(&self) -> XdndModel {
        XdndModel {
            source: self.source,
            types: self.types@,
            position: self.position,
            waiting_for_drop: self.waiting_for_drop,
        }
    }
}

/// No drag in progress.
pub open spec fn idle_xdnd() -> XdndModel {
    XdndModel { source: None, types: Seq::empty(), position: None, waiting_for_drop: false }
}

impl XdndState {
    /// No drag in progress.
    pub fn new() -> (s: Self)
        ensures
            s@ == idle_xdnd(),
    {
        XdndState { source: None, types: Vec::new(), position: None, waiting_for_drop: false }
    }
}

/// Protocol work that the caller must perform after an event was translated.
#[derive(Debug, Clone, Copy, PartialEq, Eq, Structural)]
pub enum XdndAction {
    /// Nothing to do
    Nothing,
    /// Send `XdndStatus` (see `xdnd_status_message`) to the drag source
    SendStatus { source: u32, accept: bool },
    /// Ask the selection owner to convert `selection` to `target` into
    /// `property` of `requestor`
    ConvertSelection { requestor: u32, selection: u32, target: u32, property: u32 },
    /// Read the dropped data from `property` of our window, turn it into
    /// paths (`drop_paths`) and complete the drop (`finish_drop`)
    ReadDrop { property: u32 },
}

/// The event loop's own state, apart from the connection it reads from.
pub struct EventLoopState {
    pub window_id: u32,
    pub atoms: Atoms,
    pub config: EventLoopConfig,
    pub running: bool,
    pub needs_redraw: bool,
    pub xdnd_enabled: bool,
    pub xdnd: XdndState,
}

/// The pointer position of an event.
pub open spec fn point_of(x: i16, y: i16) -> Point {
    Point { x: x as i32, y: y as i32 }
}

/// Horizontal scroll step of a scroll button.
pub open spec fn scroll_dx(b: MouseButton) -> i32 {
    match b {
        MouseButton::ScrollLeft => -1i32,
        MouseButton::ScrollRight => 1,
        _ => 0,
    }
}

/// Vertical scroll step of a scroll button.
pub open spec fn scroll_dy(b: MouseButton) -> i32 {
    match b {
        MouseButton::ScrollUp => -1i32,
        MouseButton::ScrollDown => 1,
        _ => 0,
    }
}

/// The client message asks to close the window (`WM_DELETE_WINDOW`).
pub open spec fn is_close_request(atoms: Atoms, type_: u32, data: [u32; 5]) -> bool {
    type_ == atoms.wm_protocols && data@[0] == atoms.wm_delete_window
}

/// The input event that an X11 event for window `w` becomes. `xdnd_wait`
/// holds when drag-and-drop is enabled and drop data has been requested;
/// the selection notification then belongs to the drop.
pub open spec fn input_of(w: u32, atoms: Atoms, xdnd_wait: bool, e: XEvent) -> Option<InputEvent> {
    match e {
        XEvent::Expose { window } => if window == w {
            Some(InputEvent::Expose)
        } else {
            None
        },
        XEvent::KeyPress { event, detail, state } => if event == w {
            Some(
                InputEvent::Key(
                    KeyEvent {
                        key: key_of(detail, modifiers_of(state)),
                        keycode: detail,
                        modifiers: modifiers_of(state),
                        pressed: true,
                    },
                ),
            )
        } else {
            None
        },
        XEvent::KeyRelease { event, detail, state } => if event == w {
            Some(
                InputEvent::Key(
                    KeyEvent {
                        key: key_of(detail, modifiers_of(state)),
                        keycode: detail,
                        modifiers: modifiers_of(state),
                        pressed: false,
                    },
                ),
            )
        } else {
            None
        },
        XEvent::ButtonPress { event, detail, event_x, event_y, state } => if event == w {
            let b = button_of(detail);
            if b.is_scroll_spec() {
                Some(
                    InputEvent::Scroll(
                        ScrollEvent {
                            position: point_of(event_x, event_y),
                            delta_x: scroll_dx(b),
                            delta_y: scroll_dy(b),
                            modifiers: modifiers_of(state),
                        },
                    ),
                )
            } else {
                Some(
                    InputEvent::MousePress(
                        MouseEvent {
                            position: point_of(event_x, event_y),
                            button: Some(b),
                            modifiers: modifiers_of(state),
                        },
                    ),
                )
            }
        } else {
            None
        },
        XEvent::ButtonRelease { event, detail, event_x, event_y, state } => if event == w
            && !button_of(detail).is_scroll_spec() {
            Some(
                InputEvent::MouseRelease(
                    MouseEvent {
                        position: point_of(event_x, event_y),
                        button: Some(button_of(detail)),
                        modifiers: modifiers_of(state),
                    },
                ),
            )
        } else {
            None
        },
        XEvent::MotionNotify { event, event_x, event_y, state } => if event == w {
            Some(
                InputEvent::MouseMove(
                    MouseEvent {
                        position: point_of(event_x, event_y),
                        button: None,
                        modifiers: modifiers_of(state),
                    },
                ),
            )
        } else {
            None
        },
        XEvent::EnterNotify { event, event_x, event_y } => if event == w {
            Some(InputEvent::MouseEnter(point_of(event_x, event_y)))
        } else {
            None
        },
        XEvent::LeaveNotify { event } => if event == w {
            Some(InputEvent::MouseLeave)
        } else {
            None
        },
        XEvent::FocusIn { event } => if event == w {
            Some(InputEvent::FocusIn)
        } else {
            None
        },
        XEvent::FocusOut { event } => if event == w {
            Some(InputEvent::FocusOut)
        } else {
            None
        },
        XEvent::ConfigureNotify { window, width, height } => if window == w {
            Some(InputEvent::Resize { width: width as u32, height: height as u32 })
        } else {
            None
        },
        XEvent::ClientMessage { window, type_, data } => if window == w && is_close_request(
            atoms,
            type_,
            data,
        ) {
            Some(InputEvent::CloseRequested)
        } else {
            None
        },
        XEvent::SelectionNotify { requestor, selection, target, property, time } => if requestor
            == w && !xdnd_wait {
            Some(
                InputEvent::SelectionNotify(
                    SelectionNotifyEvent { requestor, selection, target, property, time },
                ),
            )
        } else {
            None
        },
        XEvent::SelectionRequest { requestor, selection, target, property, time } => Some(
            InputEvent::SelectionRequest(
                SelectionRequestEvent { requestor, selection, target, property, time },
            ),
        ),
        XEvent::SelectionClear { owner } => if owner == w {
            Some(InputEvent::SelectionClear)
        } else {
            None
        },
        XEvent::Other => None,
    }
}

/// The event makes the window need a redraw: it was exposed or reconfigured.
pub open spec fn forces_redraw(w: u32, e: XEvent) -> bool {
    match e {
        XEvent::Expose { window } => window == w,
        XEvent::ConfigureNotify { window, .. } => window == w,
        _ => false,
    }
}

/// The types a source offers in `XdndEnter` (the three slots after the
/// flags, empty slots left out).
pub open spec fn offered_types(data: [u32; 5]) -> Seq<u32> {
    seq![data@[2], data@[3], data@[4]].filter(|a: u32| a != 0)
}

/// The pointer position packed in `XdndPosition` (x in the high half).
pub open spec fn packed_position(v: u32) -> (i16, i16) {
    ((v >> 16u32) as i16, (v & 0xFFFFu32) as i16)
}

/// The drag state and protocol work after a drag-and-drop client message.
pub open spec fn client_message_step(
    w: u32,
    atoms: Atoms,
    m: XdndModel,
    type_: u32,
    data: [u32; 5],
) -> (XdndModel, XdndAction) {
    if type_ == atoms.xdnd_enter {
        (XdndModel { source: Some(data@[0]), types: offered_types(data), ..m }, XdndAction::Nothing)
    } else if type_ == atoms.xdnd_position {
        (
            XdndModel { position: Some(packed_position(data@[2])), ..m },
            match m.source {
                Some(s) => XdndAction::SendStatus { source: s, accept: true },
                None => XdndAction::Nothing,
            },
        )
    } else if type_ == atoms.xdnd_drop {
        (
            XdndModel { waiting_for_drop: true, ..m },
            XdndAction::ConvertSelection {
                requestor: w,
                selection: atoms.xdnd_selection,
                target: atoms.text_uri_list,
                property: atoms.xdnd_selection,
            },
        )
    } else if type_ == atoms.xdnd_leave {
        (idle_xdnd(), XdndAction::Nothing)
    } else {
        (m, XdndAction::Nothing)
    }
}

/// The drag state and protocol work after any event.
pub open spec fn xdnd_effect(w: u32, atoms: Atoms, enabled: bool, m: XdndModel, e: XEvent) -> (
    XdndModel,
    XdndAction,
) {
    match e {
        XEvent::ClientMessage { window, type_, data } => if window == w && !is_close_request(
            atoms,
            type_,
            data,
        ) && enabled {
            client_message_step(w, atoms, m, type_, data)
        } else {
            (m, XdndAction::Nothing)
        },
        XEvent::SelectionNotify { requestor, property, .. } => if requestor == w && enabled
            && m.waiting_for_drop {
            if property == 0 {
                (XdndModel { waiting_for_drop: false, ..m }, XdndAction::Nothing)
            } else {
                (m, XdndAction::ReadDrop { property })
            }
        } else {
            (m, XdndAction::Nothing)
        },
        _ => (m, XdndAction::Nothing),
    }
}

impl EventLoopState {
    /// A running loop for `window_id` that still has to draw its first frame.
    pub fn new(window_id: u32, atoms: Atoms, config: EventLoopConfig) -> (s: Self)
        ensures
            s.window_id == window_id,
            s.atoms == atoms,
            s.config == config,
            s.running,
            s.needs_redraw,
            !s.xdnd_enabled,
            s.xdnd@ == idle_xdnd(),
    {
        EventLoopState {
            window_id,
            atoms,
            config,
            running: true,
            needs_redraw: true,
            xdnd_enabled: false,
            xdnd: XdndState::new(),
        }
    }

    /// Stop the event loop.
    pub fn quit(&mut self)
        ensures
            !final(self).running,
            final(self).needs_redraw == old(self).needs_redraw,
            final(self).xdnd_enabled == old(self).xdnd_enabled,
            final(self).window_id == old(self).window_id,
            final(self).atoms == old(self).atoms,
            final(self).config == old(self).config,
            final(self).xdnd@ == old(self).xdnd@,
    {
        self.running = false;
    }

    /// Request a redraw.
    pub fn request_redraw(&mut self)
        ensures
            final(self).needs_redraw,
            final(self).running == old(self).running,
            final(self).xdnd_enabled == old(self).xdnd_enabled,
            final(self).window_id == old(self).window_id,
            final(self).atoms == old(self).atoms,
            final(self).config == old(self).config,
            final(self).xdnd@ == old(self).xdnd@,
    {
        self.needs_redraw = true;
    }

    /// Whether a redraw is due: one was requested or every frame is drawn.
    pub fn needs_redraw(&self) -> (b: bool)
        ensures
            b == (self.needs_redraw || self.config.continuous_redraw),
    {
        self.needs_redraw || self.config.continuous_redraw
    }

    /// Clear the redraw flag.
    pub fn redraw_done(&mut self)
        ensures
            !final(self).needs_redraw,
            final(self).running == old(self).running,
            final(self).xdnd_enabled == old(self).xdnd_enabled,
            final(self).window_id == old(self).window_id,
            final(self).atoms == old(self).atoms,
            final(self).config == old(self).config,
            final(self).xdnd@ == old(self).xdnd@,
    {
        self.needs_redraw = false;
    }

    /// Record that the window now advertises drag-and-drop support.
    pub fn mark_xdnd_enabled(&mut self)
        ensures
            final(self).xdnd_enabled,
            final(self).running == old(self).running,
            final(self).needs_redraw == old(self).needs_redraw,
            final(self).window_id == old(self).window_id,
            final(self).atoms == old(self).atoms,
            final(self).config == old(self).config,
            final(self).xdnd@ == old(self).xdnd@,
    {
        self.xdnd_enabled = true;
    }

    /// Translate an X11 event into an input event, updating the redraw flag
    /// and the drag-and-drop state; the second result is protocol work the
    /// caller must perform.
    pub fn translate_event(&mut self, event: XEvent) -> (r: (Option<InputEvent>, XdndAction))
        ensures
            r.0 == input_of(
                old(self).window_id,
                old(self).atoms,
                old(self).xdnd_enabled && old(self).xdnd.waiting_for_drop,
                event,
            ),
            final(self).needs_redraw == (old(self).needs_redraw || forces_redraw(
                old(self).window_id,
                event,
            )),
            (final(self).xdnd@, r.1) == xdnd_effect(
                old(self).window_id,
                old(self).atoms,
                old(self).xdnd_enabled,
                old(self).xdnd@,
                event,
            ),
            final(self).window_id == old(self).window_id,
            final(self).atoms == old(self).atoms,
            final(self).config == old(self).config,
            final(self).running == old(self).running,
            final(self).xdnd_enabled == old(self).xdnd_enabled,
    {
        let w = self.window_id;
        match event {
            XEvent::Expose { window } => {
                if window == w {
                    self.needs_redraw = true;
                    (Some(InputEvent::Expose), XdndAction::Nothing)
                } else {
                    (None, XdndAction::Nothing)
                }
            },
            XEvent::KeyPress { event, detail, state } => {
                if event == w {
                    (Some(InputEvent::Key(key_event_from_x11(detail, state, true))), XdndAction::Nothing)
                } else {
                    (None, XdndAction::Nothing)
                }
            },
            XEvent::KeyRelease { event, detail, state } => {
                if event == w {
                    (Some(InputEvent::Key(key_event_from_x11(detail, state, false))), XdndAction::Nothing)
                } else {
                    (None, XdndAction::Nothing)
                }
            },
            XEvent::ButtonPress { event, detail, event_x, event_y, state } => {
                if event == w {
                    let button = MouseButton::from_x11(detail);
                    if button.is_scroll() {
                        let (dx, dy): (i32, i32) = match button {
                            MouseButton::ScrollUp => (0, -1),
                            MouseButton::ScrollDown => (0, 1),
                            MouseButton::ScrollLeft => (-1, 0),
                            MouseButton::ScrollRight => (1, 0),
                            _ => (0, 0),
                        };
                        (
                            Some(
                                InputEvent::Scroll(
                                    ScrollEvent {
                                        position: Point::new(event_x as i32, event_y as i32),
                                        delta_x: dx,
                                        delta_y: dy,
                                        modifiers: modifiers_from_x11(state),
                                    },
                                ),
                            ),
                            XdndAction::Nothing,
                        )
                    } else {
                        (
                            Some(InputEvent::MousePress(mouse_event_from_x11(detail, event_x, event_y, state))),
                            XdndAction::Nothing,
                        )
                    }
                } else {
                    (None, XdndAction::Nothing)
                }
            },
            XEvent::ButtonRelease { event, detail, event_x, event_y, state } => {
                if event == w {
                    let button = MouseButton::from_x11(detail);
                    if button.is_scroll() {
                        (None, XdndAction::Nothing)
                    } else {
                        (
                            Some(
                                InputEvent::MouseRelease(
                                    MouseEvent {
                                        position: Point::new(event_x as i32, event_y as i32),
                                        button: Some(button),
                                        modifiers: modifiers_from_x11(state),
                                    },
                                ),
                            ),
                            XdndAction::Nothing,
                        )
                    }
                } else {
                    (None, XdndAction::Nothing)
                }
            },
            XEvent::MotionNotify { event, event_x, event_y, state } => {
                if event == w {
                    (
                        Some(
                            InputEvent::MouseMove(
                                MouseEvent {
                                    position: Point::new(event_x as i32, event_y as i32),
                                    button: None,
                                    modifiers: modifiers_from_x11(state),
                                },
                            ),
                        ),
                        XdndAction::Nothing,
                    )
                } else {
                    (None, XdndAction::Nothing)
                }
            },
            XEvent::EnterNotify { event, event_x, event_y } => {
                if event == w {
                    (
                        Some(InputEvent::MouseEnter(Point::new(event_x as i32, event_y as i32))),
                        XdndAction::Nothing,
                    )
                } else {
                    (None, XdndAction::Nothing)
                }
            },
            XEvent::LeaveNotify { event } => {
                if event == w {
                    (Some(InputEvent::MouseLeave), XdndAction::Nothing)
                } else {
                    (None, XdndAction::Nothing)
                }
            },
            XEvent::FocusIn { event } => {
                if event == w {
                    (Some(InputEvent::FocusIn), XdndAction::Nothing)
                } else {
                    (None, XdndAction::Nothing)
                }
            },
            XEvent::FocusOut { event } => {
                if event == w {
                    (Some(InputEvent::FocusOut), XdndAction::Nothing)
                } else {
                    (None, XdndAction::Nothing)
                }
            },
            XEvent::ConfigureNotify { window, width, height } => {
                if window == w {
                    self.needs_redraw = true;
                    (
                        Some(InputEvent::Resize { width: width as u32, height: height as u32 }),
                        XdndAction::Nothing,
                    )
                } else {
                    (None, XdndAction::Nothing)
                }
            },
            XEvent::ClientMessage { window, type_, data } => {
                if window == w {
                    if type_ == self.atoms.wm_protocols && data[0] == self.atoms.wm_delete_window {
                        return (Some(InputEvent::CloseRequested), XdndAction::Nothing);
                    }
                    if self.xdnd_enabled {
                        let action = self.handle_xdnd_client_message(type_, data);
                        return (None, action);
                    }
                    (None, XdndAction::Nothing)
                } else {
                    (None, XdndAction::Nothing)
                }
            },
            XEvent::SelectionNotify { requestor, selection, target, property, time } => {
                if requestor == w {
                    if self.xdnd_enabled && self.xdnd.waiting_for_drop {
                        if property == 0 {
                            self.xdnd.waiting_for_drop = false;
                            return (None, XdndAction::Nothing);
                        }
                        return (None, XdndAction::ReadDrop { property });
                    }
                    (
                        Some(
                            InputEvent::SelectionNotify(
                                SelectionNotifyEvent { requestor, selection, target, property, time },
                            ),
                        ),
                        XdndAction::Nothing,
                    )
                } else {
                    (None, XdndAction::Nothing)
                }
            },
            XEvent::SelectionRequest { requestor, selection, target, property, time } => {
                (
                    Some(
                        InputEvent::SelectionRequest(
                            SelectionRequestEvent { requestor, selection, target, property, time },
                        ),
                    ),
                    XdndAction::Nothing,
                )
            },
            XEvent::SelectionClear { owner } => {
                if owner == w {
                    (Some(InputEvent::SelectionClear), XdndAction::Nothing)
                } else {
                    (None, XdndAction::Nothing)
                }
            },
            XEvent::Other => (None, XdndAction::Nothing),
        }
    }

    /// Update the drag state for an XDND client message.
    fn handle_xdnd_client_message(&mut self, type_: u32, data: [u32; 5]) -> (action: XdndAction)
        ensures
            (final(self).xdnd@, action) == client_message_step(
                old(self).window_id,
                old(self).atoms,
                old(self).xdnd@,
                type_,
                data,
            ),
            final(self).window_id == old(self).window_id,
            final(self).atoms == old(self).atoms,
            final(self).config == old(self).config,
            final(self).running == old(self).running,
            final(self).needs_redraw == old(self).needs_redraw,
            final(self).xdnd_enabled == old(self).xdnd_enabled,
    {
        if type_ == self.atoms.xdnd_enter {
            self.xdnd.source = Some(data[0]);
            let mut types: Vec<u32> = Vec::new();
            let mut k: usize = 2;
            let ghost slots = seq![data@[2], data@[3], data@[4]];
            while k < 5
                invariant
                    2 <= k <= 5,
                    slots == seq![data@[2], data@[3], data@[4]],
                    types@ == slots.subrange(0, k - 2).filter(|a: u32| a != 0),
                decreases 5 - k,
            {
                let atom = data[k];
                assert(slots.subrange(0, k - 1).drop_last() =~= slots.subrange(0, k - 2));
                reveal_with_fuel(Seq::filter, 1);
                if atom != 0 {
                    types.push(atom);
                }
                k += 1;
            }
            assert(slots.subrange(0, 3) =~= slots);
            self.xdnd.types = types;
            return XdndAction::Nothing;
        }
        if type_ == self.atoms.xdnd_position {
            let x = (data[2] >> 16) as i16;
            let y = (data[2] & 0xFFFF) as i16;
            self.xdnd.position = Some((x, y));
            return match self.xdnd.source {
                Some(source) => XdndAction::SendStatus { source, accept: true },
                None => XdndAction::Nothing,
            };
        }
        if type_ == self.atoms.xdnd_drop {
            self.xdnd.waiting_for_drop = true;
            return XdndAction::ConvertSelection {
                requestor: self.window_id,
                selection: self.atoms.xdnd_selection,
                target: self.atoms.text_uri_list,
                property: self.atoms.xdnd_selection,
            };
        }
        if type_ == self.atoms.xdnd_leave {
            self.xdnd = XdndState::new();
            return XdndAction::Nothing;
        }
        XdndAction::Nothing
    }

    /// Complete a drop once its data has been read as `paths`: the drag
    /// ends, the source is told whether the drop was accepted (a non-empty
    /// path list), and a non-empty list becomes a file-drop event. The second
    /// result is the `XdndFinished` reply to send, if the source is known.
    pub fn finish_drop(&mut self, paths: Vec<String>) -> (r: (Option<InputEvent>, Option<(u32, bool)>))
        ensures
            final(self).xdnd@ == idle_xdnd(),
            r.1 == (match old(self).xdnd.source {
                Some(s) => Some((s, paths.len() > 0)),
                None => None::<(u32, bool)>,
            }),
            r.0 == (if paths.len() == 0 {
                None::<InputEvent>
            } else {
                Some(InputEvent::FileDrop(paths))
            }),
            final(self).window_id == old(self).window_id,
            final(self).atoms == old(self).atoms,
            final(self).config == old(self).config,
            final(self).running == old(self).running,
            final(self).needs_redraw == old(self).needs_redraw,
            final(self).xdnd_enabled == old(self).xdnd_enabled,
    {
        let reply = match self.xdnd.source {
            Some(source) => Some((source, paths.len() > 0)),
            None => None,
        };
        self.xdnd = XdndState::new();
        if paths.len() == 0 {
            (None, reply)
        } else {
            (Some(InputEvent::FileDrop(paths)), reply)
        }
    }
}

/// The mouse event of a button press: its position, button and modifiers.
pub fn mouse_event_from_x11(detail: u8, event_x: i16, event_y: i16, state: u16) -> (m: MouseEvent)
    ensures
        m == (MouseEvent {
            position: point_of(event_x, event_y),
            button: Some(button_of(detail)),
            modifiers: modifiers_of(state),
        }),
{
    MouseEvent {
        position: Point::new(event_x as i32, event_y as i32),
        button: Some(MouseButton::from_x11(detail)),
        modifiers: modifiers_from_x11(state),
    }
}

/// The data words of an `XdndStatus` message from `window`: whether the
/// drop would be accepted (bit 0), an empty rectangle, and the copy action.
pub fn xdnd_status_message(window: u32, accept: bool, atoms: &Atoms) -> (d: [u32; 5])
    ensures
        d@ == seq![window, if accept { 1u32 } else { 0u32 }, 0u32, 0u32, atoms.xdnd_action_copy],
{
    let flags: u32 = if accept { 1 } else { 0 };
    let d = [window, flags, 0, 0, atoms.xdnd_action_copy];
    assert(d@ =~= seq![window, flags, 0u32, 0u32, atoms.xdnd_action_copy]);
    d
}

/// The data words of an `XdndFinished` message from `window`: success
/// (bit 0) and, on success, the copy action that was performed.
pub fn xdnd_finished_message(window: u32, success: bool, atoms: &Atoms) -> (d: [u32; 5])
    ensures
        d@ == seq![
            window,
            if success { 1u32 } else { 0u32 },
            if success { atoms.xdnd_action_copy } else { 0u32 },
            0u32,
            0u32,
        ],
{
    let flags: u32 = if success { 1 } else { 0 };
    let action: u32 = if success { atoms.xdnd_action_copy } else { 0 };
    let d = [window, flags, action, 0, 0];
    assert(d@ =~= seq![window, flags, action, 0u32, 0u32]);
    d
}

/// A pointer motion event of window `w`.
pub open spec fn is_own_motion(e: XEvent, w: u32) -> bool {
    e matches XEvent::MotionNotify { event, .. } && event == w
}

/// Everything but a motion event of window `w`.
pub open spec fn not_own_motion(w: u32) -> spec_fn(XEvent) -> bool {
    |e: XEvent| !is_own_motion(e, w)
}

pub open spec fn opt_seq(o: Option<XEvent>) -> Seq<XEvent> {
    match o {
        Some(e) => seq![e],
        None => Seq::empty(),
    }
}

/// Coalescing state after a prefix of the events: the output so far and the
/// motion event still held back.
pub open spec fn coalesce_acc(events: Seq<XEvent>, w: u32) -> (Seq<XEvent>, Option<XEvent>)
    decreases events.len(),
{
    if events.len() == 0 {
        (Seq::empty(), None)
    } else {
        let (out, pending) = coalesce_acc(events.drop_last(), w);
        let e = events.last();
        if is_own_motion(e, w) {
            (out, Some(e))
        } else {
            ((out + opt_seq(pending)).push(e), None)
        }
    }
}

/// The events with every run of consecutive motion events of window `w`
/// replaced by the last event of the run.
pub open spec fn coalesce_spec(events: Seq<XEvent>, w: u32) -> Seq<XEvent> {
    coalesce_acc(events, w).0 + opt_seq(coalesce_acc(events, w).1)
}

/// Coalesce consecutive motion events of window `w`, keeping only the last
/// position of each run; all other events stay, in order.
pub fn coalesce_motion_events(events: Vec<XEvent>, window_id: u32) -> (r: Vec<XEvent>)
    ensures
        r@ == coalesce_spec(events@, window_id),
{
    let mut result: Vec<XEvent> = Vec::new();
    let mut last_motion: Option<XEvent> = None;
    let mut i: usize = 0;
    assert(events@.subrange(0, 0) =~= Seq::<XEvent>::empty());
    while i < events.len()
        invariant
            i <= events.len(),
            (result@, last_motion) == coalesce_acc(events@.subrange(0, i as int), window_id),
        decreases events.len() - i,
    {
        let event = events[i];
        assert(events@.subrange(0, i + 1).drop_last() =~= events@.subrange(0, i as int));
        let own_motion = match event {
            XEvent::MotionNotify { event: ev, .. } => ev == window_id,
            _ => false,
        };
        if own_motion {
            last_motion = Some(event);
        } else {
            let ghost before = result@;
            match last_motion {
                Some(m) => {
                    result.push(m);
                },
                None => {},
            }
            last_motion = None;
            result.push(event);
            assert(result@ =~= (before + opt_seq(coalesce_acc(events@.subrange(0, i as int), window_id).1)).push(event));
        }
        i += 1;
    }
    assert(events@.subrange(0, events@.len() as int) =~= events@);
    let ghost before = result@;
    match last_motion {
        Some(m) => {
            result.push(m);
        },
        None => {},
    }
    assert(result@ =~= before + opt_seq(last_motion));
    result
}

proof fn lemma_coalesce_acc_keeps_others(events: Seq<XEvent>, w: u32)
    ensures
        coalesce_acc(events, w).0.filter(not_own_motion(w)) == events.filter(not_own_motion(w)),
        coalesce_acc(events, w).1 matches Some(m) ==> is_own_motion(m, w),
    decreases events.len(),
{
    reveal(Seq::filter);
    if events.len() > 0 {
        lemma_coalesce_acc_keeps_others(events.drop_last(), w);
        let (out, pending) = coalesce_acc(events.drop_last(), w);
        let pred = not_own_motion(w);
        Seq::filter_distributes_over_add(out, opt_seq(pending), pred);
        assert(opt_seq(pending).filter(pred) =~= Seq::<XEvent>::empty()) by {
            reveal_with_fuel(Seq::filter, 2);
            if let Some(m) = pending {
                assert(opt_seq(pending).drop_last() =~= Seq::<XEvent>::empty());
            }
        }
        assert((out + opt_seq(pending)).filter(pred) =~= out.filter(pred));
        let e = events.last();
        if !is_own_motion(e, w) {
            assert(((out + opt_seq(pending)).push(e)).drop_last() =~= out + opt_seq(pending));
        }
    }
}

/// Coalescing drops only motion events of the window: the other events come
/// out unchanged and in their order.
pub proof fn law_coalesce_keeps_other_events(events: Seq<XEvent>, w: u32)
    ensures
        coalesce_spec(events, w).filter(not_own_motion(w)) == events.filter(not_own_motion(w)),
{
    lemma_coalesce_acc_keeps_others(events, w);
    let (out, pending) = coalesce_acc(events, w);
    let pred = not_own_motion(w);
    Seq::filter_distributes_over_add(out, opt_seq(pending), pred);
    assert(opt_seq(pending).filter(pred) =~= Seq::<XEvent>::empty()) by {
        reveal_with_fuel(Seq::filter, 2);
        if let Some(m) = pending {
            assert(opt_seq(pending).drop_last() =~= Seq::<XEvent>::empty());
        }
    }
    assert(coalesce_spec(events, w).filter(pred) =~= out.filter(pred));
}

proof fn lemma_coalesce_acc_no_adjacent(events: Seq<XEvent>, w: u32)
    ensures
        forall|i: int|
            #![trigger coalesce_acc(events, w).0[i]]
            0 <= i < coalesce_acc(events, w).0.len() - 1 ==> !(is_own_motion(
                coalesce_acc(events, w).0[i],
                w,
            ) && is_own_motion(coalesce_acc(events, w).0[i + 1], w)),
        coalesce_acc(events, w).0.len() > 0 ==> !is_own_motion(coalesce_acc(events, w).0.last(), w),
    decreases events.len(),
{
    if events.len() > 0 {
        lemma_coalesce_acc_no_adjacent(events.drop_last(), w);
        let (out, pending) = coalesce_acc(events.drop_last(), w);
        let e = events.last();
        if !is_own_motion(e, w) {
            let n = (out + opt_seq(pending)).push(e);
            assert forall|i: int| 0 <= i < n.len() - 1 implies !(is_own_motion(#[trigger] n[i], w)
                && is_own_motion(n[i + 1], w)) by {
                if i < out.len() - 1 {
                    assert(n[i] == out[i]);
                    assert(n[i + 1] == out[i + 1]);
                } else if i == out.len() - 1 {
                    assert(n[i] == out.last());
                }
            }
        }
    }
}

/// After coalescing, no two consecutive events are both motion events of
/// the window.
pub proof fn law_coalesce_no_adjacent_motion(events: Seq<XEvent>, w: u32)
    ensures
        forall|i: int|
            #![trigger coalesce_spec(events, w)[i]]
            0 <= i < coalesce_spec(events, w).len() - 1 ==> !(is_own_motion(
                coalesce_spec(events, w)[i],
                w,
            ) && is_own_motion(coalesce_spec(events, w)[i + 1], w)),
{
    lemma_coalesce_acc_no_adjacent(events, w);
    let (out, pending) = coalesce_acc(events, w);
    let n = coalesce_spec(events, w);
    assert forall|i: int| 0 <= i < n.len() - 1 implies !(is_own_motion(#[trigger] n[i], w)
        && is_own_motion(n[i + 1], w)) by {
        if i < out.len() - 1 {
            assert(n[i] == out[i]);
            assert(n[i + 1] == out[i + 1]);
        } else {
            assert(n[i] == out.last());
        }
    }
}

/// When the last event is a motion event of the window, coalescing keeps it
/// as the last event: the newest pointer position is never lost.
pub proof fn law_coalesce_keeps_latest_motion(events: Seq<XEvent>, w: u32)
    requires
        events.len() > 0,
        is_own_motion(events.last(), w),
    ensures
        coalesce_spec(events, w).len() > 0,
        coalesce_spec(events, w).last() == events.last(),
{
}

/// The drag-and-drop message atoms are distinct from each other, as
/// atoms interned for distinct names are.
pub open spec fn xdnd_atoms_distinct(atoms: Atoms) -> bool {
    &&& atoms.xdnd_enter != atoms.xdnd_position
    &&& atoms.xdnd_enter != atoms.xdnd_drop
    &&& atoms.xdnd_enter != atoms.xdnd_leave
    &&& atoms.xdnd_position != atoms.xdnd_drop
    &&& atoms.xdnd_position != atoms.xdnd_leave
    &&& atoms.xdnd_drop != atoms.xdnd_leave
}

/// A position message after an enter message is acknowledged to the source
/// that entered, and the offered types of the enter message are kept.
pub proof fn law_xdnd_position_acknowledged(
    w: u32,
    atoms: Atoms,
    m: XdndModel,
    enter: [u32; 5],
    position: [u32; 5],
)
    requires
        xdnd_atoms_distinct(atoms),
    ensures
        ({
            let (m1, a1) = client_message_step(w, atoms, m, atoms.xdnd_enter, enter);
            let (m2, a2) = client_message_step(w, atoms, m1, atoms.xdnd_position, position);
            &&& a1 == XdndAction::Nothing
            &&& a2 == XdndAction::SendStatus { source: enter@[0], accept: true }
            &&& m2.source == Some(enter@[0])
            &&& m2.types == offered_types(enter)
            &&& m2.position == Some(packed_position(position@[2]))
        }),
{
}

/// Once a drop message has arrived, the selection notification that
/// delivers its data is taken by the drop: it is not reported as an input
/// event, and the data is read from the property it names (a notification
/// without a property ends the wait instead).
pub proof fn law_xdnd_drop_takes_notification(
    w: u32,
    atoms: Atoms,
    m: XdndModel,
    drop: [u32; 5],
    selection: u32,
    target: u32,
    property: u32,
    time: u32,
)
    requires
        xdnd_atoms_distinct(atoms),
    ensures
        ({
            let (m1, a1) = client_message_step(w, atoms, m, atoms.xdnd_drop, drop);
            let e = XEvent::SelectionNotify { requestor: w, selection, target, property, time };
            let (m2, a2) = xdnd_effect(w, atoms, true, m1, e);
            &&& a1 == XdndAction::ConvertSelection {
                requestor: w,
                selection: atoms.xdnd_selection,
                target: atoms.text_uri_list,
                property: atoms.xdnd_selection,
            }
            &&& input_of(w, atoms, true && m1.waiting_for_drop, e) is None
            &&& property != 0 ==> a2 == XdndAction::ReadDrop { property } && m2 == m1
            &&& property == 0 ==> a2 == XdndAction::Nothing && !m2.waiting_for_drop
        }),
{
}

/// A leave message ends the drag, whatever state it was in.
pub proof fn law_xdnd_leave_resets(w: u32, atoms: Atoms, m: XdndModel, data: [u32; 5])
    requires
        xdnd_atoms_distinct(atoms),
    ensures
        client_message_step(w, atoms, m, atoms.xdnd_leave, data) == (idle_xdnd(), XdndAction::Nothing),
{
}

/// The scroll wheel: X11 buttons 4 and 5 scroll up and down, 6 and 7 left
/// and right. A press of one of them on the window is a scroll of one step
/// at the pointer position (up and left are negative, down and right
/// positive, so opposite directions have opposite signs), with the event's
/// modifiers; its release is not reported.
pub proof fn law_scroll_directions(
    w: u32,
    atoms: Atoms,
    xdnd_wait: bool,
    button: u8,
    event_x: i16,
    event_y: i16,
    state: u16,
)
    requires
        4 <= button <= 7,
    ensures
        ({
            let press = XEvent::ButtonPress { event: w, detail: button, event_x, event_y, state };
            let release = XEvent::ButtonRelease { event: w, detail: button, event_x, event_y, state };
            let (dx, dy): (i32, i32) = if button == 4 {
                (0i32, -1i32)
            } else if button == 5 {
                (0, 1)
            } else if button == 6 {
                (-1i32, 0i32)
            } else {
                (1, 0)
            };
            &&& input_of(w, atoms, xdnd_wait, press) == Some(
                InputEvent::Scroll(
                    ScrollEvent {
                        position: Point { x: event_x as i32, y: event_y as i32 },
                        delta_x: dx,
                        delta_y: dy,
                        modifiers: modifiers_of(state),
                    },
                ),
            )
            &&& input_of(w, atoms, xdnd_wait, release) is None
        }),
{
}

/// Scrolling up and scrolling down move by one step in opposite directions,
/// as do scrolling left and right.
pub proof fn law_scroll_steps_opposite(w: u32, atoms: Atoms, xdnd_wait: bool, x: i16, y: i16, state: u16)
    ensures
        ({
            let up = input_of(w, atoms, xdnd_wait, XEvent::ButtonPress { event: w, detail: 4, event_x: x, event_y: y, state });
            let down = input_of(w, atoms, xdnd_wait, XEvent::ButtonPress { event: w, detail: 5, event_x: x, event_y: y, state });
            let left = input_of(w, atoms, xdnd_wait, XEvent::ButtonPress { event: w, detail: 6, event_x: x, event_y: y, state });
            let right = input_of(w, atoms, xdnd_wait, XEvent::ButtonPress { event: w, detail: 7, event_x: x, event_y: y, state });
            &&& up matches Some(InputEvent::Scroll(u)) && down matches Some(InputEvent::Scroll(d))
                && u.delta_y == -d.delta_y && d.delta_y > 0 && u.delta_x == 0 && d.delta_x == 0
            &&& left matches Some(InputEvent::Scroll(l)) && right matches Some(InputEvent::Scroll(r))
                && l.delta_x == -r.delta_x && r.delta_x > 0 && l.delta_y == 0 && r.delta_y == 0
        }),
{
}

} // verus!

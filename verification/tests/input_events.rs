use gartk::event_loop::{coalesce_motion_events, xdnd_finished_message, xdnd_status_message};
use gartk::{
    key_event_from_x11, key_from_keycode, modifiers_from_x11, Atoms, EventLoopConfig,
    EventLoopState, InputEvent, Key, KeyEvent, Modifiers, MouseButton, MouseEvent, Point,
    ScrollEvent, SelectionNotifyEvent, XEvent, XdndAction,
};

fn atoms() -> Atoms {
    let mut n = 100u32;
    let mut next = || {
        n += 1;
        n
    };
    Atoms {
        wm_protocols: next(),
        wm_delete_window: next(),
        wm_take_focus: next(),
        wm_name: next(),
        wm_class: next(),
        wm_state: next(),
        net_wm_name: next(),
        net_wm_window_type: next(),
        net_wm_window_type_normal: next(),
        net_wm_window_type_dialog: next(),
        net_wm_window_type_utility: next(),
        net_wm_window_type_popup_menu: next(),
        net_wm_window_type_splash: next(),
        net_wm_state: next(),
        net_wm_state_above: next(),
        net_wm_state_sticky: next(),
        net_wm_state_fullscreen: next(),
        net_wm_state_focused: next(),
        net_active_window: next(),
        net_wm_pid: next(),
        net_frame_extents: next(),
        clipboard: next(),
        primary: next(),
        targets: next(),
        utf8_string: next(),
        text: next(),
        text_uri_list: next(),
        gnome_copied_files: next(),
        text_plain: next(),
        text_plain_utf8: next(),
        multiple: next(),
        incr: next(),
        kde_cut_selection: next(),
        uri_list: next(),
        timestamp: next(),
        xdnd_aware: next(),
        xdnd_enter: next(),
        xdnd_position: next(),
        xdnd_status: next(),
        xdnd_leave: next(),
        xdnd_drop: next(),
        xdnd_finished: next(),
        xdnd_selection: next(),
        xdnd_action_copy: next(),
        cardinal: next(),
        string: next(),
        atom: next(),
        window: next(),
    }
}

const W: u32 = 42;

#[test]
fn modifiers_and_buttons() {
    let m = modifiers_from_x11(0b0100_0101);
    assert!(m.shift && m.ctrl && m.super_key && !m.alt && !m.caps_lock && !m.num_lock);
    let m = modifiers_from_x11(0b0001_1010 | 0x100);
    assert!(!m.shift && m.caps_lock && m.alt && m.num_lock);
    assert!(m.is_empty() == false);
    assert!(modifiers_from_x11(0b11010).is_empty() == false);
    assert!(modifiers_from_x11(0b10010).is_empty());
    assert_eq!(MouseButton::from_x11(1), MouseButton::Left);
    assert_eq!(MouseButton::from_x11(5), MouseButton::ScrollDown);
    assert_eq!(MouseButton::from_x11(9), MouseButton::Forward);
    assert_eq!(MouseButton::from_x11(12), MouseButton::Unknown(12));
}

#[test]
fn keys_from_keycodes() {
    let none = Modifiers::none();
    let shift = Modifiers { shift: true, ..Modifiers::none() };
    let caps = Modifiers { caps_lock: true, ..Modifiers::none() };
    let both = Modifiers { shift: true, caps_lock: true, ..Modifiers::none() };
    assert_eq!(key_from_keycode(38, &none), Key::Char('a'));
    assert_eq!(key_from_keycode(38, &shift), Key::Char('A'));
    assert_eq!(key_from_keycode(38, &caps), Key::Char('A'));
    assert_eq!(key_from_keycode(38, &both), Key::Char('a'));
    assert_eq!(key_from_keycode(10, &caps), Key::Char('1'));
    assert_eq!(key_from_keycode(10, &shift), Key::Char('!'));
    assert_eq!(key_from_keycode(48, &shift), Key::Char('"'));
    assert_eq!(key_from_keycode(51, &none), Key::Char('\\'));
    assert_eq!(key_from_keycode(9, &none), Key::Escape);
    assert_eq!(key_from_keycode(96, &none), Key::F12);
    assert_eq!(key_from_keycode(65, &shift), Key::Space);
    assert_eq!(key_from_keycode(200, &none), Key::Unknown(200));
    let e = key_event_from_x11(24, 1, true);
    assert_eq!(e.key, Key::Char('Q'));
    assert!(e.pressed && e.keycode == 24 && e.modifiers.shift);
}

#[test]
fn key_event_helpers() {
    let mut e = KeyEvent { key: Key::Space, keycode: 65, modifiers: Modifiers::none(), pressed: true };
    assert!(e.is_printable());
    assert_eq!(e.char(), Some(' '));
    e.key = Key::Tab;
    assert!(!e.is_printable());
    assert_eq!(e.char(), None);
    let ev = InputEvent::Key(e);
    assert!(ev.is_key_press(Key::Tab));
    assert!(!ev.is_key_press(Key::Escape));
    e.pressed = false;
    assert!(!InputEvent::Key(e).is_key_press(Key::Tab));
    let press = InputEvent::MousePress(MouseEvent {
        position: Point::new(1, 2),
        button: Some(MouseButton::Right),
        modifiers: Modifiers::none(),
    });
    assert!(press.is_mouse_press(MouseButton::Right));
    assert!(!press.is_mouse_press(MouseButton::Left));
    assert!(!InputEvent::Expose.is_mouse_press(MouseButton::Left));
}

fn state() -> EventLoopState {
    EventLoopState::new(W, atoms(), EventLoopConfig::default())
}

#[test]
fn loop_flags() {
    let mut s = state();
    assert!(s.running && s.needs_redraw());
    s.redraw_done();
    assert!(!s.needs_redraw());
    s.request_redraw();
    assert!(s.needs_redraw());
    s.quit();
    assert!(!s.running);
    let c = EventLoopConfig { fps: 30, continuous_redraw: true };
    let mut t = EventLoopState::new(W, atoms(), c);
    t.redraw_done();
    assert!(t.needs_redraw());
    assert_eq!(EventLoopConfig::default(), EventLoopConfig { fps: 60, continuous_redraw: false });
}

#[test]
fn basic_events() {
    let mut s = state();
    s.redraw_done();
    assert_eq!(s.translate_event(XEvent::Expose { window: 7 }), (None, XdndAction::Nothing));
    assert!(!s.needs_redraw);
    assert_eq!(s.translate_event(XEvent::Expose { window: W }), (Some(InputEvent::Expose), XdndAction::Nothing));
    assert!(s.needs_redraw);
    s.redraw_done();
    assert_eq!(
        s.translate_event(XEvent::ConfigureNotify { window: W, width: 640, height: 480 }).0,
        Some(InputEvent::Resize { width: 640, height: 480 })
    );
    assert!(s.needs_redraw);
    let key = s.translate_event(XEvent::KeyRelease { event: W, detail: 36, state: 4 }).0;
    match key {
        Some(InputEvent::Key(k)) => {
            assert_eq!(k.key, Key::Return);
            assert!(!k.pressed && k.modifiers.ctrl);
        }
        other => panic!("unexpected {:?}", other),
    }
    assert_eq!(
        s.translate_event(XEvent::ButtonPress { event: W, detail: 4, event_x: 3, event_y: -4, state: 0 }).0,
        Some(InputEvent::Scroll(ScrollEvent {
            position: Point::new(3, -4),
            delta_x: 0,
            delta_y: -1,
            modifiers: Modifiers::none()
        }))
    );
    assert_eq!(
        s.translate_event(XEvent::ButtonPress { event: W, detail: 7, event_x: 0, event_y: 0, state: 0 }).0,
        Some(InputEvent::Scroll(ScrollEvent {
            position: Point::new(0, 0),
            delta_x: 1,
            delta_y: 0,
            modifiers: Modifiers::none()
        }))
    );
    assert_eq!(
        s.translate_event(XEvent::ButtonPress { event: W, detail: 1, event_x: 5, event_y: 6, state: 1 }).0,
        Some(InputEvent::MousePress(MouseEvent {
            position: Point::new(5, 6),
            button: Some(MouseButton::Left),
            modifiers: modifiers_from_x11(1)
        }))
    );
    assert_eq!(s.translate_event(XEvent::ButtonRelease { event: W, detail: 5, event_x: 0, event_y: 0, state: 0 }).0, None);
    assert_eq!(
        s.translate_event(XEvent::ButtonRelease { event: W, detail: 3, event_x: 1, event_y: 1, state: 0 }).0,
        Some(InputEvent::MouseRelease(MouseEvent {
            position: Point::new(1, 1),
            button: Some(MouseButton::Right),
            modifiers: Modifiers::none()
        }))
    );
    assert_eq!(
        s.translate_event(XEvent::MotionNotify { event: W, event_x: 9, event_y: 8, state: 0 }).0,
        Some(InputEvent::MouseMove(MouseEvent { position: Point::new(9, 8), button: None, modifiers: Modifiers::none() }))
    );
    assert_eq!(s.translate_event(XEvent::EnterNotify { event: W, event_x: 2, event_y: 2 }).0, Some(InputEvent::MouseEnter(Point::new(2, 2))));
    assert_eq!(s.translate_event(XEvent::LeaveNotify { event: W }).0, Some(InputEvent::MouseLeave));
    assert_eq!(s.translate_event(XEvent::FocusIn { event: W }).0, Some(InputEvent::FocusIn));
    assert_eq!(s.translate_event(XEvent::FocusOut { event: 1 }).0, None);
    assert_eq!(s.translate_event(XEvent::SelectionClear { owner: W }).0, Some(InputEvent::SelectionClear));
    assert_eq!(s.translate_event(XEvent::Other).0, None);
}

#[test]
fn close_request() {
    let mut s = state();
    let a = s.atoms;
    let ev = XEvent::ClientMessage { window: W, type_: a.wm_protocols, data: [a.wm_delete_window, 0, 0, 0, 0] };
    assert_eq!(s.translate_event(ev), (Some(InputEvent::CloseRequested), XdndAction::Nothing));
    let ev = XEvent::ClientMessage { window: W, type_: a.wm_protocols, data: [a.wm_take_focus, 0, 0, 0, 0] };
    assert_eq!(s.translate_event(ev), (None, XdndAction::Nothing));
}

#[test]
fn drag_and_drop_flow() {
    let mut s = state();
    let a = s.atoms;
    let enter = XEvent::ClientMessage { window: W, type_: a.xdnd_enter, data: [900, 5 << 24, a.text_uri_list, 0, 17] };
    // not enabled: ignored
    assert_eq!(s.translate_event(enter), (None, XdndAction::Nothing));
    assert_eq!(s.xdnd.source, None);
    s.mark_xdnd_enabled();
    assert_eq!(s.translate_event(enter), (None, XdndAction::Nothing));
    assert_eq!(s.xdnd.source, Some(900));
    assert_eq!(s.xdnd.types, vec![a.text_uri_list, 17]);
    let pos = XEvent::ClientMessage { window: W, type_: a.xdnd_position, data: [900, 0, (120 << 16) | 45, 0, 0] };
    assert_eq!(s.translate_event(pos), (None, XdndAction::SendStatus { source: 900, accept: true }));
    assert_eq!(s.xdnd.position, Some((120, 45)));
    let drop = XEvent::ClientMessage { window: W, type_: a.xdnd_drop, data: [900, 0, 0, 0, 0] };
    assert_eq!(
        s.translate_event(drop),
        (None, XdndAction::ConvertSelection { requestor: W, selection: a.xdnd_selection, target: a.text_uri_list, property: a.xdnd_selection })
    );
    assert!(s.xdnd.waiting_for_drop);
    let notify = XEvent::SelectionNotify { requestor: W, selection: a.xdnd_selection, target: a.text_uri_list, property: a.xdnd_selection, time: 1 };
    assert_eq!(s.translate_event(notify), (None, XdndAction::ReadDrop { property: a.xdnd_selection }));
    let (ev, reply) = s.finish_drop(vec!["/tmp/x".to_string()]);
    assert_eq!(ev, Some(InputEvent::FileDrop(vec!["/tmp/x".to_string()])));
    assert_eq!(reply, Some((900, true)));
    assert_eq!(s.xdnd.source, None);
    assert!(!s.xdnd.waiting_for_drop);
    // after the drop, selection notifications are ordinary events again
    assert_eq!(
        s.translate_event(notify).0,
        Some(InputEvent::SelectionNotify(SelectionNotifyEvent { requestor: W, selection: a.xdnd_selection, target: a.text_uri_list, property: a.xdnd_selection, time: 1 }))
    );
    // a failed conversion just stops waiting
    s.translate_event(enter);
    s.translate_event(drop);
    let failed = XEvent::SelectionNotify { requestor: W, selection: 0, target: 0, property: 0, time: 2 };
    assert_eq!(s.translate_event(failed), (None, XdndAction::Nothing));
    assert!(!s.xdnd.waiting_for_drop);
    // an empty drop is answered as refused and produces no event
    let (ev, reply) = s.finish_drop(vec![]);
    assert_eq!((ev, reply), (None, Some((900, false))));
    let (ev, reply) = s.finish_drop(vec![]);
    assert_eq!((ev, reply), (None, None));
    // leave resets the drag
    s.translate_event(enter);
    s.translate_event(XEvent::ClientMessage { window: W, type_: a.xdnd_leave, data: [900, 0, 0, 0, 0] });
    assert_eq!(s.xdnd.source, None);
    assert!(s.xdnd.types.is_empty());
    // position before any enter: no status to send
    assert_eq!(s.translate_event(pos), (None, XdndAction::Nothing));
    assert_eq!(xdnd_status_message(W, true, &a), [W, 1, 0, 0, a.xdnd_action_copy]);
    assert_eq!(xdnd_finished_message(W, false, &a), [W, 0, 0, 0, 0]);
    assert_eq!(xdnd_finished_message(W, true, &a), [W, 1, a.xdnd_action_copy, 0, 0]);
}

#[test]
fn coalescing_keeps_last_motion_of_each_run() {
    let m = |x: i16| XEvent::MotionNotify { event: W, event_x: x, event_y: 0, state: 0 };
    let other_window = XEvent::MotionNotify { event: 7, event_x: 1, event_y: 1, state: 0 };
    let key = XEvent::KeyPress { event: W, detail: 38, state: 0 };
    let evs = vec![m(1), m(2), key, other_window, m(3), m(4), m(5)];
    assert_eq!(coalesce_motion_events(evs, W), vec![m(2), key, other_window, m(5)]);
    assert_eq!(coalesce_motion_events(vec![], W), vec![]);
    assert_eq!(coalesce_motion_events(vec![key, key], W), vec![key, key]);
}

#[test]
fn modifiers_that_do_not_change_keys() {
    // Control, Alt, Super and Num Lock leave the key unchanged
    let plain = key_from_keycode(38, &modifiers_from_x11(0));
    assert_eq!(plain, Key::Char('a'));
    assert_eq!(key_from_keycode(38, &modifiers_from_x11(4 | 8 | 64 | 16)), plain);
    // Caps Lock changes letters only
    assert_eq!(key_from_keycode(38, &modifiers_from_x11(2)), Key::Char('A'));
    assert_eq!(key_from_keycode(38, &modifiers_from_x11(1 | 2)), Key::Char('a'));
    assert_eq!(key_from_keycode(10, &modifiers_from_x11(2)), Key::Char('1'));
    assert_eq!(key_from_keycode(10, &modifiers_from_x11(1 | 2)), Key::Char('!'));
    assert_eq!(key_from_keycode(9, &modifiers_from_x11(2)), Key::Escape);
}

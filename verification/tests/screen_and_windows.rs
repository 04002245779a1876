use gartk::monitor::{
    active_window_target, index_at_point, is_on_other_desktop, is_usable_active_window, monitors_from_outputs,
    needs_crtc_info, primary_index, rect_holds, window_center,
};
use gartk::window::{
    choose_visual, find_visual, supported_protocols, window_position, window_type_atom,
    wm_class_value, DepthVisuals, VisualChoice,
};
use gartk::monitor::MonitorTarget;
use gartk::{Atoms, CrtcGeometry, CursorCache, CursorShape, Monitor, OutputReport, Point, Rect, Size, WindowConfig, WindowType};

fn output(id: u32, name: &str, x: i16, w: u16, connected: bool) -> OutputReport {
    OutputReport {
        output: id,
        name: name.as_bytes().to_vec(),
        connected,
        crtc: if connected { id + 100 } else { 0 },
        mm_width: 300,
        mm_height: 200,
        crtc_geometry: Some(CrtcGeometry { x, y: 0, width: w, height: 1080 }),
    }
}

#[test]
fn monitors_sorted_primary_first_then_by_x() {
    let outs = vec![
        output(1, "HDMI-1", 1920, 1920, true),
        output(2, "eDP-1", 0, 1920, true),
        output(3, "DP-1", -1920, 1920, true),
        output(4, "DP-2", 5000, 1920, false),
        output(5, "DP-3", 3840, 0, true),
    ];
    let ms = monitors_from_outputs(&outs, Some(1), 3840, 1080);
    let names: Vec<&str> = ms.iter().map(|m| m.name.as_str()).collect();
    assert_eq!(names, vec!["HDMI-1", "DP-1", "eDP-1"]);
    assert!(ms[0].primary && !ms[1].primary);
    assert_eq!(ms[1].rect, Rect::new(-1920, 0, 1920, 1080));
    assert_eq!(ms[2].width_mm, 300);
    assert_eq!(primary_index(&ms), Some(0));
}

#[test]
fn monitors_equal_keys_keep_output_order() {
    let outs = vec![output(1, "A", 0, 10, true), output(2, "B", 0, 20, true), output(3, "C", -5, 10, true)];
    let ms = monitors_from_outputs(&outs, None, 100, 100);
    let names: Vec<&str> = ms.iter().map(|m| m.name.as_str()).collect();
    assert_eq!(names, vec!["C", "A", "B"]);
    // primary output id 0 means no primary
    let ms = monitors_from_outputs(&outs, Some(0), 100, 100);
    assert!(ms.iter().all(|m| !m.primary));
    assert_eq!(primary_index(&ms), Some(0));
}

#[test]
fn monitors_fallback_to_screen() {
    let mut o = output(1, "X", 0, 10, true);
    o.crtc_geometry = None;
    let ms = monitors_from_outputs(&vec![o], Some(1), 1280, 800);
    assert_eq!(
        ms,
        vec![Monitor { name: "default".to_string(), rect: Rect::new(0, 0, 1280, 800), primary: true, width_mm: 0, height_mm: 0 }]
    );
    assert!(needs_crtc_info(true, 3));
    assert!(!needs_crtc_info(true, 0));
    assert!(!needs_crtc_info(false, 3));
}

#[test]
fn monitor_lookup_by_point() {
    let m = |x: i32| Monitor { name: String::new(), rect: Rect::new(x, 0, 100, 100), primary: false, width_mm: 0, height_mm: 0 };
    let ms = vec![m(0), m(100), m(200)];
    assert_eq!(index_at_point(&ms, 150, 50), Some(1));
    assert_eq!(index_at_point(&ms, 100, 0), Some(1));
    assert_eq!(index_at_point(&ms, 500, 50), Some(0));
    assert_eq!(index_at_point(&vec![], 0, 0), None);
    assert_eq!(primary_index(&vec![]), None);
    assert_eq!(ms[1].center(), Point::new(150, 50));
    assert!(rect_holds(Rect::new(i32::MAX - 1, 0, 10, 10), Point::new(i32::MAX, 5)));
}

#[test]
fn active_window_helpers() {
    assert!(is_usable_active_window(5, 1));
    assert!(!is_usable_active_window(0, 1));
    assert!(!is_usable_active_window(1, 1));
    assert!(is_on_other_desktop(Some(0), Some(1)));
    assert!(!is_on_other_desktop(Some(1), Some(1)));
    assert!(!is_on_other_desktop(Some(1), Some(0xFFFF_FFFF)));
    assert!(!is_on_other_desktop(None, Some(2)));
    assert_eq!(window_center(-10, 20, 101, 50), (40, 45));
}

#[test]
fn window_config_builders() {
    let c = WindowConfig::new()
        .title("Example")
        .class("gar")
        .size(640, 480)
        .position(3, 4)
        .override_redirect(true)
        .background(0xff00ff00)
        .border_width(2)
        .map_on_create(false)
        .transparent(true)
        .window_type(WindowType::Utility);
    assert_eq!(c.title, "Example");
    assert_eq!(c.class, "gar");
    assert_eq!(c.size, Size::new(640, 480));
    assert_eq!(c.position, Some(Point::new(3, 4)));
    assert!(c.override_redirect && !c.map_on_create && c.transparent);
    assert_eq!(c.background, Some(0xff00ff00));
    assert_eq!(c.border_width, 2);
    assert_eq!(c.window_type, WindowType::Utility);
    assert_eq!(c.centered().position, None);
    let d = WindowConfig::default();
    assert_eq!(d.size, Size::new(400, 300));
    assert!(d.map_on_create && !d.transparent && d.title.is_empty());
    let p = WindowConfig::popup();
    assert!(p.override_redirect);
    assert_eq!(p.window_type, WindowType::PopupMenu);
    assert_eq!(WindowConfig::dialog().window_type, WindowType::Dialog);
    assert_eq!(WindowType::default(), WindowType::Normal);
}

#[test]
fn window_position_centres_with_truncation() {
    let c = WindowConfig::new().size(400, 300);
    assert_eq!(window_position(&c, 1920, 1080), Point::new(760, 390));
    let big = WindowConfig::new().size(2001, 1201);
    // negative offsets round toward zero
    assert_eq!(window_position(&big, 1920, 1080), Point::new(-40, -60));
    let placed = WindowConfig::new().position(-5, 7);
    assert_eq!(window_position(&placed, 10, 10), Point::new(-5, 7));
}

#[test]
fn window_properties() {
    assert_eq!(wm_class_value("gar"), Some("gar\0gar\0".to_string()));
    assert_eq!(wm_class_value(""), None);
    let mut a: Atoms = unsafe_free_atoms();
    a.net_wm_window_type_splash = 77;
    a.wm_delete_window = 5;
    a.wm_take_focus = 6;
    assert_eq!(window_type_atom(&a, WindowType::Splash), 77);
    assert_eq!(supported_protocols(&a), [5, 6]);
}

fn unsafe_free_atoms() -> Atoms {
    Atoms {
        wm_protocols: 1, wm_delete_window: 2, wm_take_focus: 3, wm_name: 4, wm_class: 5, wm_state: 6,
        net_wm_name: 7, net_wm_window_type: 8, net_wm_window_type_normal: 9, net_wm_window_type_dialog: 10,
        net_wm_window_type_utility: 11, net_wm_window_type_popup_menu: 12, net_wm_window_type_splash: 13,
        net_wm_state: 14, net_wm_state_above: 15, net_wm_state_sticky: 16, net_wm_state_fullscreen: 17,
        net_wm_state_focused: 18, net_active_window: 19, net_wm_pid: 20, net_frame_extents: 21,
        clipboard: 22, primary: 23, targets: 24, utf8_string: 25, text: 26, text_uri_list: 27,
        gnome_copied_files: 28, text_plain: 29, text_plain_utf8: 30, multiple: 31, incr: 32,
        kde_cut_selection: 33, uri_list: 34, timestamp: 35, xdnd_aware: 36, xdnd_enter: 37,
        xdnd_position: 38, xdnd_status: 39, xdnd_leave: 40, xdnd_drop: 41, xdnd_finished: 42,
        xdnd_selection: 43, xdnd_action_copy: 44, cardinal: 45, string: 46, atom: 47, window: 48,
    }
}

#[test]
fn visuals() {
    let depths = vec![
        DepthVisuals { depth: 24, visuals: vec![(10, 4), (11, 4)] },
        DepthVisuals { depth: 32, visuals: vec![(20, 3)] },
        DepthVisuals { depth: 32, visuals: vec![(21, 5), (22, 4)] },
    ];
    assert_eq!(find_visual(&depths, 32), Some(22));
    assert_eq!(find_visual(&depths, 24), Some(10));
    assert_eq!(find_visual(&depths, 8), None);
    assert_eq!(choose_visual(true, Some(22), 10, 24), VisualChoice { visual: 22, depth: 32, own_colormap: true });
    assert_eq!(choose_visual(true, None, 10, 24), VisualChoice { visual: 10, depth: 24, own_colormap: false });
    assert_eq!(choose_visual(false, Some(22), 10, 24), VisualChoice { visual: 10, depth: 24, own_colormap: false });
}

#[test]
fn cursor_glyphs() {
    assert_eq!(CursorShape::Default.glyph(), 68);
    assert_eq!(CursorShape::Text.glyph(), 152);
    assert_eq!(CursorShape::NotAllowed.glyph(), 0);
    assert_eq!(CursorShape::ResizeSW.mask_glyph(), 13);
}

#[test]
fn cursor_cache_answers_what_was_remembered() {
    let mut cache = CursorCache::new();
    assert_eq!(cache.cached(CursorShape::Text), None);
    assert!(cache.cursors().is_empty());
    cache.remember(CursorShape::Text, 0x40_0001);
    cache.remember(CursorShape::Default, 0x40_0002);
    assert_eq!(cache.cached(CursorShape::Text), Some(0x40_0001));
    assert_eq!(cache.cached(CursorShape::Default), Some(0x40_0002));
    assert_eq!(cache.cached(CursorShape::Pointer), None);
    // listed in the order of the shapes, not of creation
    assert_eq!(cache.cursors(), vec![0x40_0002, 0x40_0001]);
    cache.remember(CursorShape::Text, 0x40_0003);
    assert_eq!(cache.cached(CursorShape::Text), Some(0x40_0003));
    assert_eq!(cache.cursors(), vec![0x40_0002, 0x40_0003]);
}

#[test]
fn active_window_target_choices() {
    let root = 1;
    let geom = Some((100i16, -20i16, 801u16, 600u16));
    // a usable window on the current desktop: its centre
    assert_eq!(
        active_window_target(Some(0x2a), root, Some(1), Some(1), geom),
        MonitorTarget::Point { x: 500, y: 280 }
    );
    // sticky windows and unknown desktops count as current
    assert_eq!(
        active_window_target(Some(0x2a), root, Some(1), Some(0xFFFF_FFFF), geom),
        MonitorTarget::Point { x: 500, y: 280 }
    );
    assert_eq!(active_window_target(Some(0x2a), root, None, Some(3), geom), MonitorTarget::Point { x: 500, y: 280 });
    // a stale window on another desktop, no window, the root, or no geometry: the pointer
    assert_eq!(active_window_target(Some(0x2a), root, Some(1), Some(2), geom), MonitorTarget::Pointer);
    assert_eq!(active_window_target(None, root, Some(1), Some(1), geom), MonitorTarget::Pointer);
    assert_eq!(active_window_target(Some(0), root, None, None, geom), MonitorTarget::Pointer);
    assert_eq!(active_window_target(Some(root), root, None, None, geom), MonitorTarget::Pointer);
    assert_eq!(active_window_target(Some(0x2a), root, Some(1), Some(1), None), MonitorTarget::Pointer);
}

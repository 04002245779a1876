use gartk::clipboard::file_uri;
use gartk::uri::{decode_uri_path, drop_paths, encode_uri_path, urlencoded_decode};
use gartk::{Atoms, ClipboardContent, ClipboardState, SelectionReply, SelectionRequestEvent};

#[test]
fn test_encode_uri_path() {
    assert_eq!(encode_uri_path("/home/user/file.txt"), "/home/user/file.txt");
    assert_eq!(encode_uri_path("/home/user/my file.txt"), "/home/user/my%20file.txt");
    assert_eq!(encode_uri_path("/home/user/file#1.txt"), "/home/user/file%231.txt");
}

#[test]
fn test_decode_uri_path() {
    assert_eq!(decode_uri_path("/home/user/file.txt"), "/home/user/file.txt");
    assert_eq!(decode_uri_path("/home/user/my%20file.txt"), "/home/user/my file.txt");
    assert_eq!(decode_uri_path("/home/user/file%231.txt"), "/home/user/file#1.txt");
}

#[test]
fn encode_non_ascii_uses_utf8_bytes() {
    assert_eq!(encode_uri_path("/tmp/é"), "/tmp/%C3%A9");
    assert_eq!(encode_uri_path("a:b~c_d-e.f"), "a:b~c_d-e.f");
}

#[test]
fn decode_roundtrip_on_values() {
    for p in ["/home/user/my file.txt", "/tmp/é ü/100%.txt", "", "%%", "/a+b?c=d&e"] {
        assert_eq!(decode_uri_path(&encode_uri_path(p)), p);
    }
}

#[test]
fn decode_malformed_escapes() {
    // an invalid escape is kept as it stands
    assert_eq!(decode_uri_path("a%zzb"), "a%zzb");
    assert_eq!(decode_uri_path("100%zz"), "100%zz");
    // so is a trailing percent with fewer than two characters after it
    assert_eq!(decode_uri_path("ab%4"), "ab%4");
    assert_eq!(decode_uri_path("a%2"), "a%2");
    assert_eq!(decode_uri_path("%"), "%");
    // decoding goes on right after a kept percent sign
    assert_eq!(decode_uri_path("%%41"), "%A");
    // lowercase hex and an explicit plus sign are accepted by the hex parser
    assert_eq!(decode_uri_path("%2f%+9"), "/\t");
    // invalid UTF-8 after decoding is replaced
    assert_eq!(decode_uri_path("%FF"), "\u{FFFD}");
}

#[test]
fn urlencoded_decode_cases() {
    assert_eq!(urlencoded_decode("/home/my%20dir"), "/home/my dir");
    assert_eq!(urlencoded_decode("%zz"), "%zz");
    assert_eq!(urlencoded_decode("100%"), "100%");
    assert_eq!(urlencoded_decode("%4"), "%4");
    assert_eq!(urlencoded_decode("/a%zz"), "/a%zz");
    // decoded bytes are read as UTF-8
    assert_eq!(urlencoded_decode("/tmp/caf%C3%A9"), "/tmp/café");
    assert_eq!(urlencoded_decode("%C3%A9"), "é");
    assert_eq!(urlencoded_decode("%FF"), "\u{FFFD}");
}

#[test]
fn drop_paths_from_uri_list() {
    let data = b"# comment\r\nfile:///home/a%20b.txt\r\n\r\nhttp://x/y\r\n  file:///tmp/c  \r\n".to_vec();
    assert_eq!(drop_paths(&data), vec!["/home/a b.txt".to_string(), "/tmp/c".to_string()]);
    assert_eq!(drop_paths(&vec![0xff, 0xfe]), Vec::<String>::new());
    let utf8 = b"file:///home/%C3%BC/caf%C3%A9.txt\r\n".to_vec();
    assert_eq!(drop_paths(&utf8), vec!["/home/ü/café.txt".to_string()]);
    assert_eq!(drop_paths(&Vec::new()), Vec::<String>::new());
}

fn atoms() -> Atoms {
    let mut n = 0u32;
    let mut next = || {
        n += 1;
        n
    };
    Atoms {
        wm_protocols: next(),
        wm_delete_window: next(),
        wm_take_focus: next(),
        wm_name: next(),
        wm_class: next(),
        wm_state: next(),
        net_wm_name: next(),
        net_wm_window_type: next(),
        net_wm_window_type_normal: next(),
        net_wm_window_type_dialog: next(),
        net_wm_window_type_utility: next(),
        net_wm_window_type_popup_menu: next(),
        net_wm_window_type_splash: next(),
        net_wm_state: next(),
        net_wm_state_above: next(),
        net_wm_state_sticky: next(),
        net_wm_state_fullscreen: next(),
        net_wm_state_focused: next(),
        net_active_window: next(),
        net_wm_pid: next(),
        net_frame_extents: next(),
        clipboard: next(),
        primary: next(),
        targets: next(),
        utf8_string: next(),
        text: next(),
        text_uri_list: next(),
        gnome_copied_files: next(),
        text_plain: next(),
        text_plain_utf8: next(),
        multiple: next(),
        incr: next(),
        kde_cut_selection: next(),
        uri_list: next(),
        timestamp: next(),
        xdnd_aware: next(),
        xdnd_enter: next(),
        xdnd_position: next(),
        xdnd_status: next(),
        xdnd_leave: next(),
        xdnd_drop: next(),
        xdnd_finished: next(),
        xdnd_selection: next(),
        xdnd_action_copy: next(),
        cardinal: next(),
        string: next(),
        atom: next(),
        window: next(),
    }
}

fn request(a: &Atoms, target: u32, property: u32) -> SelectionRequestEvent {
    SelectionRequestEvent { requestor: 77, selection: a.clipboard, target, property, time: 5 }
}

#[test]
fn file_uri_encodes_path() {
    assert_eq!(file_uri("/home/user/my file.txt"), "file:///home/user/my%20file.txt");
}

#[test]
fn clipboard_formats() {
    let c = ClipboardContent {
        uris: vec!["file:///a".to_string(), "file:///b%20c".to_string()],
        is_cut: true,
    };
    assert_eq!(c.format_uri_list(), "file:///a\r\nfile:///b%20c\r\n");
    assert_eq!(c.format_gnome_copied_files(), "cut\nfile:///a\nfile:///b%20c");
    assert_eq!(c.format_uri_list_plain(), "file:///a\nfile:///b%20c");
    assert_eq!(c.format_plain_text(), "/a\n/b c");
    let copy = ClipboardContent { uris: vec![], is_cut: false };
    assert_eq!(copy.format_gnome_copied_files(), "copy");
    assert_eq!(copy.format_uri_list(), "");
}

#[test]
fn clipboard_store_and_ownership() {
    let mut s = ClipboardState::new(9);
    assert!(!s.has_content());
    assert!(!s.store_files(vec![], true, 3));
    assert!(!s.has_content());
    assert!(s.store_files(vec!["file:///x".to_string()], true, 3));
    assert!(s.has_content());
    assert!(s.is_cut());
    assert_eq!(s.selection_time, 3);
    s.confirm_owner(9);
    assert!(s.has_content());
    s.confirm_owner(10);
    assert!(!s.has_content());
    assert!(s.store_files(vec!["file:///x".to_string()], false, 4));
    assert!(!s.is_cut());
    s.handle_selection_clear();
    assert!(!s.has_content());
}

#[test]
fn clipboard_replies() {
    let a = atoms();
    let mut s = ClipboardState::new(9);
    // no content: refused
    assert_eq!(s.selection_reply(&a, &request(&a, a.targets, 40)), SelectionReply::Refuse);
    s.store_files(vec!["file:///a b".to_string()], true, 1234);
    // another selection: refused
    let mut other = request(&a, a.targets, 40);
    other.selection = a.primary;
    assert_eq!(s.selection_reply(&a, &other), SelectionReply::Refuse);
    // TARGETS with the KDE marker for a cut
    assert_eq!(
        s.selection_reply(&a, &request(&a, a.targets, 40)),
        SelectionReply::Targets {
            property: 40,
            targets: vec![
                a.targets,
                a.timestamp,
                a.text_uri_list,
                a.gnome_copied_files,
                a.kde_cut_selection,
                a.utf8_string,
                a.text_plain_utf8,
                a.text_plain,
                a.text,
                a.string
            ],
        }
    );
    // property 0 falls back to the target
    assert_eq!(
        s.selection_reply(&a, &request(&a, a.timestamp, 0)),
        SelectionReply::Timestamp { property: a.timestamp, time: 1234 }
    );
    assert_eq!(
        s.selection_reply(&a, &request(&a, a.uri_list, 41)),
        SelectionReply::Data { property: 41, type_atom: a.uri_list, text: "file:///a b\r\n".to_string() }
    );
    assert_eq!(
        s.selection_reply(&a, &request(&a, a.gnome_copied_files, 41)),
        SelectionReply::Data {
            property: 41,
            type_atom: a.gnome_copied_files,
            text: "cut\nfile:///a b".to_string()
        }
    );
    assert_eq!(
        s.selection_reply(&a, &request(&a, a.kde_cut_selection, 41)),
        SelectionReply::Data { property: 41, type_atom: a.kde_cut_selection, text: "1".to_string() }
    );
    assert_eq!(
        s.selection_reply(&a, &request(&a, a.text_plain_utf8, 41)),
        SelectionReply::Data { property: 41, type_atom: a.utf8_string, text: "file:///a b".to_string() }
    );
    assert_eq!(
        s.selection_reply(&a, &request(&a, a.text_plain, 41)),
        SelectionReply::Data { property: 41, type_atom: a.text, text: "file:///a b".to_string() }
    );
    assert_eq!(
        s.selection_reply(&a, &request(&a, a.string, 41)),
        SelectionReply::Data { property: 41, type_atom: a.string, text: "file:///a b".to_string() }
    );
    assert_eq!(s.selection_reply(&a, &request(&a, a.incr, 41)), SelectionReply::Refuse);
    // a copy: no KDE marker, marker value "0"
    s.store_files(vec!["file:///c".to_string()], false, 7);
    match s.selection_reply(&a, &request(&a, a.targets, 40)) {
        SelectionReply::Targets { targets, .. } => {
            assert_eq!(targets.len(), 9);
            assert!(!targets.contains(&a.kde_cut_selection));
        }
        other => panic!("unexpected reply {:?}", other),
    }
    assert_eq!(
        s.selection_reply(&a, &request(&a, a.kde_cut_selection, 41)),
        SelectionReply::Data { property: 41, type_atom: a.kde_cut_selection, text: "0".to_string() }
    );
}

#[test]
fn plain_text_recovers_stored_paths() {
    let paths = ["/tmp/a b", "/home/ü/#1", "/x%y", "/"];
    let c = ClipboardContent { uris: paths.iter().map(|p| file_uri(p)).collect(), is_cut: false };
    assert_eq!(c.format_plain_text(), paths.join("\n"));
}

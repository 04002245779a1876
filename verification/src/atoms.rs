use vstd::prelude::*;

verus! {

/// Interned X11 atoms that the toolkit uses.
#[derive(Debug, Clone, Copy, PartialEq, Eq, Structural)]
pub struct Atoms {
    // Window manager hints
    pub wm_protocols: u32,
    pub wm_delete_window: u32,
    pub wm_take_focus: u32,
    pub wm_name: u32,
    pub wm_class: u32,
    pub wm_state: u32,
    // EWMH
    pub net_wm_name: u32,
    pub net_wm_window_type: u32,
    pub net_wm_window_type_normal: u32,
    pub net_wm_window_type_dialog: u32,
    pub net_wm_window_type_utility: u32,
    pub net_wm_window_type_popup_menu: u32,
    pub net_wm_window_type_splash: u32,
    pub net_wm_state: u32,
    pub net_wm_state_above: u32,
    pub net_wm_state_sticky: u32,
    pub net_wm_state_fullscreen: u32,
    pub net_wm_state_focused: u32,
    pub net_active_window: u32,
    pub net_wm_pid: u32,
    pub net_frame_extents: u32,
    // Clipboard
    pub clipboard: u32,
    pub primary: u32,
    pub targets: u32,
    pub utf8_string: u32,
    pub text: u32,
    pub text_uri_list: u32,
    pub gnome_copied_files: u32,
    pub text_plain: u32,
    pub text_plain_utf8: u32,
    pub multiple: u32,
    pub incr: u32,
    pub kde_cut_selection: u32,
    pub uri_list: u32,
    pub timestamp: u32,
    // Drag and drop (XDND)
    pub xdnd_aware: u32,
    pub xdnd_enter: u32,
    pub xdnd_position: u32,
    pub xdnd_status: u32,
    pub xdnd_leave: u32,
    pub xdnd_drop: u32,
    pub xdnd_finished: u32,
    pub xdnd_selection: u32,
    pub xdnd_action_copy: u32,
    // Property types
    pub cardinal: u32,
    pub string: u32,
    pub atom: u32,
    pub window: u32,
}

} // verus!

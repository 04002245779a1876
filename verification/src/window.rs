use vstd::prelude::*;
use crate::atoms::Atoms;
use crate::rect::{in_i32, signed, Point, Size};
use crate::text::{chars_of, push_char, push_str, string_from};
use x11rb::protocol::xproto::VisualClass;

verus! {

/// Window type hint for the window manager.
#[derive(Debug, Clone, Copy, PartialEq, Eq, Structural)]
pub enum WindowType {
    Normal,
    Dialog,
    Utility,
    PopupMenu,
    Splash,
}

impl Default for WindowType {
    fn default() -> (t: Self)
        ensures
            t == WindowType::Normal,
    {
        WindowType::Normal
    }
}

/// Configuration for window creation.
#[derive(Debug, Clone, PartialEq, Eq)]
pub struct WindowConfig {
    /// Window title
    pub title: String,
    /// Window class (for WM_CLASS)
    pub class: String,
    /// Position (None for centered or WM-managed)
    pub position: Option<Point>,
    /// Size
    pub size: Size,
    /// Whether to use override-redirect (bypass WM)
    pub override_redirect: bool,
    /// Window type
    pub window_type: WindowType,
    /// Background color (ARGB)
    pub background: Option<u32>,
    /// Border width
    pub border_width: u32,
    /// Whether the window should be mapped immediately
    pub map_on_create: bool,
    /// Whether to request ARGB visual for transparency
    pub transparent: bool,
}

/// The abstract value of a window configuration.
pub struct WindowConfigModel {
    pub title: Seq<char>,
    pub class: Seq<char>,
    pub position: Option<Point>,
    pub size: Size,
    pub override_redirect: bool,
    pub window_type: WindowType,
    pub background: Option<u32>,
    pub border_width: u32,
    pub map_on_create: bool,
    pub transparent: bool,
}

impl View for WindowConfig {
    type V = WindowConfigModel;

    open spec fn view(&self) -> WindowConfigModel {
        WindowConfigModel {
            title: self.title@,
            class: self.class@,
            position: self.position,
            size: self.size,
            override_redirect: self.override_redirect,
            window_type: self.window_type,
            background: self.background,
            border_width: self.border_width,
            map_on_create: self.map_on_create,
            transparent: self.transparent,
        }
    }
}

/// The default configuration: untitled, no class, centred, 400x300, managed
/// by the window manager, normal type, no background, no border, mapped at
/// once, opaque.
pub open spec fn default_window_config() -> WindowConfigModel {
    WindowConfigModel {
        title: Seq::empty(),
        class: Seq::empty(),
        position: None,
        size: Size { width: 400, height: 300 },
        override_redirect: false,
        window_type: WindowType::Normal,
        background: None,
        border_width: 0,
        map_on_create: true,
        transparent: false,
    }
}

impl Default for WindowConfig {
    fn default() -> (c: Self)
        ensures
            c@ == default_window_config(),
    {
        WindowConfig {
            title: String::new(),
            class: String::new(),
            position: None,
            size: Size::new(400, 300),
            override_redirect: false,
            window_type: WindowType::Normal,
            background: None,
            border_width: 0,
            map_on_create: true,
            transparent: false,
        }
    }
}

impl WindowConfig {
    pub fn new() -> (c: Self)
        ensures
            c@ == default_window_config(),
    {
        WindowConfig::default()
    }

    pub fn title(self, title: &str) -> (c: Self)
        ensures
            c@ == (WindowConfigModel { title: title@, ..self@ }),
    {
        WindowConfig { title: string_from(&chars_of(title)), ..self }
    }

    pub fn class(self, class: &str) -> (c: Self)
        ensures
            c@ == (WindowConfigModel { class: class@, ..self@ }),
    {
        WindowConfig { class: string_from(&chars_of(class)), ..self }
    }

    pub fn position(self, x: i32, y: i32) -> (c: Self)
        ensures
            c@ == (WindowConfigModel { position: Some(Point { x, y }), ..self@ }),
    {
        WindowConfig { position: Some(Point::new(x, y)), ..self }
    }

    /// Centre the window on the screen.
    pub fn centered(self) -> (c: Self)
        ensures
            c@ == (WindowConfigModel { position: None, ..self@ }),
    {
        WindowConfig { position: None, ..self }
    }

    pub fn size(self, width: u32, height: u32) -> (c: Self)
        ensures
            c@ == (WindowConfigModel { size: Size { width, height }, ..self@ }),
    {
        WindowConfig { size: Size::new(width, height), ..self }
    }

    pub fn override_redirect(self, value: bool) -> (c: Self)
        ensures
            c@ == (WindowConfigModel { override_redirect: value, ..self@ }),
    {
        WindowConfig { override_redirect: value, ..self }
    }

    pub fn window_type(self, wtype: WindowType) -> (c: Self)
        ensures
            c@ == (WindowConfigModel { window_type: wtype, ..self@ }),
    {
        WindowConfig { window_type: wtype, ..self }
    }

    pub fn background(self, color: u32) -> (c: Self)
        ensures
            c@ == (WindowConfigModel { background: Some(color), ..self@ }),
    {
        WindowConfig { background: Some(color), ..self }
    }

    pub fn border_width(self, width: u32) -> (c: Self)
        ensures
            c@ == (WindowConfigModel { border_width: width, ..self@ }),
    {
        WindowConfig { border_width: width, ..self }
    }

    pub fn map_on_create(self, value: bool) -> (c: Self)
        ensures
            c@ == (WindowConfigModel { map_on_create: value, ..self@ }),
    {
        WindowConfig { map_on_create: value, ..self }
    }

    pub fn transparent(self, value: bool) -> (c: Self)
        ensures
            c@ == (WindowConfigModel { transparent: value, ..self@ }),
    {
        WindowConfig { transparent: value, ..self }
    }

    /// A popup: the default configuration, bypassing the window manager,
    /// typed as a popup menu.
    pub fn popup() -> (c: Self)
        ensures
            c@ == (WindowConfigModel {
                override_redirect: true,
                window_type: WindowType::PopupMenu,
                ..default_window_config()
            }),
    {
        WindowConfig::default().override_redirect(true).window_type(WindowType::PopupMenu)
    }

    /// A dialog: the default configuration typed as a dialog.
    pub fn dialog() -> (c: Self)
        ensures
            c@ == (WindowConfigModel { window_type: WindowType::Dialog, ..default_window_config() }),
    {
        WindowConfig::default().window_type(WindowType::Dialog)
    }
}

/// Division by two rounding toward zero, as integer division does.
pub open spec fn half_toward_zero(v: int) -> int {
    if v >= 0 {
        v / 2
    } else {
        -((-v) / 2)
    }
}

/// The offset that centres an extent `len` (read as a signed 32-bit value)
/// in a screen extent `screen`.
pub open spec fn centred_offset(screen: u16, len: u32) -> int {
    half_toward_zero(screen - signed(len))
}

/// The centring arithmetic stays within `i32`.
pub open spec fn centring_fits(screen_width: u16, screen_height: u16, size: Size) -> bool {
    in_i32(screen_width - signed(size.width)) && in_i32(screen_height - signed(size.height))
}

/// Where a window is created: its configured position, or centred on the
/// screen.
pub fn window_position(config: &WindowConfig, screen_width: u16, screen_height: u16) -> (p: Point)
    requires
        config.position is None ==> centring_fits(screen_width, screen_height, config.size),
    ensures
        p == match config.position {
            Some(q) => q,
            None => Point {
                x: centred_offset(screen_width, config.size.width) as i32,
                y: centred_offset(screen_height, config.size.height) as i32,
            },
        },
{
    match config.position {
        Some(q) => q,
        None => {
            let dx = screen_width as i32 - config.size.width as i32;
            let dy = screen_height as i32 - config.size.height as i32;
            Point::new(dx / 2, dy / 2)
        },
    }
}

/// The `_NET_WM_WINDOW_TYPE_*` atom of a window type.
pub open spec fn type_atom_spec(atoms: Atoms, wtype: WindowType) -> u32 {
    match wtype {
        WindowType::Normal => atoms.net_wm_window_type_normal,
        WindowType::Dialog => atoms.net_wm_window_type_dialog,
        WindowType::Utility => atoms.net_wm_window_type_utility,
        WindowType::PopupMenu => atoms.net_wm_window_type_popup_menu,
        WindowType::Splash => atoms.net_wm_window_type_splash,
    }
}

/// The `_NET_WM_WINDOW_TYPE_*` atom of a window type.
pub fn window_type_atom(atoms: &Atoms, wtype: WindowType) -> (a: u32)
    ensures
        a == type_atom_spec(*atoms, wtype),
{
    match wtype {
        WindowType::Normal => atoms.net_wm_window_type_normal,
        WindowType::Dialog => atoms.net_wm_window_type_dialog,
        WindowType::Utility => atoms.net_wm_window_type_utility,
        WindowType::PopupMenu => atoms.net_wm_window_type_popup_menu,
        WindowType::Splash => atoms.net_wm_window_type_splash,
    }
}

/// The `WM_PROTOCOLS` a window supports: `WM_DELETE_WINDOW`, `WM_TAKE_FOCUS`.
pub fn supported_protocols(atoms: &Atoms) -> (p: [u32; 2])
    ensures
        p@ == seq![atoms.wm_delete_window, atoms.wm_take_focus],
{
    let p = [atoms.wm_delete_window, atoms.wm_take_focus];
    assert(p@ =~= seq![atoms.wm_delete_window, atoms.wm_take_focus]);
    p
}

/// The `WM_CLASS` value for a class name, `instance NUL class NUL` with
/// both parts the class; none for an empty class, which is not set.
pub fn wm_class_value(class: &str) -> (r: Option<String>)
    ensures
        class@.len() == 0 ==> r is None,
        class@.len() > 0 ==> (r matches Some(v) && v@ == class@ + seq!['\0'] + class@ + seq!['\0']),
{
    let v = chars_of(class);
    if v.len() == 0 {
        return None;
    }
    let mut s = String::new();
    push_str(&mut s, class);
    push_char(&mut s, '\0');
    push_str(&mut s, class);
    push_char(&mut s, '\0');
    Some(s)
}

/// The visuals of one depth that a screen supports: id and class of each.
#[derive(Debug, Clone, PartialEq, Eq)]
pub struct DepthVisuals {
    pub depth: u8,
    pub visuals: Vec<(u32, u8)>,
}

/// Reads x11rb's `VisualClass::TRUE_COLOR`; the contract states its value,
/// 4, as x11rb defines it.
#[verifier::external_body]
fn true_color_class() -> (c: u8)
    ensures
        c == 4,
{
    u8::from(VisualClass::TRUE_COLOR)
}

/// The first TrueColor visual (class 4) of the given depth, searching the
/// depths in order.
pub open spec fn true_color_visual(depths: Seq<DepthVisuals>, depth: u8) -> Option<u32>
    decreases depths.len(),
{
    if depths.len() == 0 {
        None
    } else {
        let first = if depths[0].depth == depth {
            first_true_color(depths[0].visuals@)
        } else {
            None
        };
        match first {
            Some(v) => Some(v),
            None => true_color_visual(depths.drop_first(), depth),
        }
    }
}

/// The first visual of class TrueColor (4).
pub open spec fn first_true_color(visuals: Seq<(u32, u8)>) -> Option<u32>
    decreases visuals.len(),
{
    if visuals.len() == 0 {
        None
    } else if visuals[0].1 == 4 {
        Some(visuals[0].0)
    } else {
        first_true_color(visuals.drop_first())
    }
}

fn find_true_color(visuals: &Vec<(u32, u8)>) -> (r: Option<u32>)
    ensures
        r == first_true_color(visuals@),
{
    let tc = true_color_class();
    let n = visuals.len();
    let mut i: usize = 0;
    assert(visuals@.subrange(0, n as int) =~= visuals@);
    while i < n
        invariant
            i <= n == visuals@.len(),
            tc == 4,
            first_true_color(visuals@.subrange(i as int, n as int)) == first_true_color(visuals@),
        decreases n - i,
    {
        let (id, class) = visuals[i];
        assert(visuals@.subrange(i as int, n as int).drop_first() =~= visuals@.subrange(
            i + 1,
            n as int,
        ));
        if class == tc {
            return Some(id);
        }
        i += 1;
    }
    assert(visuals@.subrange(n as int, n as int) =~= Seq::<(u32, u8)>::empty());
    None
}

/// Find a TrueColor visual with the given depth.
pub fn find_visual(depths: &Vec<DepthVisuals>, depth: u8) -> (r: Option<u32>)
    ensures
        r == true_color_visual(depths@, depth),
{
    let n = depths.len();
    let mut i: usize = 0;
    assert(depths@.subrange(0, n as int) =~= depths@);
    while i < n
        invariant
            i <= n == depths@.len(),
            true_color_visual(depths@.subrange(i as int, n as int), depth) == true_color_visual(
                depths@,
                depth,
            ),
        decreases n - i,
    {
        assert(depths@.subrange(i as int, n as int).drop_first() =~= depths@.subrange(
            i + 1,
            n as int,
        ));
        if depths[i].depth == depth {
            match find_true_color(&depths[i].visuals) {
                Some(v) => {
                    return Some(v);
                },
                None => {},
            }
        }
        i += 1;
    }
    assert(depths@.subrange(n as int, n as int) =~= Seq::<DepthVisuals>::empty());
    None
}

/// The visual, depth and colormap use of a new window.
#[derive(Debug, Clone, Copy, PartialEq, Eq, Structural)]
pub struct VisualChoice {
    pub visual: u32,
    pub depth: u8,
    /// A colormap must be created for the visual
    pub own_colormap: bool,
}

/// Choose the visual for a window: a transparent window uses the 32-bit
/// ARGB visual with its own colormap when the screen has one; otherwise the
/// screen's default visual and depth.
pub fn choose_visual(transparent: bool, argb_visual: Option<u32>, default_visual: u32, default_depth: u8) -> (c: VisualChoice)
    ensures
        c == (if transparent && argb_visual is Some {
            VisualChoice { visual: argb_visual->0, depth: 32, own_colormap: true }
        } else {
            VisualChoice { visual: default_visual, depth: default_depth, own_colormap: false }
        }),
{
    if transparent {
        if let Some(v) = argb_visual {
            return VisualChoice { visual: v, depth: 32, own_colormap: true };
        }
    }
    VisualChoice { visual: default_visual, depth: default_depth, own_colormap: false }
}

} // verus!

use vstd::prelude::*;
use crate::rect::{in_i32, Point, Rect};
use crate::text::{chars_of, string_from, string_from_utf8_lossy, utf8_lossy};

verus! {

/// Information about a monitor.
#[derive(Debug, Clone, PartialEq, Eq)]
pub struct Monitor {
    /// Monitor name (e.g., "eDP-1", "HDMI-1")
    pub name: String,
    /// Monitor bounds in screen coordinates
    pub rect: Rect,
    /// Whether this is the primary monitor
    pub primary: bool,
    /// Monitor width in millimeters (for DPI calculation)
    pub width_mm: u32,
    /// Monitor height in millimeters
    pub height_mm: u32,
}

/// The abstract value of a monitor.
pub struct MonitorModel {
    pub name: Seq<char>,
    pub rect: Rect,
    pub primary: bool,
    pub width_mm: u32,
    pub height_mm: u32,
}

impl View for Monitor {
    type V = MonitorModel;

    open spec fn view(&self) -> MonitorModel {
        MonitorModel {
            name: self.name@,
            rect: self.rect,
            primary: self.primary,
            width_mm: self.width_mm,
            height_mm: self.height_mm,
        }
    }
}

impl Monitor {
    /// Get center point of monitor.
    pub fn center(&self) -> (c: Point)
        requires
            in_i32(self.rect.x + self.rect.width / 2),
            in_i32(self.rect.y + self.rect.height / 2),
        ensures
            c.x == self.rect.x + self.rect.width / 2,
            c.y == self.rect.y + self.rect.height / 2,
    {
        self.rect.center()
    }
}

/// The position and size of a CRTC as RandR reports them.
#[derive(Debug, Clone, Copy, PartialEq, Eq, Structural)]
pub struct CrtcGeometry {
    pub x: i16,
    pub y: i16,
    pub width: u16,
    pub height: u16,
}

/// What RandR reported about one output.
#[derive(Debug, Clone, PartialEq, Eq)]
pub struct OutputReport {
    /// The output's id
    pub output: u32,
    /// The output's name as RandR gives it (bytes, normally UTF-8)
    pub name: Vec<u8>,
    /// The output is connected
    pub connected: bool,
    /// The CRTC driving it (0: none)
    pub crtc: u32,
    /// Physical width in millimeters
    pub mm_width: u32,
    /// Physical height in millimeters
    pub mm_height: u32,
    /// The CRTC's geometry, when it could be read
    pub crtc_geometry: Option<CrtcGeometry>,
}

/// Whether an output's CRTC has to be looked up: it is connected and driven.
pub fn needs_crtc_info(connected: bool, crtc: u32) -> (b: bool)
    ensures
        b == (connected && crtc != 0),
{
    connected && crtc != 0
}

/// The output is the primary one (`primary` as reported, where 0 means none).
pub open spec fn is_primary_output(output: u32, primary: Option<u32>) -> bool {
    primary matches Some(p) && p != 0 && p == output
}

/// The monitor that an output shows, if it is connected, driven by a CRTC
/// whose geometry is known, and enabled (non-zero size).
pub open spec fn monitor_of(o: OutputReport, primary: Option<u32>) -> Option<MonitorModel> {
    if o.connected && o.crtc != 0 && o.crtc_geometry is Some && o.crtc_geometry->0.width != 0
        && o.crtc_geometry->0.height != 0 {
        let g = o.crtc_geometry->0;
        Some(
            MonitorModel {
                name: utf8_lossy(o.name@),
                rect: Rect {
                    x: g.x as i32,
                    y: g.y as i32,
                    width: g.width as u32,
                    height: g.height as u32,
                },
                primary: is_primary_output(o.output, primary),
                width_mm: o.mm_width,
                height_mm: o.mm_height,
            },
        )
    } else {
        None
    }
}

/// The monitors that a list of outputs shows, in output order.
pub open spec fn monitors_of(outputs: Seq<OutputReport>, primary: Option<u32>) -> Seq<MonitorModel>
    decreases outputs.len(),
{
    if outputs.len() == 0 {
        Seq::empty()
    } else {
        let init = monitors_of(outputs.drop_last(), primary);
        match monitor_of(outputs.last(), primary) {
            Some(m) => init.push(m),
            None => init,
        }
    }
}

/// `a` is listed before `b`: primary monitors first, then left to right.
pub open spec fn listed_before(a: MonitorModel, b: MonitorModel) -> bool {
    (a.primary && !b.primary) || (a.primary == b.primary && a.rect.x < b.rect.x)
}

/// The sort key of a monitor.
pub open spec fn sort_key(m: MonitorModel) -> (bool, i32) {
    (m.primary, m.rect.x)
}

/// The monitors with a given sort key.
pub open spec fn with_key(k: (bool, i32)) -> spec_fn(MonitorModel) -> bool {
    |m: MonitorModel| sort_key(m) == k
}

/// No monitor is listed after one that should come after it.
pub open spec fn is_ordered(s: Seq<MonitorModel>) -> bool {
    forall|i: int, j: int| 0 <= i < j < s.len() ==> !listed_before(#[trigger] s[j], #[trigger] s[i])
}

/// `out` lists the monitors of `input` in listing order, monitors with
/// equal keys in their original order.
pub open spec fn is_stable_order_of(out: Seq<MonitorModel>, input: Seq<MonitorModel>) -> bool {
    &&& is_ordered(out)
    &&& forall|k: (bool, i32)| #[trigger] out.filter(with_key(k)) == input.filter(with_key(k))
}

/// The abstract values of a list of monitors.
pub open spec fn models(v: Seq<Monitor>) -> Seq<MonitorModel> {
    v.map_values(|m: Monitor| m@)
}

/// The monitor used when RandR shows none: the whole screen, primary.
pub open spec fn fallback_monitor(screen_width: u16, screen_height: u16) -> MonitorModel {
    MonitorModel {
        name: "default"@,
        rect: Rect { x: 0, y: 0, width: screen_width as u32, height: screen_height as u32 },
        primary: true,
        width_mm: 0,
        height_mm: 0,
    }
}

proof fn lemma_filter_push<A>(s: Seq<A>, e: A, pred: spec_fn(A) -> bool)
    ensures
        s.push(e).filter(pred) == (if pred(e) {
            s.filter(pred).push(e)
        } else {
            s.filter(pred)
        }),
{
    reveal(Seq::filter);
    assert(s.push(e).drop_last() =~= s);
}

proof fn lemma_filter_none<A>(s: Seq<A>, pred: spec_fn(A) -> bool)
    requires
        forall|i: int| 0 <= i < s.len() ==> !pred(#[trigger] s[i]),
    ensures
        s.filter(pred) == Seq::<A>::empty(),
    decreases s.len(),
{
    reveal(Seq::filter);
    if s.len() > 0 {
        lemma_filter_none(s.drop_last(), pred);
    }
}

/// Inserting `e` at the first position whose monitor comes after it keeps
/// the list ordered and keeps every key class in insertion order.
proof fn lemma_insert_ordered(out: Seq<MonitorModel>, input: Seq<MonitorModel>, e: MonitorModel, pos: int)
    requires
        is_stable_order_of(out, input),
        0 <= pos <= out.len(),
        forall|j: int| 0 <= j < pos ==> !listed_before(e, #[trigger] out[j]),
        pos < out.len() ==> listed_before(e, out[pos]),
    ensures
        is_stable_order_of(out.insert(pos, e), input.push(e)),
{
    let n = out.insert(pos, e);
    assert forall|j: int| pos <= j < out.len() implies listed_before(e, #[trigger] out[j]) by {
        if j > pos {
            assert(!listed_before(out[j], out[pos]));
        }
    }
    assert forall|i: int, j: int| 0 <= i < j < n.len() implies !listed_before(
        #[trigger] n[j],
        #[trigger] n[i],
    ) by {
        if j < pos {
            assert(n[i] == out[i] && n[j] == out[j]);
        } else if j == pos {
            assert(n[i] == out[i]);
        } else if i == pos {
            assert(n[j] == out[j - 1]);
        } else if i < pos {
            assert(n[i] == out[i] && n[j] == out[j - 1]);
        } else {
            assert(n[i] == out[i - 1] && n[j] == out[j - 1]);
        }
    }
    let front = out.subrange(0, pos);
    let back = out.subrange(pos, out.len() as int);
    assert(out =~= front + back);
    assert(n =~= front + seq![e] + back);
    assert forall|k: (bool, i32)| #[trigger] n.filter(with_key(k)) == input.push(e).filter(
        with_key(k),
    ) by {
        let p = with_key(k);
        Seq::filter_distributes_over_add(front, back, p);
        Seq::filter_distributes_over_add(front + seq![e], back, p);
        Seq::filter_distributes_over_add(front, seq![e], p);
        lemma_filter_push(input, e, p);
        lemma_filter_push(Seq::<MonitorModel>::empty(), e, p);
        assert(seq![e] =~= Seq::<MonitorModel>::empty().push(e));
        assert(Seq::<MonitorModel>::empty().filter(p) =~= Seq::<MonitorModel>::empty()) by {
            reveal(Seq::filter);
        }
        if sort_key(e) == k {
            assert forall|j: int| 0 <= j < back.len() implies !p(#[trigger] back[j]) by {
                assert(back[j] == out[pos + j]);
                assert(listed_before(e, out[pos + j]));
            }
            lemma_filter_none(back, p);
            assert(n.filter(p) =~= front.filter(p).push(e));
            assert(out.filter(p) =~= front.filter(p));
        } else {
            assert(n.filter(p) =~= front.filter(p) + back.filter(p));
        }
    }
}

/// What monitor detection yields for RandR's outputs: the monitors they
/// show in listing order, or the fallback monitor when they show none.
pub open spec fn detected(
    out: Seq<MonitorModel>,
    outputs: Seq<OutputReport>,
    primary: Option<u32>,
    screen_width: u16,
    screen_height: u16,
) -> bool {
    let shown = monitors_of(outputs, primary);
    if shown.len() == 0 {
        out == seq![fallback_monitor(screen_width, screen_height)]
    } else {
        is_stable_order_of(out, shown)
    }
}

/// The monitors that RandR's outputs show: primary first, then by x
/// position (stable), or the whole screen as a primary monitor named
/// `default` when there are none.
pub fn monitors_from_outputs(
    outputs: &Vec<OutputReport>,
    primary: Option<u32>,
    screen_width: u16,
    screen_height: u16,
) -> (r: Vec<Monitor>)
    ensures
        detected(models(r@), outputs@, primary, screen_width, screen_height),
{
    let mut out: Vec<Monitor> = Vec::new();
    let mut i: usize = 0;
    assert(outputs@.subrange(0, 0) =~= Seq::<OutputReport>::empty());
    assert(models(out@) =~= Seq::<MonitorModel>::empty());
    assert forall|k: (bool, i32)| #[trigger] models(out@).filter(with_key(k)) == monitors_of(
        outputs@.subrange(0, 0),
        primary,
    ).filter(with_key(k)) by {
        reveal(Seq::filter);
    }
    while i < outputs.len()
        invariant
            i <= outputs.len(),
            is_stable_order_of(models(out@), monitors_of(outputs@.subrange(0, i as int), primary)),
        decreases outputs.len() - i,
    {
        let o = &outputs[i];
        assert(outputs@.subrange(0, i + 1).drop_last() =~= outputs@.subrange(0, i as int));
        assert(outputs@.subrange(0, i + 1).last() == *o);
        if o.connected && o.crtc != 0 {
            match o.crtc_geometry {
                Some(g) => {
                    if g.width != 0 && g.height != 0 {
                        let is_primary = match primary {
                            Some(p) => p != 0 && p == o.output,
                            None => false,
                        };
                        let m = Monitor {
                            name: string_from_utf8_lossy(&o.name),
                            rect: Rect::new(g.x as i32, g.y as i32, g.width as u32, g.height as u32),
                            primary: is_primary,
                            width_mm: o.mm_width,
                            height_mm: o.mm_height,
                        };
                        let mut pos: usize = 0;
                        while pos < out.len() && !before(&m, &out[pos])
                            invariant
                                pos <= out.len(),
                                forall|j: int| 0 <= j < pos ==> !listed_before(m@, #[trigger] models(out@)[j]),
                            decreases out.len() - pos,
                        {
                            pos += 1;
                        }
                        let ghost old_models = models(out@);
                        proof {
                            lemma_insert_ordered(
                                old_models,
                                monitors_of(outputs@.subrange(0, i as int), primary),
                                m@,
                                pos as int,
                            );
                        }
                        out.insert(pos, m);
                        assert(models(out@) =~= old_models.insert(pos as int, m@));
                    }
                },
                None => {},
            }
        }
        i += 1;
    }
    assert(outputs@.subrange(0, outputs@.len() as int) =~= outputs@);
    if out.len() == 0 {
        proof {
            let ms = monitors_of(outputs@, primary);
            if ms.len() > 0 {
                let k = sort_key(ms[0]);
                let p = with_key(k);
                assert(models(out@).filter(p) =~= Seq::<MonitorModel>::empty()) by {
                    reveal(Seq::filter);
                    assert(models(out@) =~= Seq::<MonitorModel>::empty());
                }
                assert(ms.filter(p).len() > 0) by {
                    Seq::lemma_filter_contains(ms, p, 0);
                }
                assert(false);
            }
        }
        let name = string_from(&chars_of("default"));
        out.push(
            Monitor {
                name,
                rect: Rect::new(0, 0, screen_width as u32, screen_height as u32),
                primary: true,
                width_mm: 0,
                height_mm: 0,
            },
        );
        assert(models(out@) =~= seq![fallback_monitor(screen_width, screen_height)]);
    } else {
        proof {
            let ms = monitors_of(outputs@, primary);
            if ms.len() == 0 {
                let k = sort_key(models(out@)[0]);
                let p = with_key(k);
                assert(ms.filter(p) =~= Seq::<MonitorModel>::empty()) by {
                    reveal(Seq::filter);
                }
                assert(models(out@).filter(p).len() > 0) by {
                    Seq::lemma_filter_contains(models(out@), p, 0);
                }
                assert(false);
            }
        }
    }
    out
}

/// Whether monitor `a` is listed before monitor `b`.
fn before(a: &Monitor, b: &Monitor) -> (r: bool)
    ensures
        r == listed_before(a@, b@),
{
    (a.primary && !b.primary) || (a.primary == b.primary && a.rect.x < b.rect.x)
}

/// Whether the point lies in the rectangle, computed without overflow.
pub fn rect_holds(r: Rect, p: Point) -> (b: bool)
    ensures
        b == r.holds(p),
{
    let right = r.x as i64 + (r.width as i32) as i64;
    let bottom = r.y as i64 + (r.height as i32) as i64;
    p.x >= r.x && (p.x as i64) < right && p.y >= r.y && (p.y as i64) < bottom
}

/// The monitor to use for a point: the first that contains it, else the
/// first monitor; none for an empty list.
pub fn index_at_point(monitors: &Vec<Monitor>, x: i32, y: i32) -> (r: Option<usize>)
    ensures
        match r {
            Some(i) => i < monitors.len() && (monitors@[i as int].rect.holds(Point { x, y }) || (
            i == 0 && forall|j: int| 0 <= j < monitors.len() ==> !(#[trigger] monitors@[j]).rect.holds(Point { x, y })))
                && forall|j: int| 0 <= j < i ==> !(#[trigger] monitors@[j]).rect.holds(Point { x, y }),
            None => monitors.len() == 0,
        },
{
    let p = Point::new(x, y);
    let mut i: usize = 0;
    while i < monitors.len()
        invariant
            i <= monitors.len(),
            p == (Point { x, y }),
            forall|j: int| 0 <= j < i ==> !(#[trigger] monitors@[j]).rect.holds(p),
        decreases monitors.len() - i,
    {
        if rect_holds(monitors[i].rect, p) {
            return Some(i);
        }
        i += 1;
    }
    if monitors.len() > 0 {
        Some(0)
    } else {
        None
    }
}

/// The primary monitor: the first marked primary, else the first monitor;
/// none for an empty list.
pub fn primary_index(monitors: &Vec<Monitor>) -> (r: Option<usize>)
    ensures
        match r {
            Some(i) => i < monitors.len() && (monitors@[i as int].primary || (i == 0 && forall|j: int|
                0 <= j < monitors.len() ==> !(#[trigger] monitors@[j]).primary)) && forall|j: int|
                0 <= j < i ==> !(#[trigger] monitors@[j]).primary,
            None => monitors.len() == 0,
        },
{
    let mut i: usize = 0;
    while i < monitors.len()
        invariant
            i <= monitors.len(),
            forall|j: int| 0 <= j < i ==> !(#[trigger] monitors@[j]).primary,
        decreases monitors.len() - i,
    {
        if monitors[i].primary {
            return Some(i);
        }
        i += 1;
    }
    if monitors.len() > 0 {
        Some(0)
    } else {
        None
    }
}

/// Whether `_NET_ACTIVE_WINDOW` names a usable window: set, and not the root.
pub fn is_usable_active_window(window: u32, root: u32) -> (b: bool)
    ensures
        b == (window != 0 && window != root),
{
    window != 0 && window != root
}

/// Whether the active window is stale: it lives on another desktop than the
/// current one (0xFFFFFFFF means all desktops). Unknown desktops are not
/// evidence of staleness.
pub fn is_on_other_desktop(current_desktop: Option<u32>, window_desktop: Option<u32>) -> (b: bool)
    ensures
        b == (current_desktop is Some && window_desktop is Some && window_desktop->0 != 0xFFFF_FFFFu32
            && window_desktop->0 != current_desktop->0),
{
    match (current_desktop, window_desktop) {
        (Some(c), Some(w)) => w != 0xFFFF_FFFFu32 && w != c,
        _ => false,
    }
}

/// The centre of a window from its origin in root coordinates and its size.
pub fn window_center(dst_x: i16, dst_y: i16, width: u16, height: u16) -> (c: (i32, i32))
    ensures
        c.0 == dst_x + width / 2,
        c.1 == dst_y + height / 2,
{
    (dst_x as i32 + width as i32 / 2, dst_y as i32 + height as i32 / 2)
}

/// Where to look for the monitor of the active window.
#[derive(Debug, Clone, Copy, PartialEq, Eq, Structural)]
pub enum MonitorTarget {
    /// The monitor under the pointer
    Pointer,
    /// The monitor containing this point (the active window's centre)
    Point { x: i32, y: i32 },
}

/// The monitor target for the active window: the centre of the window named
/// by `_NET_ACTIVE_WINDOW` when it is usable, on the current desktop and of
/// known geometry (origin in root coordinates, width, height); otherwise the
/// pointer.
pub open spec fn active_target_spec(
    window: Option<u32>,
    root: u32,
    current_desktop: Option<u32>,
    window_desktop: Option<u32>,
    geometry: Option<(i16, i16, u16, u16)>,
) -> MonitorTarget {
    match window {
        Some(w) => if w != 0 && w != root && !(current_desktop is Some && window_desktop is Some
            && window_desktop->0 != 0xFFFF_FFFFu32 && window_desktop->0 != current_desktop->0) {
            match geometry {
                Some((x, y, width, height)) => MonitorTarget::Point {
                    x: (x + width / 2) as i32,
                    y: (y + height / 2) as i32,
                },
                None => MonitorTarget::Pointer,
            }
        } else {
            MonitorTarget::Pointer
        },
        None => MonitorTarget::Pointer,
    }
}

/// Decide where to look for the active window's monitor, from what the
/// window manager reports: the active window (if any), the root window, the
/// current desktop and the window's desktop (when known), and the window's
/// geometry (when it could be read).
pub fn active_window_target(
    window: Option<u32>,
    root: u32,
    current_desktop: Option<u32>,
    window_desktop: Option<u32>,
    geometry: Option<(i16, i16, u16, u16)>,
) -> (t: MonitorTarget)
    ensures
        t == active_target_spec(window, root, current_desktop, window_desktop, geometry),
{
    match window {
        Some(w) => {
            if !is_usable_active_window(w, root) || is_on_other_desktop(current_desktop, window_desktop) {
                return MonitorTarget::Pointer;
            }
            match geometry {
                Some((x, y, width, height)) => {
                    let (cx, cy) = window_center(x, y, width, height);
                    MonitorTarget::Point { x: cx, y: cy }
                },
                None => MonitorTarget::Pointer,
            }
        },
        None => MonitorTarget::Pointer,
    }
}

/// Detected monitors are listed primary first: if any is primary, the
/// first one is.
pub proof fn law_primary_listed_first(out: Seq<MonitorModel>, input: Seq<MonitorModel>)
    requires
        is_stable_order_of(out, input),
        exists|i: int| 0 <= i < out.len() && (#[trigger] out[i]).primary,
    ensures
        out[0].primary,
{
    let i = choose|i: int| 0 <= i < out.len() && (#[trigger] out[i]).primary;
    if i > 0 {
        assert(!listed_before(out[i], out[0]));
    }
}

/// Detection always yields at least one monitor, so the primary monitor and
/// the monitor at a point are always found.
pub proof fn law_detection_never_empty(
    out: Seq<MonitorModel>,
    outputs: Seq<OutputReport>,
    primary: Option<u32>,
    screen_width: u16,
    screen_height: u16,
)
    requires
        detected(out, outputs, primary, screen_width, screen_height),
    ensures
        out.len() > 0,
{
    let shown = monitors_of(outputs, primary);
    if shown.len() > 0 {
        let k = sort_key(shown[0]);
        shown.lemma_filter_contains(with_key(k), 0);
        if out.len() == 0 {
            lemma_filter_none(out, with_key(k));
            assert(shown.filter(with_key(k)).len() == 0);
        }
    }
}

/// Ordering loses no monitor and adds none: every monitor of the input is
/// listed, and every listed monitor comes from the input.
pub proof fn law_ordering_keeps_monitors(out: Seq<MonitorModel>, input: Seq<MonitorModel>, m: MonitorModel)
    requires
        is_stable_order_of(out, input),
    ensures
        out.contains(m) <==> input.contains(m),
{
    let k = sort_key(m);
    if input.contains(m) {
        let i = choose|i: int| 0 <= i < input.len() && input[i] == m;
        input.lemma_filter_contains(with_key(k), i);
        out.lemma_filter_contains_rev(with_key(k), m);
    }
    if out.contains(m) {
        let i = choose|i: int| 0 <= i < out.len() && out[i] == m;
        out.lemma_filter_contains(with_key(k), i);
        input.lemma_filter_contains_rev(with_key(k), m);
    }
}

proof fn lemma_monitors_of_source(outputs: Seq<OutputReport>, primary: Option<u32>, m: MonitorModel)
    requires
        monitors_of(outputs, primary).contains(m),
    ensures
        exists|j: int| 0 <= j < outputs.len() && monitor_of(#[trigger] outputs[j], primary) == Some(m),
    decreases outputs.len(),
{
    let init = monitors_of(outputs.drop_last(), primary);
    let last = outputs.len() - 1;
    if monitor_of(outputs[last], primary) == Some(m) {
    } else {
        if let Some(x) = monitor_of(outputs.last(), primary) {
            let k = choose|k: int| 0 <= k < init.push(x).len() && init.push(x)[k] == m;
            assert(init[k] == m);
        }
        assert(init.contains(m));
        lemma_monitors_of_source(outputs.drop_last(), primary, m);
        let j = choose|j: int| 0 <= j < outputs.drop_last().len() && monitor_of(
            #[trigger] outputs.drop_last()[j],
            primary,
        ) == Some(m);
        assert(outputs.drop_last()[j] == outputs[j]);
    }
}

proof fn lemma_monitors_of_shows(outputs: Seq<OutputReport>, primary: Option<u32>, j: int, m: MonitorModel)
    requires
        0 <= j < outputs.len(),
        monitor_of(outputs[j], primary) == Some(m),
    ensures
        monitors_of(outputs, primary).contains(m),
    decreases outputs.len(),
{
    let init = monitors_of(outputs.drop_last(), primary);
    if j == outputs.len() - 1 {
        assert(monitors_of(outputs, primary) == init.push(m));
        assert(init.push(m)[init.len() as int] == m);
    } else {
        assert(outputs.drop_last()[j] == outputs[j]);
        lemma_monitors_of_shows(outputs.drop_last(), primary, j, m);
        let k = choose|k: int| 0 <= k < init.len() && init[k] == m;
        match monitor_of(outputs.last(), primary) {
            Some(x) => {
                assert(init.push(x)[k] == m);
            },
            None => {},
        }
    }
}

/// When RandR shows monitors, each detected monitor is one output's CRTC:
/// it lies exactly where the CRTC scans out (its x, y, width and height),
/// the output is connected and driven, and the monitor carries the output's
/// physical size and is primary exactly when that output is the primary one.
pub proof fn law_detected_monitor_is_crtc_area(
    out: Seq<MonitorModel>,
    outputs: Seq<OutputReport>,
    primary: Option<u32>,
    screen_width: u16,
    screen_height: u16,
    i: int,
)
    requires
        detected(out, outputs, primary, screen_width, screen_height),
        monitors_of(outputs, primary).len() > 0,
        0 <= i < out.len(),
    ensures
        exists|j: int|
            0 <= j < outputs.len() && #[trigger] outputs[j].connected && outputs[j].crtc != 0
                && (outputs[j].crtc_geometry matches Some(g) && g.width != 0 && g.height != 0
                && out[i].rect.x == g.x && out[i].rect.y == g.y && out[i].rect.width == g.width
                && out[i].rect.height == g.height) && out[i].width_mm == outputs[j].mm_width
                && out[i].height_mm == outputs[j].mm_height && out[i].primary == (primary == Some(
                outputs[j].output,
            ) && outputs[j].output != 0),
{
    let shown = monitors_of(outputs, primary);
    assert(out.contains(out[i]));
    law_ordering_keeps_monitors(out, shown, out[i]);
    lemma_monitors_of_source(outputs, primary, out[i]);
    let j = choose|j: int| 0 <= j < outputs.len() && monitor_of(#[trigger] outputs[j], primary) == Some(out[i]);
    assert(outputs[j].connected);
}

/// Conversely, every connected output driven by an enabled CRTC is
/// detected as a monitor covering exactly that CRTC's area.
pub proof fn law_every_enabled_output_detected(
    out: Seq<MonitorModel>,
    outputs: Seq<OutputReport>,
    primary: Option<u32>,
    screen_width: u16,
    screen_height: u16,
    j: int,
)
    requires
        detected(out, outputs, primary, screen_width, screen_height),
        0 <= j < outputs.len(),
        outputs[j].connected,
        outputs[j].crtc != 0,
        outputs[j].crtc_geometry matches Some(g) && g.width != 0 && g.height != 0,
    ensures
        exists|i: int|
            0 <= i < out.len() && (outputs[j].crtc_geometry matches Some(g) && (#[trigger] out[i]).rect.x
                == g.x && out[i].rect.y == g.y && out[i].rect.width == g.width && out[i].rect.height
                == g.height),
{
    let shown = monitors_of(outputs, primary);
    let m = monitor_of(outputs[j], primary)->0;
    lemma_monitors_of_shows(outputs, primary, j, m);
    assert(shown.len() > 0);
    law_ordering_keeps_monitors(out, shown, m);
    let i = choose|i: int| 0 <= i < out.len() && out[i] == m;
    assert(out[i] == m);
}

} // verus!

use vstd::prelude::*;

verus! {

/// A 2D point.
#[derive(Debug, Clone, Copy, PartialEq, Eq, Structural)]
pub struct Point {
    pub x: i32,
    pub y: i32,
}

impl Point {
    pub fn new(x: i32, y: i32) -> (p: Self)
        ensures
            p.x == x,
            p.y == y,
    {
        Point { x, y }
    }

    /// The point (0, 0).
    pub fn origin() -> (p: Self)
        ensures
            p.x == 0,
            p.y == 0,
    {
        Point { x: 0, y: 0 }
    }
}

impl Default for Point {
    fn default() -> (p: Self)
        ensures
            p.x == 0,
            p.y == 0,
    {
        Point { x: 0, y: 0 }
    }
}

impl From<(i32, i32)> for Point {
    fn from(t: (i32, i32)) -> (p: Self) {
        Point { x: t.0, y: t.1 }
    }
}

impl vstd::std_specs::convert::FromSpecImpl<(i32, i32)> for Point {
    open spec fn obeys_from_spec() -> bool {
        true
    }

    open spec fn from_spec(t: (i32, i32)) -> Point {
        Point { x: t.0, y: t.1 }
    }
}

/// A 2D size.
#[derive(Debug, Clone, Copy, PartialEq, Eq, Structural)]
pub struct Size {
    pub width: u32,
    pub height: u32,
}

impl Size {
    pub fn new(width: u32, height: u32) -> (s: Self)
        ensures
            s.width == width,
            s.height == height,
    {
        Size { width, height }
    }

    /// Number of pixels covered: width times height, computed without overflow.
    pub fn area(self) -> (a: u64)
        ensures
            a == self.width as int * self.height as int,
    {
        assert(self.width as int * self.height as int <= u32::MAX as int * u32::MAX as int)
            by (nonlinear_arith);
        assert(u32::MAX as int * u32::MAX as int <= u64::MAX);
        self.width as u64 * self.height as u64
    }

    /// The empty size.
    pub fn zero() -> (s: Self)
        ensures
            s.width == 0,
            s.height == 0,
    {
        Size { width: 0, height: 0 }
    }
}

impl Default for Size {
    fn default() -> (s: Self)
        ensures
            s.width == 0,
            s.height == 0,
    {
        Size { width: 0, height: 0 }
    }
}

impl From<(u32, u32)> for Size {
    fn from(t: (u32, u32)) -> (s: Self) {
        Size { width: t.0, height: t.1 }
    }
}

impl vstd::std_specs::convert::FromSpecImpl<(u32, u32)> for Size {
    open spec fn obeys_from_spec() -> bool {
        true
    }

    open spec fn from_spec(t: (u32, u32)) -> Size {
        Size { width: t.0, height: t.1 }
    }
}

/// A rectangle with position and size.
#[derive(Debug, Clone, Copy, PartialEq, Eq, Structural)]
pub struct Rect {
    pub x: i32,
    pub y: i32,
    pub width: u32,
    pub height: u32,
}

/// The width of a rectangle reinterpreted as a signed 32-bit offset, as the
/// edge computations do (two's complement reinterpretation of the `u32`).
pub open spec fn signed(w: u32) -> int {
    (w as i32) as int
}

pub open spec fn in_i32(v: int) -> bool {
    i32::MIN <= v <= i32::MAX
}

pub open spec fn max_int(a: int, b: int) -> int {
    if a >= b { a } else { b }
}

pub open spec fn min_int(a: int, b: int) -> int {
    if a <= b { a } else { b }
}

impl Rect {
    /// x coordinate of the right edge (exclusive).
    pub open spec fn right_edge(self) -> int {
        self.x + signed(self.width)
    }

    /// y coordinate of the bottom edge (exclusive).
    pub open spec fn bottom_edge(self) -> int {
        self.y + signed(self.height)
    }

    /// Both edges of the rectangle are representable as `i32`.
    pub open spec fn edges_fit(self) -> bool {
        in_i32(self.right_edge()) && in_i32(self.bottom_edge())
    }

    /// The point lies inside the half-open rectangle.
    pub open spec fn holds(self, p: Point) -> bool {
        &&& self.x <= p.x < self.right_edge()
        &&& self.y <= p.y < self.bottom_edge()
    }

    /// The two rectangles overlap.
    pub open spec fn overlaps(self, other: Rect) -> bool {
        &&& self.x < other.right_edge()
        &&& self.right_edge() > other.x
        &&& self.y < other.bottom_edge()
        &&& self.bottom_edge() > other.y
    }

    pub open spec fn meet_x(self, other: Rect) -> int {
        max_int(self.x as int, other.x as int)
    }

    pub open spec fn meet_y(self, other: Rect) -> int {
        max_int(self.y as int, other.y as int)
    }

    pub open spec fn meet_right(self, other: Rect) -> int {
        min_int(self.right_edge(), other.right_edge())
    }

    pub open spec fn meet_bottom(self, other: Rect) -> int {
        min_int(self.bottom_edge(), other.bottom_edge())
    }

    /// The overlap of two rectangles, when it is not empty.
    pub open spec fn meet(self, other: Rect) -> Option<Rect> {
        if self.meet_x(other) < self.meet_right(other) && self.meet_y(other) < self.meet_bottom(
            other,
        ) {
            Some(
                Rect {
                    x: self.meet_x(other) as i32,
                    y: self.meet_y(other) as i32,
                    width: (self.meet_right(other) - self.meet_x(other)) as u32,
                    height: (self.meet_bottom(other) - self.meet_y(other)) as u32,
                },
            )
        } else {
            None
        }
    }

    /// The extents of the overlap are representable: a non-empty overlap's
    /// width and height fit in `i32`.
    pub open spec fn meet_fits(self, other: Rect) -> bool {
        self.meet_x(other) < self.meet_right(other) && self.meet_y(other) < self.meet_bottom(other)
            ==> {
            &&& self.meet_right(other) - self.meet_x(other) <= i32::MAX
            &&& self.meet_bottom(other) - self.meet_y(other) <= i32::MAX
        }
    }

    /// Inset arithmetic stays within `i32`.
    pub open spec fn inset_fits(self, top: i32, right: i32, bottom: i32, left: i32) -> bool {
        &&& in_i32(self.x + left)
        &&& in_i32(self.y + top)
        &&& in_i32(signed(self.width) - left)
        &&& in_i32(signed(self.width) - left - right)
        &&& in_i32(signed(self.height) - top)
        &&& in_i32(signed(self.height) - top - bottom)
    }

    /// The rectangle shrunk by the given amounts, dimensions clamped at zero.
    pub open spec fn inset_spec(self, top: i32, right: i32, bottom: i32, left: i32) -> Rect {
        Rect {
            x: (self.x + left) as i32,
            y: (self.y + top) as i32,
            width: max_int(signed(self.width) - left - right, 0) as u32,
            height: max_int(signed(self.height) - top - bottom, 0) as u32,
        }
    }

    pub fn new(x: i32, y: i32, width: u32, height: u32) -> (r: Self)
        ensures
            r.x == x,
            r.y == y,
            r.width == width,
            r.height == height,
    {
        Rect { x, y, width, height }
    }

    pub fn from_point_size(point: Point, size: Size) -> (r: Self)
        ensures
            r.x == point.x,
            r.y == point.y,
            r.width == size.width,
            r.height == size.height,
    {
        Rect { x: point.x, y: point.y, width: size.width, height: size.height }
    }

    /// The empty rectangle at the origin.
    pub fn zero() -> (r: Self)
        ensures
            r.x == 0 && r.y == 0 && r.width == 0 && r.height == 0,
    {
        Rect { x: 0, y: 0, width: 0, height: 0 }
    }

    pub fn position(self) -> (p: Point)
        ensures
            p.x == self.x,
            p.y == self.y,
    {
        Point { x: self.x, y: self.y }
    }

    pub fn size(self) -> (s: Size)
        ensures
            s.width == self.width,
            s.height == self.height,
    {
        Size { width: self.width, height: self.height }
    }

    pub fn right(self) -> (r: i32)
        requires
            in_i32(self.right_edge()),
        ensures
            r == self.right_edge(),
    {
        self.x + self.width as i32
    }

    pub fn bottom(self) -> (b: i32)
        requires
            in_i32(self.bottom_edge()),
        ensures
            b == self.bottom_edge(),
    {
        self.y + self.height as i32
    }

    /// The centre point, rounding half sizes down.
    pub fn center(self) -> (c: Point)
        requires
            in_i32(self.x + self.width / 2),
            in_i32(self.y + self.height / 2),
        ensures
            c.x == self.x + self.width / 2,
            c.y == self.y + self.height / 2,
    {
        Point { x: self.x + (self.width / 2) as i32, y: self.y + (self.height / 2) as i32 }
    }

    /// Whether the point lies in the half-open rectangle
    /// `[x, right) x [y, bottom)`.
    pub fn contains_point(self, point: Point) -> (b: bool)
        requires
            point.x >= self.x ==> in_i32(self.right_edge()),
            point.x >= self.x && point.x < self.right_edge() && point.y >= self.y ==> in_i32(
                self.bottom_edge(),
            ),
        ensures
            b == self.holds(point),
    {
        point.x >= self.x && point.x < self.right() && point.y >= self.y && point.y
            < self.bottom()
    }

    /// Whether the two rectangles overlap.
    pub fn intersects(self, other: Rect) -> (b: bool)
        requires
            in_i32(other.right_edge()),
            self.x < other.right_edge() ==> in_i32(self.right_edge()),
            self.x < other.right_edge() && self.right_edge() > other.x ==> in_i32(
                other.bottom_edge(),
            ),
            self.x < other.right_edge() && self.right_edge() > other.x && self.y
                < other.bottom_edge() ==> in_i32(self.bottom_edge()),
        ensures
            b == self.overlaps(other),
    {
        self.x < other.right() && self.right() > other.x && self.y < other.bottom()
            && self.bottom() > other.y
    }

    /// The overlap of the two rectangles, or `None` when it is empty.
    pub fn intersection(self, other: Rect) -> (r: Option<Rect>)
        requires
            self.edges_fit(),
            other.edges_fit(),
            self.meet_fits(other),
        ensures
            r == self.meet(other),
    {
        let x = if self.x >= other.x { self.x } else { other.x };
        let y = if self.y >= other.y { self.y } else { other.y };
        let sr = self.right();
        let or = other.right();
        let sb = self.bottom();
        let ob = other.bottom();
        let right = if sr <= or { sr } else { or };
        let bottom = if sb <= ob { sb } else { ob };
        if x < right && y < bottom {
            Some(Rect::new(x, y, (right - x) as u32, (bottom - y) as u32))
        } else {
            None
        }
    }

    /// Inset the rectangle by the given amounts; the width and height are
    /// clamped at zero.
    pub fn inset(self, top: i32, right: i32, bottom: i32, left: i32) -> (r: Self)
        requires
            self.inset_fits(top, right, bottom, left),
        ensures
            r == self.inset_spec(top, right, bottom, left),
    {
        let w = self.width as i32 - left - right;
        let h = self.height as i32 - top - bottom;
        let w = if w >= 0 { w } else { 0 };
        let h = if h >= 0 { h } else { 0 };
        Rect::new(self.x + left, self.y + top, w as u32, h as u32)
    }

    /// Inset uniformly on all sides.
    pub fn inset_uniform(self, amount: i32) -> (r: Self)
        requires
            self.inset_fits(amount, amount, amount, amount),
        ensures
            r == self.inset_spec(amount, amount, amount, amount),
    {
        self.inset(amount, amount, amount, amount)
    }
}

impl Default for Rect {
    fn default() -> (r: Self)
        ensures
            r.x == 0 && r.y == 0 && r.width == 0 && r.height == 0,
    {
        Rect { x: 0, y: 0, width: 0, height: 0 }
    }
}

/// Padding/margin specification.
#[derive(Debug, Clone, Copy, PartialEq, Eq, Structural)]
pub struct Edges {
    pub top: i32,
    pub right: i32,
    pub bottom: i32,
    pub left: i32,
}

impl Edges {
    pub fn new(top: i32, right: i32, bottom: i32, left: i32) -> (e: Self)
        ensures
            e.top == top,
            e.right == right,
            e.bottom == bottom,
            e.left == left,
    {
        Edges { top, right, bottom, left }
    }

    pub fn uniform(value: i32) -> (e: Self)
        ensures
            e.top == value && e.right == value && e.bottom == value && e.left == value,
    {
        Edges::new(value, value, value, value)
    }

    /// Equal left/right (`horizontal`) and equal top/bottom (`vertical`).
    pub fn symmetric(horizontal: i32, vertical: i32) -> (e: Self)
        ensures
            e.left == horizontal && e.right == horizontal,
            e.top == vertical && e.bottom == vertical,
    {
        Edges::new(vertical, horizontal, vertical, horizontal)
    }

    /// Total horizontal extent, left plus right.
    pub fn horizontal(self) -> (h: i32)
        requires
            in_i32(self.left + self.right),
        ensures
            h == self.left + self.right,
    {
        self.left + self.right
    }

    /// Total vertical extent, top plus bottom.
    pub fn vertical(self) -> (v: i32)
        requires
            in_i32(self.top + self.bottom),
        ensures
            v == self.top + self.bottom,
    {
        self.top + self.bottom
    }

    pub fn zero() -> (e: Self)
        ensures
            e.top == 0 && e.right == 0 && e.bottom == 0 && e.left == 0,
    {
        Edges::new(0, 0, 0, 0)
    }
}

impl Default for Edges {
    fn default() -> (e: Self)
        ensures
            e.top == 0 && e.right == 0 && e.bottom == 0 && e.left == 0,
    {
        Edges::new(0, 0, 0, 0)
    }
}

/// Two rectangles of positive width and height have a non-empty
/// intersection exactly when they overlap.
pub proof fn law_intersection_iff_intersects(a: Rect, b: Rect)
    requires
        signed(a.width) > 0,
        signed(a.height) > 0,
        signed(b.width) > 0,
        signed(b.height) > 0,
    ensures
        a.meet(b) is Some <==> a.overlaps(b),
{
}

/// Intersection does not depend on the order of its arguments.
pub proof fn law_intersection_commutes(a: Rect, b: Rect)
    ensures
        a.meet(b) == b.meet(a),
{
}

/// A point lies in the intersection of two rectangles exactly when it lies in
/// both of them.
pub proof fn law_intersection_points(a: Rect, b: Rect, p: Point)
    requires
        a.edges_fit(),
        b.edges_fit(),
        a.meet_fits(b),
    ensures
        a.meet(b) matches Some(r) ==> (r.holds(p) <==> a.holds(p) && b.holds(p)),
        a.meet(b) is None ==> !(a.holds(p) && b.holds(p)),
{
    if let Some(r) = a.meet(b) {
        assert(r.x == a.meet_x(b));
        assert(r.y == a.meet_y(b));
        assert(signed(r.width) == a.meet_right(b) - a.meet_x(b));
        assert(signed(r.height) == a.meet_bottom(b) - a.meet_y(b));
    }
}

/// A rectangle holds a point whenever it holds it after being shrunk by
/// non-negative amounts: insetting never adds points.
pub proof fn law_inset_shrinks(r: Rect, top: i32, right: i32, bottom: i32, left: i32, p: Point)
    requires
        r.inset_fits(top, right, bottom, left),
        0 <= top,
        0 <= right,
        0 <= bottom,
        0 <= left,
        0 <= signed(r.width),
        0 <= signed(r.height),
        r.edges_fit(),
    ensures
        r.inset_spec(top, right, bottom, left).holds(p) ==> r.holds(p),
{
    let s = r.inset_spec(top, right, bottom, left);
    let w = max_int(signed(r.width) - left - right, 0);
    let h = max_int(signed(r.height) - top - bottom, 0);
    assert(0 <= w <= i32::MAX);
    assert(0 <= h <= i32::MAX);
    assert(signed(s.width) == w);
    assert(signed(s.height) == h);
}

} // verus!

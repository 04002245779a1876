use gartk::{Edges, Point, Rect, Size};

#[test]
fn test_rect_contains() {
    let rect = Rect::new(10, 10, 100, 100);
    assert!(rect.contains_point(Point::new(50, 50)));
    assert!(rect.contains_point(Point::new(10, 10)));
    assert!(!rect.contains_point(Point::new(110, 50)));
    assert!(!rect.contains_point(Point::new(5, 50)));
}

#[test]
fn test_rect_intersection() {
    let a = Rect::new(0, 0, 100, 100);
    let b = Rect::new(50, 50, 100, 100);
    let c = Rect::new(200, 200, 50, 50);

    assert!(a.intersects(b));
    assert!(!a.intersects(c));

    let intersection = a.intersection(b).unwrap();
    assert_eq!(intersection, Rect::new(50, 50, 50, 50));
}

#[test]
fn test_rect_inset() {
    let rect = Rect::new(0, 0, 100, 100);
    let inset = rect.inset_uniform(10);
    assert_eq!(inset, Rect::new(10, 10, 80, 80));
}

#[test]
fn rect_edges_and_center() {
    let r = Rect::new(-10, 5, 21, 11);
    assert_eq!(r.right(), 11);
    assert_eq!(r.bottom(), 16);
    assert_eq!(r.center(), Point::new(0, 10));
    assert_eq!(r.position(), Point::new(-10, 5));
    assert_eq!(r.size(), Size::new(21, 11));
    assert_eq!(Rect::from_point_size(Point::new(1, 2), Size::new(3, 4)), Rect::new(1, 2, 3, 4));
}

#[test]
fn rect_contains_right_and_bottom_edges_excluded() {
    let r = Rect::new(0, 0, 10, 10);
    assert!(r.contains_point(Point::new(9, 9)));
    assert!(!r.contains_point(Point::new(10, 9)));
    assert!(!r.contains_point(Point::new(9, 10)));
}

#[test]
fn intersection_is_none_for_touching_rects() {
    let a = Rect::new(0, 0, 10, 10);
    let b = Rect::new(10, 0, 10, 10);
    assert!(!a.intersects(b));
    assert_eq!(a.intersection(b), None);
    assert_eq!(b.intersection(a), None);
}

#[test]
fn intersection_commutes_on_values() {
    let a = Rect::new(-5, 3, 20, 7);
    let b = Rect::new(4, -2, 9, 30);
    assert_eq!(a.intersection(b), b.intersection(a));
    assert_eq!(a.intersection(b), Some(Rect::new(4, 3, 9, 7)));
}

#[test]
fn intersection_points_lie_in_both() {
    let a = Rect::new(0, 0, 100, 100);
    let b = Rect::new(50, 50, 100, 100);
    let i = a.intersection(b).unwrap();
    for &(x, y) in &[(50, 50), (99, 99), (49, 50), (100, 60), (70, 20)] {
        let p = Point::new(x, y);
        assert_eq!(i.contains_point(p), a.contains_point(p) && b.contains_point(p));
    }
}

#[test]
fn zero_width_rect_intersects_but_has_no_intersection() {
    // A degenerate rectangle overlaps by the edge test yet has an empty overlap.
    let a = Rect::new(0, 0, 0, 10);
    let b = Rect::new(-5, 0, 10, 10);
    assert!(a.intersects(b));
    assert_eq!(a.intersection(b), None);
}

#[test]
fn inset_clamps_at_zero() {
    let r = Rect::new(0, 0, 10, 4);
    assert_eq!(r.inset(3, 8, 3, 8), Rect::new(8, 3, 0, 0));
    assert_eq!(r.inset(1, 2, 0, 3), Rect::new(3, 1, 5, 3));
    assert_eq!(r.inset_uniform(-2), Rect::new(-2, -2, 14, 8));
}

#[test]
fn size_area_does_not_overflow() {
    assert_eq!(Size::new(800, 600).area(), 480_000);
    assert_eq!(Size::new(u32::MAX, u32::MAX).area(), (u32::MAX as u64) * (u32::MAX as u64));
    assert_eq!(Size::zero().area(), 0);
}

#[test]
fn edges_totals() {
    let e = Edges::new(1, 2, 3, 4);
    assert_eq!(e.horizontal(), 6);
    assert_eq!(e.vertical(), 4);
    assert_eq!(Edges::uniform(5), Edges::new(5, 5, 5, 5));
    // horizontal first: left and right 10, top and bottom 3
    assert_eq!(Edges::symmetric(10, 3), Edges::new(3, 10, 3, 10));
    assert_eq!(Edges::symmetric(10, 5), Edges::new(5, 10, 5, 10));
    assert_eq!(Edges::zero(), Edges::default());
    assert_eq!(Point::origin(), Point::default());
    assert_eq!(Rect::zero(), Rect::default());
}

#[test]
fn point_and_size_from_tuples() {
    let p: Point = (3, -4).into();
    assert_eq!(p, Point::new(3, -4));
    let s = Size::from((640u32, 480u32));
    assert_eq!(s, Size::new(640, 480));
    assert_eq!(s.area(), 307200);
}

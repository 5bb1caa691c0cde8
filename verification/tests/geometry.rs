use panflute::geometry::{
    between, isqrt_u64, Cell, Circle, Point, Rectangle, Segment, Vector2,
};

#[test]
fn isqrt_small_values() {
    assert_eq!(isqrt_u64(0), 0);
    assert_eq!(isqrt_u64(1), 1);
    assert_eq!(isqrt_u64(3), 1);
    assert_eq!(isqrt_u64(4), 2);
    assert_eq!(isqrt_u64(2_499_999_999), 49_999);
    assert_eq!(isqrt_u64(2_500_000_000), 50_000);
    assert_eq!(isqrt_u64(9_000_000_000_000_000_000), 3_000_000_000);
}

#[test]
fn cross_and_dot_products() {
    let a = Point { x: 3, y: 4 };
    let b = Point { x: 5, y: 6 };
    assert_eq!(a.cross(b), 3 * 6 - 5 * 4);
    let u = Vector2 { x: 2, y: 3 };
    let v = Vector2 { x: -4, y: 5 };
    assert_eq!(u.dot(v), 2 * -4 + 3 * 5);
}

#[test]
fn distance_is_floor_of_euclidean() {
    let a = Point { x: 0, y: 0 };
    let b = Point { x: 3000, y: 4000 };
    assert_eq!(a.distance_to(b), 5000);
    let c = Point { x: 1, y: 1 };
    assert_eq!(a.distance_to(c), 1); // floor of sqrt(2)
}

#[test]
fn with_length_rescales_exactly_on_pythagorean_vector() {
    // The concrete face of the magnitude law: |v.with_length(L)| == L here.
    let v = Vector2 { x: 3000, y: 4000 };
    assert_eq!(v.magnitude(), 5000);
    let r = v.with_length(10_000);
    assert_eq!(r.x, 6000);
    assert_eq!(r.y, 8000);
    assert_eq!(r.magnitude(), 10_000);
}

#[test]
fn with_length_magnitude_close_on_irrational_vector() {
    let v = Vector2 { x: 1000, y: 1000 };
    let r = v.with_length(100_000);
    let m = r.magnitude();
    assert!(m >= 100_000 - 3 && m <= 100_000 + 100, "magnitude {m}");
}

#[test]
fn projection_onto_axis() {
    let a = Vector2 { x: 3000, y: 4000 };
    let onto_x = Vector2 { x: 1000, y: 0 };
    let p = a.project_onto(onto_x);
    assert_eq!(p.x, 3000);
    assert_eq!(p.y, 0);
}

#[test]
fn between_is_inclusive_and_order_free() {
    assert!(between(5, 1, 10));
    assert!(between(5, 10, 1));
    assert!(between(1, 1, 10));
    assert!(between(10, 1, 10));
    assert!(!between(0, 1, 10));
    assert!(!between(11, 10, 1));
}

#[test]
fn segment_contains_collinear_points_only() {
    let s = Segment::new(Point { x: 0, y: 0 }, Point { x: 10_000, y: 10_000 });
    assert!(s.contains(Point { x: 5000, y: 5000 }));
    assert!(!s.contains(Point { x: 5000, y: 6000 }));
    assert!(s.contains(s.from));
    assert!(s.contains(s.to));
}

#[test]
fn segment_never_intersects_itself() {
    // The concrete face of the self-intersection law.
    let s = Segment::new(Point { x: 0, y: 0 }, Point { x: 10_000, y: 20_000 });
    assert!(!s.intersects(s));
    assert!(s.is_parallel(s));
}

#[test]
fn segment_intersection_of_crossing_lines() {
    let s = Segment::new(Point { x: 0, y: 0 }, Point { x: 10_000, y: 0 });
    let t = Segment::new(Point { x: 5000, y: -5000 }, Point { x: 5000, y: 5000 });
    assert!(s.intersects(t));
    let u = Segment::new(Point { x: 0, y: 1000 }, Point { x: 10_000, y: 1000 });
    assert!(!s.intersects(u)); // parallel
}

#[test]
fn rectangle_contains_inside_and_not_far_outside() {
    // A 20 px wide band around a vertical centerline from (100, 100) down
    // to (100, 50) in pixel terms.
    let r = Rectangle {
        base_a: Point { x: 100_000, y: 100_000 },
        base_b: Point { x: 100_000, y: 50_000 },
        height: 20_000,
    };
    assert!(r.contains(Point { x: 100_000, y: 75_000 }));
    assert!(r.contains(Point { x: 109_000, y: 75_000 }));
    assert!(r.contains(Point { x: 110_000, y: 50_000 }));
    assert!(r.contains(r.base_a));
    assert!(r.contains(r.base_b));
    assert!(!r.contains(Point { x: 111_000, y: 75_000 }));
    assert!(!r.contains(Point { x: 100_000, y: 49_000 }));
    assert!(!r.contains(Point { x: 0, y: 0 }));
}

#[test]
fn rectangle_center_of_vertical_band() {
    let r = Rectangle {
        base_a: Point { x: 100_000, y: 100_000 },
        base_b: Point { x: 100_000, y: 50_000 },
        height: 20_000,
    };
    let c = r.center();
    assert_eq!(c.x, 100_000);
    assert_eq!(c.y, 75_000);
}

#[test]
fn cell_conversions() {
    let c = Cell::new(5, 7);
    let mid = c.to_mid_point();
    assert_eq!((mid.x, mid.y), (150_000, 110_000));
    let corner = c.to_corner();
    assert_eq!((corner.x, corner.y), (150_000, 120_000));
    let top = c.to_top_mid();
    assert_eq!((top.x, top.y), (150_000, 100_000));
}

#[test]
fn circle_carries_its_center_and_radius() {
    let c = Circle::new(Point { x: 10, y: 20 }, 4000);
    assert_eq!((c.x, c.y, c.radius), (10, 20, 4000));
}

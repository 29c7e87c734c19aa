use touch_sketch::geom::{Point, Rectangle};

#[test]
fn point_default_is_origin() {
    assert_eq!(Point::default(), Point::new(0, 0));
}

#[test]
fn rectangle_from_point_has_equal_corners() {
    let r = Rectangle::from_point(&Point::new(7, -3));
    assert_eq!(r.min, Point::new(7, -3));
    assert_eq!(r.max, Point::new(7, -3));
}

#[test]
fn merge_grows_in_every_direction() {
    let mut r = Rectangle::from_point(&Point::new(10, 10));
    r.merge(&Point::new(10, 40));
    assert_eq!(r, Rectangle::new(Point::new(10, 10), Point::new(10, 40)));
    r.merge(&Point::new(-5, 20));
    assert_eq!(r, Rectangle::new(Point::new(-5, 10), Point::new(10, 40)));
    r.merge(&Point::new(30, 5));
    assert_eq!(r, Rectangle::new(Point::new(-5, 5), Point::new(30, 40)));
}

#[test]
fn merge_of_inner_point_changes_nothing() {
    let mut r = Rectangle::new(Point::new(0, 0), Point::new(10, 10));
    r.merge(&Point::new(5, 5));
    assert_eq!(r, Rectangle::new(Point::new(0, 0), Point::new(10, 10)));
    r.merge(&Point::new(0, 10));
    assert_eq!(r, Rectangle::new(Point::new(0, 0), Point::new(10, 10)));
}

#[test]
fn merge_at_the_limits_of_the_coordinates() {
    let mut r = Rectangle::from_point(&Point::new(0, 0));
    r.merge(&Point::new(i64::MAX, i64::MIN));
    assert_eq!(r, Rectangle::new(Point::new(0, i64::MIN), Point::new(i64::MAX, 0)));
}

#[test]
fn surface_spans_all_pixels() {
    let r = Rectangle::surface(600, 800);
    assert_eq!(r, Rectangle::new(Point::new(0, 0), Point::new(599, 799)));
}

#[test]
fn surface_without_pixels_is_empty() {
    let r = Rectangle::surface(0, 0);
    assert_eq!(r, Rectangle::new(Point::new(0, 0), Point::new(-1, -1)));
}

#[test]
fn surface_of_the_largest_display() {
    let r = Rectangle::surface(u32::MAX, u32::MAX);
    assert_eq!(r.max, Point::new(4294967294, 4294967294));
}

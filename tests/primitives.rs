use agx_definitions::{Color, Point, PointU32, Size, SizeU32};

#[test]
fn point_arithmetic() {
    let a = Point::new(3, -4);
    let b = Point::new(10, 20);
    assert_eq!(a + b, Point::new(13, 16));
    assert_eq!(b - a, Point::new(7, 24));
    assert_eq!(a * b, Point::new(30, -80));
    assert_eq!(a * 3, Point::new(9, -12));
    assert_eq!(Point::zero(), Point::new(0, 0));
}

#[test]
fn size_arithmetic() {
    let a = Size::new(3, 4);
    let b = Size::new(10, 20);
    assert_eq!(a + b, Size::new(13, 24));
    assert_eq!(a - b, Size::new(-7, -16));
    assert_eq!(Size::zero(), Size::new(0, 0));
}

#[test]
fn unsigned_points_and_sizes() {
    let p = PointU32::from(Point::new(7, -1));
    assert_eq!((p.x, p.y), (7, u32::MAX));
    assert_eq!(Point::from(PointU32::new(5, 6)), Point::new(5, 6));
    let s = SizeU32::from(Size::new(8, 9));
    assert_eq!((s.width, s.height), (8, 9));
    assert_eq!(Size::from(&SizeU32::new(11, 12)), Size::new(11, 12));
}

#[test]
fn colors() {
    let c = Color::new(1, 2, 3);
    assert_eq!((c.r, c.g, c.b), (1, 2, 3));
    let s = c.swap_order();
    assert_eq!((s.r, s.g, s.b), (3, 2, 1));
    assert_eq!(Color::black(), Color::new(0, 0, 0));
    assert_eq!(Color::white(), Color::new(255, 255, 255));
    assert_eq!(Color::gray(), Color::new(127, 127, 127));
    assert_eq!(Color::dark_gray(), Color::new(80, 80, 80));
    assert_eq!(Color::light_gray(), Color::new(120, 120, 120));
    assert_eq!(Color::red(), Color::new(255, 0, 0));
    assert_eq!(Color::green(), Color::new(0, 255, 0));
    assert_eq!(Color::blue(), Color::new(0, 0, 255));
    assert_eq!(Color::yellow(), Color::new(0, 234, 255));
    assert_eq!(Color::from([4, 5, 6]), Color::new(4, 5, 6));
}

use agx_definitions::{Color, Line, PixelLog, PixelSink, Point, StrokeThickness};

struct Recorder {
    pixels: Vec<Point>,
}

impl PixelSink for Recorder {
    fn putpixel(&mut self, p: Point, _color: Color) {
        self.pixels.push(p);
    }
}

#[test]
fn test_line_intersection() {
    let l1 = Line::new(Point::new(20, 0), Point::new(20, 20));
    let l2 = Line::new(Point::new(0, 0), Point::new(40, 10));
    let c = l1.crossing(&l2).unwrap();
    let t = c.t_num as f64 / c.den as f64;
    let x = l1.p1.x as f64 + t * (l1.p2.x - l1.p1.x) as f64;
    let y = l1.p1.y as f64 + t * (l1.p2.y - l1.p1.y) as f64;
    assert_eq!((x, y), (20.0, 5.0));
    assert_eq!(c.t_num * 4, c.den);
}

#[test]
fn parallel_and_collinear_lines_do_not_cross() {
    let a = Line::new(Point::new(0, 0), Point::new(10, 10));
    let b = Line::new(Point::new(0, 1), Point::new(10, 11));
    assert_eq!(a.crossing(&b), None);
    assert!(!a.intersects_with(&b));
    let c = Line::new(Point::new(5, 5), Point::new(20, 20));
    assert_eq!(a.crossing(&c), None);
    let d = Line::new(Point::new(0, 0), Point::new(-10, -10));
    assert_eq!(a.crossing(&d), None);
}

#[test]
fn touching_end_points_cross() {
    let a = Line::new(Point::new(0, 0), Point::new(10, 0));
    let b = Line::new(Point::new(10, 0), Point::new(10, 10));
    let c = a.crossing(&b).unwrap();
    assert_eq!(c.t_num, c.den);
    assert!(a.intersects_with(&b));
    let far = Line::new(Point::new(11, -5), Point::new(11, 5));
    assert!(!a.intersects_with(&far));
}

#[test]
fn min_and_max_coordinates() {
    let l = Line::new(Point::new(5, -3), Point::new(-2, 8));
    assert_eq!((l.min_x(), l.max_x(), l.min_y(), l.max_y()), (-2, 5, -3, 8));
    assert_eq!(l + Point::new(1, 1), Line::new(Point::new(6, -2), Point::new(-1, 9)));
}

#[test]
fn strip_covers_both_end_points() {
    let l = Line::new(Point::new(0, 0), Point::new(4, 2));
    assert_eq!(
        l.strip_pixels(),
        vec![
            Point::new(0, 0),
            Point::new(1, 0),
            Point::new(2, 1),
            Point::new(3, 1),
            Point::new(4, 2),
        ]
    );
    let back = Line::new(Point::new(3, 3), Point::new(0, 3));
    assert_eq!(
        back.strip_pixels(),
        vec![Point::new(3, 3), Point::new(2, 3), Point::new(1, 3), Point::new(0, 3)]
    );
    let dot = Line::new(Point::new(7, 7), Point::new(7, 7));
    assert_eq!(dot.strip_pixels(), vec![Point::new(7, 7)]);
}

#[test]
fn strokes_offset_by_direction() {
    let vertical = Line::new(Point::new(5, 0), Point::new(5, 10));
    let s = vertical.strokes(StrokeThickness::Width(3));
    assert_eq!(s.len(), 3);
    assert_eq!(s[2], Line::new(Point::new(7, 0), Point::new(7, 10)));
    let horizontal = Line::new(Point::new(0, 5), Point::new(10, 5));
    let s = horizontal.strokes(StrokeThickness::Width(2));
    assert_eq!(s[1], Line::new(Point::new(0, 6), Point::new(10, 6)));
    let diagonal = Line::new(Point::new(0, 0), Point::new(10, 10));
    let s = diagonal.strokes(StrokeThickness::Width(3));
    assert_eq!(
        s,
        vec![
            Line::new(Point::new(1, 0), Point::new(11, 10)),
            diagonal,
            Line::new(Point::new(-1, 0), Point::new(9, 10)),
        ]
    );
    assert_eq!(diagonal.strokes(StrokeThickness::Filled), vec![diagonal]);
    assert!(diagonal.strokes(StrokeThickness::Width(0)).is_empty());
}

#[test]
fn draw_plots_every_stroke() {
    let mut sink = Recorder { pixels: Vec::new() };
    let l = Line::new(Point::new(0, 0), Point::new(0, 2));
    l.draw(&mut sink, Color::red(), StrokeThickness::Width(2));
    assert_eq!(
        sink.pixels,
        vec![
            Point::new(0, 0),
            Point::new(0, 1),
            Point::new(0, 2),
            Point::new(1, 0),
            Point::new(1, 1),
            Point::new(1, 2),
        ]
    );
    let mut single = Recorder { pixels: Vec::new() };
    l.draw_strip(&mut single, Color::blue());
    assert_eq!(single.pixels.len(), 3);
}

#[test]
fn pixel_log_records_thick_diagonal_in_order() {
    let mut log = PixelLog::new();
    let l = Line::new(Point::new(0, 0), Point::new(2, 1));
    l.draw(&mut log, Color::green(), StrokeThickness::Width(2));
    let expected: Vec<(Point, Color)> = [
        Point::new(1, 0),
        Point::new(2, 0),
        Point::new(3, 1),
        Point::new(0, 0),
        Point::new(1, 0),
        Point::new(2, 1),
    ]
    .iter()
    .map(|&p| (p, Color::green()))
    .collect();
    assert_eq!(log.pixels, expected);
    log.putpixel(Point::new(9, 9), Color::red());
    assert_eq!(log.pixels.len(), 7);
    assert_eq!(log.pixels[6], (Point::new(9, 9), Color::red()));
}

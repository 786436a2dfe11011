use agx_definitions::{Point, Rect, RectInsets, RectU32, Size};

fn test_intersection_with_flipped_ordering(r1: Rect, r2: Rect, expected_intersection: Option<Rect>) {
    assert_eq!(r1.area_overlapping_with(r2), expected_intersection);
    assert_eq!(r2.area_overlapping_with(r1), expected_intersection);
}

#[test]
fn test_find_intersection() {
    test_intersection_with_flipped_ordering(
        Rect::new(0, 0, 100, 100),
        Rect::new(50, 0, 100, 100),
        Some(Rect::new(50, 0, 50, 100)),
    );
    test_intersection_with_flipped_ordering(
        Rect::new(0, 0, 300, 300),
        Rect::new(0, 150, 300, 300),
        Some(Rect::new(0, 150, 300, 150)),
    );
}

#[test]
fn test_rect_diff() {
    let main = Rect::new(0, 150, 300, 300);
    let exclude = Rect::new(0, 0, 300, 300);
    assert_eq!(main.area_excluding_rect(exclude), vec![Rect::new(0, 300, 300, 150)]);

    let main = Rect::new(0, 100, 400, 50);
    let exclude = Rect::new(50, 0, 300, 300);
    assert_eq!(
        main.area_excluding_rect(exclude),
        vec![Rect::new(0, 100, 50, 50), Rect::new(350, 100, 50, 50)]
    );

    let main = Rect::new(0, 100, 400, 50);
    let exclude = Rect::new(0, 0, 300, 300);
    assert_eq!(main.area_excluding_rect(exclude), vec![Rect::new(300, 100, 100, 50)]);

    let main = Rect::new(300, 200, 300, 100);
    let exclude = Rect::new(400, 100, 100, 150);
    assert_eq!(
        main.area_excluding_rect(exclude),
        vec![
            Rect::new(300, 200, 100, 100),
            Rect::new(500, 200, 100, 100),
            Rect::new(400, 250, 100, 50),
        ]
    );

    let exclude = Rect::new(50, 0, 100, 200);
    let main = Rect::new(0, 50, 200, 50);
    assert_eq!(
        main.area_excluding_rect(exclude),
        vec![Rect::new(0, 50, 50, 50), Rect::new(150, 50, 50, 50)]
    );

    let main = Rect::new(50, 0, 100, 200);
    let exclude = Rect::new(0, 50, 200, 50);
    assert_eq!(
        main.area_excluding_rect(exclude),
        vec![Rect::new(50, 100, 100, 100), Rect::new(50, 0, 100, 50)]
    );

    let main = Rect::new(0, 0, 200, 200);
    let exclude = Rect::new(50, 50, 100, 100);
    assert_eq!(
        main.area_excluding_rect(exclude),
        vec![
            Rect::new(0, 0, 50, 200),
            Rect::new(150, 0, 50, 200),
            Rect::new(50, 150, 100, 50),
            Rect::new(50, 0, 100, 50),
        ]
    );

    let main = Rect::new(200, 200, 100, 130);
    let exclude = Rect::new(250, 250, 100, 130);
    assert_eq!(
        main.area_excluding_rect(exclude),
        vec![Rect::new(200, 200, 50, 130), Rect::new(250, 200, 50, 50)],
    );
}

#[test]
fn test_inset_by() {
    let r = Rect::new(0, 0, 100, 100);
    let inset = r.inset_by(0, 0, 0, 0);
    assert_eq!(r, inset);

    let inset = r.inset_by(10, 10, 10, 10);
    assert_eq!(inset, Rect::new(10, 10, 80, 80));

    let inset = r.inset_by(10, 10, 40, 10);
    assert_eq!(inset, Rect::new(10, 10, 50, 80));
}

#[test]
fn intersects_with_excludes_touching_edges() {
    assert!(!Rect::new(0, 0, 300, 300).intersects_with(Rect::new(0, 300, 300, 300)));
    assert!(!Rect::new(0, 0, 300, 300).intersects_with(Rect::new(300, 0, 300, 300)));
    assert!(Rect::new(0, 0, 300, 300).intersects_with(Rect::new(0, 0, 300, 300)));
    assert!(Rect::new(0, 0, 300, 300).intersects_with(Rect::new(299, 299, 5, 5)));
}

#[test]
fn disjoint_subtraction_is_empty() {
    let pieces = Rect::new(0, 0, 300, 300).area_excluding_rect(Rect::new(0, 300, 300, 300));
    assert_eq!(pieces, Vec::<Rect>::new());
    let far = Rect::new(0, 0, 10, 10).area_excluding_rect(Rect::new(500, 500, 10, 10));
    assert!(far.is_empty());
}

#[test]
fn four_way_subtraction_order() {
    let pieces = Rect::new(0, 0, 200, 200).area_excluding_rect(Rect::new(50, 50, 100, 100));
    assert_eq!(
        pieces,
        vec![
            Rect::new(0, 0, 50, 200),
            Rect::new(150, 0, 50, 200),
            Rect::new(50, 150, 100, 50),
            Rect::new(50, 0, 100, 50),
        ]
    );
}

#[test]
fn subtraction_of_enclosing_rect_leaves_nothing() {
    let pieces = Rect::new(10, 10, 20, 20).area_excluding_rect(Rect::new(0, 0, 100, 100));
    assert!(pieces.is_empty());
}

#[test]
fn subtraction_conserves_area_on_example() {
    let cases = [
        (Rect::new(0, 0, 200, 200), Rect::new(50, 50, 100, 100)),
        (Rect::new(200, 200, 100, 130), Rect::new(250, 250, 100, 130)),
        (Rect::new(300, 200, 300, 100), Rect::new(400, 100, 100, 150)),
        (Rect::new(0, 0, 10, 10), Rect::new(-5, -5, 30, 30)),
    ];
    for (a, b) in cases {
        let pieces_area: isize = a.area_excluding_rect(b).iter().map(|p| p.area()).sum();
        let overlap = a.area_overlapping_with(b).unwrap();
        assert_eq!(pieces_area + overlap.area(), a.area());
    }
}

#[test]
fn overlap_is_symmetric_on_examples() {
    let rects = [
        Rect::new(0, 0, 100, 100),
        Rect::new(50, 0, 100, 100),
        Rect::new(0, 100, 100, 100),
        Rect::new(-20, -20, 40, 40),
        Rect::new(10, 10, 0, 5),
    ];
    for a in rects {
        for b in rects {
            assert_eq!(a.area_overlapping_with(b), b.area_overlapping_with(a));
        }
    }
}

#[test]
fn overlap_of_identical_and_disjoint_rects() {
    let r = Rect::new(3, 4, 5, 6);
    assert_eq!(r.area_overlapping_with(r), Some(r));
    assert_eq!(r.area_overlapping_with(Rect::new(8, 4, 5, 6)), None);
    // A rectangle with negative width has no common area with anything.
    let odd = Rect::new(0, 0, -10, 10);
    assert_eq!(odd.area_overlapping_with(Rect::new(-20, 0, 30, 10)), None);
}

#[test]
fn union_encloses_both() {
    let a = Rect::new(0, 0, 10, 10);
    let b = Rect::new(20, -5, 5, 5);
    let u = a.union(b);
    assert_eq!(u, Rect::new(0, -5, 25, 15));
    assert!(u.encloses(a));
    assert!(u.encloses(b));
    assert!(!Rect::new(0, -5, 24, 15).encloses(b));
}

#[test]
fn contains_is_half_open() {
    let r = Rect::new(10, 10, 5, 5);
    assert!(r.contains(Point::new(10, 10)));
    assert!(r.contains(Point::new(14, 14)));
    assert!(!r.contains(Point::new(15, 10)));
    assert!(!r.contains(Point::new(10, 15)));
    assert!(!r.contains(Point::new(9, 12)));
}

#[test]
fn constrain_clips_far_edges() {
    let outer = Rect::new(0, 0, 100, 50);
    assert_eq!(outer.constrain(Rect::new(90, 40, 20, 20)), Rect::new(90, 40, 10, 10));
    assert_eq!(outer.constrain(Rect::new(10, 10, 20, 20)), Rect::new(10, 10, 20, 20));
    assert_eq!(outer.constrain(Rect::new(100, 0, 20, 20)), Rect::zero());
    assert_eq!(outer.constrain(Rect::new(0, 50, 20, 20)), Rect::zero());
}

#[test]
fn accessors_and_midpoints() {
    let r = Rect::new(10, 20, 31, 41);
    assert_eq!((r.min_x(), r.min_y(), r.max_x(), r.max_y()), (10, 20, 41, 61));
    assert_eq!((r.width(), r.height()), (31, 41));
    assert_eq!(r.midpoint(), Point::new(25, 40));
    assert_eq!(r.center(), Point::new(25, 40));
    let n = Rect::new(0, 0, -5, -7);
    assert_eq!((n.mid_x(), n.mid_y()), (-2, -3));
    assert_eq!(Size::new(-5, 9).mid_x(), -2);
    assert_eq!(Size::new(-5, 9).mid_y(), 4);
    assert_eq!(r.area(), 31 * 41);
    assert_eq!(Size::new(3, 4).area(), 12);
}

#[test]
fn zero_and_degenerate() {
    assert!(Rect::zero().is_zero());
    assert!(Rect::zero().is_degenerate());
    assert!(!Rect::new(0, 0, 0, 5).is_zero());
    assert!(Rect::new(0, 0, 0, 5).is_degenerate());
    assert!(Rect::new(3, 3, 5, 0).is_degenerate());
    assert!(!Rect::new(0, 0, 1, 1).is_degenerate());
}

#[test]
fn builders_replace_parts() {
    let r = Rect::new(1, 2, 3, 4);
    assert_eq!(r.replace_origin(Point::new(9, 9)), Rect::new(9, 9, 3, 4));
    assert_eq!(r.replace_size(Size::new(7, 8)), Rect::new(1, 2, 7, 8));
    assert_eq!(r.add_origin(Point::new(-1, 10)), Rect::new(0, 12, 3, 4));
    assert_eq!(Rect::with_size(Size::new(5, 6)), Rect::new(0, 0, 5, 6));
    assert_eq!(Rect::with_origin(Point::new(5, 6)), Rect::new(5, 6, 0, 0));
    assert_eq!(Rect::from_parts(Point::new(1, 2), Size::new(3, 4)), r);
    assert_eq!(r.translate_point(Point::new(5, 5)), Point::new(4, 3));
}

#[test]
fn insets_apply_like_inset_by() {
    let r = Rect::new(0, 0, 100, 100);
    let insets = RectInsets::new(1, 2, 3, 4);
    assert_eq!(r.apply_insets(insets), Rect::new(1, 2, 96, 94));
    assert_eq!(r.inset_by_insets(insets), Rect::new(1, 2, 96, 94));
    assert_eq!(r.inset_by_insets(RectInsets::uniform(10)), Rect::new(10, 10, 80, 80));
    assert_eq!(r.apply_insets(RectInsets::zero()), r);
    let sum = RectInsets::new(1, 2, 3, 4) + RectInsets::uniform(1);
    assert_eq!((sum.left, sum.top, sum.right, sum.bottom), (2, 3, 4, 5));
}

#[test]
fn unsigned_conversions() {
    let r = Rect::new(1, 2, 3, 4);
    let u = RectU32::from(r);
    assert_eq!((u.origin.x, u.origin.y, u.size.width, u.size.height), (1, 2, 3, 4));
    assert_eq!(Rect::from(u), r);
    let neg = RectU32::from(Rect::new(-1, 0, 0, 0));
    assert_eq!(neg.origin.x, u32::MAX);
    let z = RectU32::zero();
    assert_eq!((z.origin.x, z.origin.y, z.size.width, z.size.height), (0, 0, 0, 0));
}

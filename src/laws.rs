//! Properties that relate the rectangle operations to one another.

use vstd::prelude::*;

use crate::line::{cross, Line};
use crate::rect::{exclusion_pieces, max_int, min_int, total_area, IntRect, Rect};

verus! {

/// The union of two rectangles encloses both, and every rectangle that
/// encloses both also encloses their union, so no smaller one does.
pub proof fn union_encloses(a: Rect, b: Rect)
    ensures
        a@.union(b@).encloses(a@),
        a@.union(b@).encloses(b@),
        forall|c: Rect| #[trigger] c@.encloses(a@) && c@.encloses(b@) ==> c@.encloses(a@.union(b@)),
{
}

/// The overlap of two rectangles does not depend on their order.
pub proof fn overlap_symmetric(a: Rect, b: Rect)
    ensures
        a@.overlap(b@) == b@.overlap(a@),
{
}

proof fn lemma_total_area_concat(s: Seq<IntRect>, t: Seq<IntRect>)
    ensures
        total_area(s + t) == total_area(s) + total_area(t),
    decreases t.len(),
{
    if t.len() > 0 {
        assert((s + t).drop_last() =~= s + t.drop_last());
        lemma_total_area_concat(s, t.drop_last());
    } else {
        assert(s + t =~= s);
    }
}

proof fn lemma_total_area_one(r: IntRect)
    ensures
        total_area(seq![r]) == r.area(),
{
    assert(seq![r].drop_last() =~= Seq::<IntRect>::empty());
    assert(total_area(Seq::<IntRect>::empty()) == 0);
    assert(seq![r].last() == r);
}

/// The area of a cut piece, or zero when the cut removes nothing.
spec fn piece_area(s: Seq<IntRect>) -> int {
    if s.len() == 0 {
        0
    } else {
        s[0].area()
    }
}

proof fn lemma_piece_area(s: Seq<IntRect>)
    requires
        s.len() <= 1,
    ensures
        total_area(s) == piece_area(s),
{
    if s.len() == 1 {
        assert(s =~= seq![s[0]]);
        lemma_total_area_one(s[0]);
    }
}

/// When two rectangles share area, the pieces that subtracting the second
/// from the first leaves, together with their overlap, add up to exactly the
/// area of the first: nothing is counted twice or lost.
pub proof fn subtraction_conserves_area(a: Rect, b: Rect)
    requires
        a@.overlap(b@).is_some(),
    ensures
        a@.intersects(b@),
        total_area(exclusion_pieces(a@, b@)) + a@.overlap(b@).unwrap().area() == a@.area(),
{
    let (ra, rb) = (a@, b@);
    let x0 = max_int(ra.x, rb.x);
    let x1 = min_int(ra.max_x(), rb.max_x());
    let y0 = max_int(ra.y, rb.y);
    let y1 = min_int(ra.max_y(), rb.max_y());
    let (p1, r1) = crate::rect::cut_left(ra, rb);
    assert(r1.x == x0 && r1.max_x() == ra.max_x() && r1.y == ra.y && r1.h == ra.h);
    assert(r1.intersects(rb));
    let (p2, r2) = crate::rect::cut_right(r1, rb);
    assert(r2.x == x0 && r2.max_x() == x1 && r2.y == ra.y && r2.h == ra.h);
    assert(r2.intersects(rb));
    let (p3, r3) = crate::rect::cut_far_y(r2, rb);
    assert(r3.x == x0 && r3.w == x1 - x0 && r3.y == ra.y && r3.max_y() == y1);
    assert(r3.intersects(rb));
    let p4 = crate::rect::cut_near_y(r3, rb);
    let pieces = p1 + p2 + p3 + p4;
    assert(exclusion_pieces(ra, rb) == pieces);
    lemma_total_area_concat(p1 + p2 + p3, p4);
    lemma_total_area_concat(p1 + p2, p3);
    lemma_total_area_concat(p1, p2);
    lemma_piece_area(p1);
    lemma_piece_area(p2);
    lemma_piece_area(p3);
    lemma_piece_area(p4);
    let wl = if rb.x - ra.x > 0 { rb.x - ra.x } else { 0 };
    let wr = if ra.max_x() - rb.max_x() > 0 { ra.max_x() - rb.max_x() } else { 0 };
    let hf = if ra.max_y() - rb.max_y() > 0 { ra.max_y() - rb.max_y() } else { 0 };
    let hn = if rb.y - ra.y > 0 { rb.y - ra.y } else { 0 };
    assert(piece_area(p1) == wl * ra.h);
    assert(piece_area(p2) == wr * ra.h);
    assert(piece_area(p3) == (x1 - x0) * hf);
    assert(piece_area(p4) == (x1 - x0) * hn);
    assert(wl + wr + (x1 - x0) == ra.w);
    assert(hf + hn + (y1 - y0) == ra.h);
    let o = ra.overlap(rb).unwrap();
    assert(o.area() == (x1 - x0) * (y1 - y0));
    assert(wl * ra.h + wr * ra.h + (x1 - x0) * hf + (x1 - x0) * hn + (x1 - x0) * (y1 - y0) == ra.w * ra.h)
        by (nonlinear_arith)
        requires
            wl + wr + (x1 - x0) == ra.w,
            hf + hn + (y1 - y0) == ra.h,
    ;
}

/// Some rectangle of `s` contains the point.
pub open spec fn covers(s: Seq<IntRect>, px: int, py: int) -> bool {
    exists|i: int| 0 <= i < s.len() && (#[trigger] s[i]).contains(px, py)
}

/// No point lies in two rectangles of `s`.
pub open spec fn pairwise_disjoint(s: Seq<IntRect>) -> bool {
    forall|i: int, j: int, px: int, py: int|
        0 <= i < j < s.len() && #[trigger] s[i].contains(px, py) ==> !#[trigger] s[j].contains(px, py)
}

/// The one-element sequence of `r` when `c` holds, else the empty one.
spec fn piece_if(c: bool, r: IntRect) -> Seq<IntRect> {
    if c {
        seq![r]
    } else {
        seq![]
    }
}

proof fn lemma_covers_concat(s: Seq<IntRect>, t: Seq<IntRect>, px: int, py: int)
    ensures
        covers(s + t, px, py) == (covers(s, px, py) || covers(t, px, py)),
{
    if covers(s + t, px, py) {
        let i = choose|i: int| 0 <= i < (s + t).len() && (#[trigger] (s + t)[i]).contains(px, py);
        if i < s.len() {
            assert(s[i] == (s + t)[i]);
        } else {
            assert(t[i - s.len()] == (s + t)[i]);
        }
    }
    if covers(s, px, py) {
        let i = choose|i: int| 0 <= i < s.len() && (#[trigger] s[i]).contains(px, py);
        assert((s + t)[i] == s[i]);
    }
    if covers(t, px, py) {
        let i = choose|i: int| 0 <= i < t.len() && (#[trigger] t[i]).contains(px, py);
        assert((s + t)[s.len() + i] == t[i]);
    }
}

proof fn lemma_covers_piece(c: bool, r: IntRect, px: int, py: int)
    ensures
        covers(piece_if(c, r), px, py) == (c && r.contains(px, py)),
{
    if c {
        assert(piece_if(c, r)[0] == r);
    }
}

proof fn lemma_disjoint_concat(s: Seq<IntRect>, t: Seq<IntRect>)
    requires
        pairwise_disjoint(s),
        pairwise_disjoint(t),
        forall|px: int, py: int| !(covers(s, px, py) && #[trigger] covers(t, px, py)),
    ensures
        pairwise_disjoint(s + t),
{
    let u = s + t;
    assert forall|i: int, j: int, px: int, py: int|
        0 <= i < j < u.len() && #[trigger] u[i].contains(px, py) implies !#[trigger] u[j].contains(px, py) by {
        if i < s.len() && j < s.len() {
            assert(u[i] == s[i] && u[j] == s[j]);
        } else if i >= s.len() {
            assert(u[i] == t[i - s.len()] && u[j] == t[j - s.len()]);
        } else {
            assert(u[i] == s[i] && u[j] == t[j - s.len()]);
            if u[j].contains(px, py) {
                assert(covers(s, px, py));
                assert(covers(t, px, py));
            }
        }
    }
}

proof fn lemma_piece_disjoint(c: bool, r: IntRect)
    ensures
        pairwise_disjoint(piece_if(c, r)),
{
}

/// The pieces of the guillotine subtraction written out: the strips left
/// and right of `b` over the full height of `a`, then the strips beyond and
/// before `b` over the columns that `b` spans within `a`.
proof fn lemma_pieces_shape(a: IntRect, b: IntRect)
    requires
        a.overlap(b).is_some(),
    ensures
        exclusion_pieces(a, b) == piece_if(b.x > a.x, IntRect { x: a.x, y: a.y, w: b.x - a.x, h: a.h })
            + piece_if(a.max_x() > b.max_x(), IntRect { x: b.max_x(), y: a.y, w: a.max_x() - b.max_x(), h: a.h })
            + piece_if(
            a.max_y() > b.max_y(),
            IntRect {
                x: max_int(a.x, b.x),
                y: b.max_y(),
                w: min_int(a.max_x(), b.max_x()) - max_int(a.x, b.x),
                h: a.max_y() - b.max_y(),
            },
        ) + piece_if(
            b.y > a.y,
            IntRect {
                x: max_int(a.x, b.x),
                y: a.y,
                w: min_int(a.max_x(), b.max_x()) - max_int(a.x, b.x),
                h: b.y - a.y,
            },
        ),
{
    let x0 = max_int(a.x, b.x);
    let x1 = min_int(a.max_x(), b.max_x());
    let y1 = min_int(a.max_y(), b.max_y());
    let (p1, r1) = crate::rect::cut_left(a, b);
    assert(r1.x == x0 && r1.max_x() == a.max_x() && r1.y == a.y && r1.h == a.h);
    assert(r1.intersects(b));
    let (p2, r2) = crate::rect::cut_right(r1, b);
    assert(r2.x == x0 && r2.max_x() == x1 && r2.y == a.y && r2.h == a.h);
    assert(r2.intersects(b));
    let (p3, r3) = crate::rect::cut_far_y(r2, b);
    assert(r3.x == x0 && r3.w == x1 - x0 && r3.y == a.y && r3.max_y() == y1);
    assert(r3.intersects(b));
}

/// When two rectangles share area, the pieces that subtracting the second
/// from the first leaves never overlap one another, and a point lies in one
/// of them exactly when it lies in the first rectangle and not in the second.
pub proof fn subtraction_covers_difference(a: Rect, b: Rect)
    requires
        a@.overlap(b@).is_some(),
    ensures
        pairwise_disjoint(exclusion_pieces(a@, b@)),
        forall|px: int, py: int|
            #[trigger] covers(exclusion_pieces(a@, b@), px, py) == (a@.contains(px, py) && !b@.contains(px, py)),
{
    let (ra, rb) = (a@, b@);
    let x0 = max_int(ra.x, rb.x);
    let x1 = min_int(ra.max_x(), rb.max_x());
    let c1 = rb.x > ra.x;
    let c2 = ra.max_x() > rb.max_x();
    let c3 = ra.max_y() > rb.max_y();
    let c4 = rb.y > ra.y;
    let q1 = IntRect { x: ra.x, y: ra.y, w: rb.x - ra.x, h: ra.h };
    let q2 = IntRect { x: rb.max_x(), y: ra.y, w: ra.max_x() - rb.max_x(), h: ra.h };
    let q3 = IntRect { x: x0, y: rb.max_y(), w: x1 - x0, h: ra.max_y() - rb.max_y() };
    let q4 = IntRect { x: x0, y: ra.y, w: x1 - x0, h: rb.y - ra.y };
    let (s1, s2, s3, s4) = (piece_if(c1, q1), piece_if(c2, q2), piece_if(c3, q3), piece_if(c4, q4));
    lemma_pieces_shape(ra, rb);
    assert forall|px: int, py: int| #[trigger] covers(s1 + s2 + s3 + s4, px, py) == (
    (c1 && q1.contains(px, py)) || (c2 && q2.contains(px, py)) || (c3 && q3.contains(px, py)) || (c4
        && q4.contains(px, py))) by {
        lemma_covers_concat(s1 + s2 + s3, s4, px, py);
        lemma_covers_concat(s1 + s2, s3, px, py);
        lemma_covers_concat(s1, s2, px, py);
        lemma_covers_piece(c1, q1, px, py);
        lemma_covers_piece(c2, q2, px, py);
        lemma_covers_piece(c3, q3, px, py);
        lemma_covers_piece(c4, q4, px, py);
    }
    lemma_piece_disjoint(c1, q1);
    lemma_piece_disjoint(c2, q2);
    lemma_piece_disjoint(c3, q3);
    lemma_piece_disjoint(c4, q4);
    assert forall|px: int, py: int| !(covers(s1, px, py) && #[trigger] covers(s2, px, py)) by {
        lemma_covers_piece(c1, q1, px, py);
        lemma_covers_piece(c2, q2, px, py);
    }
    lemma_disjoint_concat(s1, s2);
    assert forall|px: int, py: int| !(covers(s1 + s2, px, py) && #[trigger] covers(s3, px, py)) by {
        lemma_covers_concat(s1, s2, px, py);
        lemma_covers_piece(c1, q1, px, py);
        lemma_covers_piece(c2, q2, px, py);
        lemma_covers_piece(c3, q3, px, py);
    }
    lemma_disjoint_concat(s1 + s2, s3);
    assert forall|px: int, py: int| !(covers(s1 + s2 + s3, px, py) && #[trigger] covers(s4, px, py)) by {
        lemma_covers_concat(s1 + s2, s3, px, py);
        lemma_covers_concat(s1, s2, px, py);
        lemma_covers_piece(c1, q1, px, py);
        lemma_covers_piece(c2, q2, px, py);
        lemma_covers_piece(c3, q3, px, py);
        lemma_covers_piece(c4, q4, px, py);
    }
    lemma_disjoint_concat(s1 + s2 + s3, s4);
}

/// Segments whose directions have a zero cross product (parallel or
/// collinear) never cross.
pub proof fn parallel_segments_never_cross(a: Line, b: Line)
    requires
        cross(a.dx(), a.dy(), b.dx(), b.dy()) == 0,
    ensures
        a.crossing_spec(b).is_none(),
{
}

} // verus!

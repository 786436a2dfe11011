use vstd::prelude::*;

use crate::primitives::{fits_isize, half_toward_zero, Point, PointU32, RectInsets, Size, SizeU32};

verus! {

/// The mathematical value of a rectangle: origin `(x, y)` and extent `(w, h)`,
/// as unbounded integers. It covers the half-open box
/// `[x, x + w) × [y, y + h)`.
pub struct IntRect {
    pub x: int,
    pub y: int,
    pub w: int,
    pub h: int,
}

impl IntRect {
    pub open spec fn max_x(self) -> int {
        self.x + self.w
    }

    pub open spec fn max_y(self) -> int {
        self.y + self.h
    }

    pub open spec fn area(self) -> int {
        self.w * self.h
    }

    /// Both extents are non-negative.
    pub open spec fn well_formed(self) -> bool {
        self.w >= 0 && self.h >= 0
    }

    /// The far corner is representable, so `max_x` and `max_y` can be computed.
    pub open spec fn bounded(self) -> bool {
        fits_isize(self.max_x()) && fits_isize(self.max_y())
    }

    /// Half-open containment of a point.
    pub open spec fn contains(self, px: int, py: int) -> bool {
        self.x <= px < self.max_x() && self.y <= py < self.max_y()
    }

    /// `o` lies within `self` (edges may coincide).
    pub open spec fn encloses(self, o: IntRect) -> bool {
        &&& o.x >= self.x
        &&& o.y >= self.y
        &&& o.max_x() <= self.max_x()
        &&& o.max_y() <= self.max_y()
    }

    /// Strict overlap on both axes: rectangles that only share an edge do
    /// not intersect.
    pub open spec fn intersects(self, o: IntRect) -> bool {
        &&& self.max_x() > o.x
        &&& self.x < o.max_x()
        &&& self.max_y() > o.y
        &&& self.y < o.max_y()
    }

    /// The common part of two rectangles, when it has area.
    pub open spec fn overlap(self, o: IntRect) -> Option<IntRect> {
        let x0 = max_int(self.x, o.x);
        let y0 = max_int(self.y, o.y);
        let x1 = min_int(self.max_x(), o.max_x());
        let y1 = min_int(self.max_y(), o.max_y());
        if self.intersects(o) && x0 < x1 && y0 < y1 {
            Some(IntRect { x: x0, y: y0, w: x1 - x0, h: y1 - y0 })
        } else {
            None
        }
    }

    /// The smallest rectangle whose edges reach those of both.
    pub open spec fn union(self, o: IntRect) -> IntRect {
        let x0 = min_int(self.x, o.x);
        let y0 = min_int(self.y, o.y);
        IntRect {
            x: x0,
            y: y0,
            w: max_int(self.max_x(), o.max_x()) - x0,
            h: max_int(self.max_y(), o.max_y()) - y0,
        }
    }

    /// Moves the origin by `(left, top)` and shrinks the extent by the insets
    /// on both sides of each axis.
    pub open spec fn inset(self, left: int, top: int, right: int, bottom: int) -> IntRect {
        IntRect { x: self.x + left, y: self.y + top, w: self.w - (left + right), h: self.h - (top + bottom) }
    }
}

pub open spec fn min_int(a: int, b: int) -> int {
    if a <= b {
        a
    } else {
        b
    }
}

pub open spec fn max_int(a: int, b: int) -> int {
    if a >= b {
        a
    } else {
        b
    }
}

/// The summed area of a sequence of rectangles.
pub open spec fn total_area(s: Seq<IntRect>) -> int
    decreases s.len(),
{
    if s.len() == 0 {
        0
    } else {
        total_area(s.drop_last()) + s.last().area()
    }
}

/// First cut of the guillotine subtraction: the strip of `r` left of `ex`,
/// and what of `r` remains.
pub open spec fn cut_left(r: IntRect, ex: IntRect) -> (Seq<IntRect>, IntRect) {
    let d = ex.x - r.x;
    if d > 0 {
        (seq![IntRect { x: r.x, y: r.y, w: d, h: r.h }], IntRect { x: r.x + d, y: r.y, w: r.w - d, h: r.h })
    } else {
        (seq![], r)
    }
}

/// Second cut: the strip of `r` right of `ex`, and what remains.
pub open spec fn cut_right(r: IntRect, ex: IntRect) -> (Seq<IntRect>, IntRect) {
    let d = r.max_x() - ex.max_x();
    if d > 0 {
        (seq![IntRect { x: ex.max_x(), y: r.y, w: d, h: r.h }], IntRect { x: r.x, y: r.y, w: r.w - d, h: r.h })
    } else {
        (seq![], r)
    }
}

/// Third cut: the strip of `r` beyond the far (high-y) edge of `ex`, and
/// what remains.
pub open spec fn cut_far_y(r: IntRect, ex: IntRect) -> (Seq<IntRect>, IntRect) {
    let d = r.max_y() - ex.max_y();
    if d > 0 {
        (seq![IntRect { x: r.x, y: ex.max_y(), w: r.w, h: d }], IntRect { x: r.x, y: r.y, w: r.w, h: r.h - d })
    } else {
        (seq![], r)
    }
}

/// Last cut: the strip of `r` before the near (low-y) edge of `ex`.
pub open spec fn cut_near_y(r: IntRect, ex: IntRect) -> Seq<IntRect> {
    let d = ex.y - r.y;
    if d > 0 {
        seq![IntRect { x: r.x, y: r.y, w: r.w, h: d }]
    } else {
        seq![]
    }
}

/// The pieces of `a` outside `ex`, cut in the fixed order left, right, far
/// y, near y, each cut taken from what the earlier ones left. The cutting
/// stops as soon as the remainder no longer intersects `ex`; when `a` and
/// `ex` do not intersect at all there are no pieces.
pub open spec fn exclusion_pieces(a: IntRect, ex: IntRect) -> Seq<IntRect> {
    if !a.intersects(ex) {
        seq![]
    } else {
        let (p1, r1) = cut_left(a, ex);
        if !r1.intersects(ex) {
            p1
        } else {
            let (p2, r2) = cut_right(r1, ex);
            if !r2.intersects(ex) {
                p1 + p2
            } else {
                let (p3, r3) = cut_far_y(r2, ex);
                if !r3.intersects(ex) {
                    p1 + p2 + p3
                } else {
                    p1 + p2 + p3 + cut_near_y(r3, ex)
                }
            }
        }
    }
}

/// An axis-aligned rectangle in screen space.
#[derive(Debug, Clone, Copy, PartialEq, Eq, PartialOrd, Ord, Hash, Structural)]
pub struct Rect {
    pub origin: Point,
    pub size: Size,
}

impl View for Rect {
    type V = IntRect;

    open spec fn view(&self) -> IntRect {
        IntRect {
            x: self.origin.x as int,
            y: self.origin.y as int,
            w: self.size.width as int,
            h: self.size.height as int,
        }
    }
}

/// The models of a sequence of rectangles.
pub open spec fn rect_views(s: Seq<Rect>) -> Seq<IntRect> {
    s.map_values(|r: Rect| r@)
}

/// The model of an optional rectangle.
pub open spec fn opt_rect_view(o: Option<Rect>) -> Option<IntRect> {
    match o {
        Some(r) => Some(r@),
        None => None,
    }
}

impl Rect {
    pub open spec fn spec_zero() -> Rect {
        Rect { origin: Point { x: 0, y: 0 }, size: Size { width: 0, height: 0 } }
    }

    pub fn new(x: isize, y: isize, width: isize, height: isize) -> (r: Rect)
        ensures
            r@ == (IntRect { x: x as int, y: y as int, w: width as int, h: height as int }),
    {
        Rect { origin: Point::new(x, y), size: Size::new(width, height) }
    }

    pub fn with_size(size: Size) -> (r: Rect)
        ensures
            r.origin == Point::zero_spec(),
            r.size == size,
    {
        Rect { origin: Point::zero(), size }
    }

    pub fn with_origin(origin: Point) -> (r: Rect)
        ensures
            r.origin == origin,
            r.size == Size::zero_spec(),
    {
        Rect { origin, size: Size::zero() }
    }

    pub fn replace_origin(&self, new_origin: Point) -> (r: Rect)
        ensures
            r.origin == new_origin,
            r.size == self.size,
    {
        Rect::from_parts(new_origin, self.size)
    }

    pub fn replace_size(&self, new_size: Size) -> (r: Rect)
        ensures
            r.origin == self.origin,
            r.size == new_size,
    {
        Rect::from_parts(self.origin, new_size)
    }

    /// Moves the rectangle by `addend`.
    pub fn add_origin(&self, addend: Point) -> (r: Rect)
        requires
            fits_isize(self.origin.x + addend.x),
            fits_isize(self.origin.y + addend.y),
        ensures
            r@ == (IntRect { x: self@.x + addend.x, y: self@.y + addend.y, ..self@ }),
    {
        Rect::from_parts(self.origin + addend, self.size)
    }

    pub fn from_parts(origin: Point, size: Size) -> (r: Rect)
        ensures
            r.origin == origin,
            r.size == size,
    {
        Rect { origin, size }
    }

    pub fn zero() -> (r: Rect)
        ensures
            r == Rect::spec_zero(),
    {
        Rect::from_parts(Point::zero(), Size::zero())
    }

    /// Moves the left and top edges inward by `left` and `top`, and the right
    /// and bottom edges inward by `right` and `bottom`.
    pub fn inset_by(&self, bottom: isize, left: isize, right: isize, top: isize) -> (r: Rect)
        requires
            fits_isize(self.origin.x + left),
            fits_isize(self.origin.y + top),
            fits_isize(left + right),
            fits_isize(top + bottom),
            fits_isize(self.size.width - (left + right)),
            fits_isize(self.size.height - (top + bottom)),
        ensures
            r@ == self@.inset(left as int, top as int, right as int, bottom as int),
    {
        Rect::from_parts(
            self.origin + Point::new(left, top),
            self.size - Size::new(left + right, top + bottom),
        )
    }

    pub fn inset_by_insets(&self, insets: RectInsets) -> (r: Rect)
        requires
            fits_isize(self.origin.x + insets.left),
            fits_isize(self.origin.y + insets.top),
            fits_isize(insets.left + insets.right),
            fits_isize(insets.top + insets.bottom),
            fits_isize(self.size.width - (insets.left + insets.right)),
            fits_isize(self.size.height - (insets.top + insets.bottom)),
        ensures
            r@ == self@.inset(insets.left as int, insets.top as int, insets.right as int, insets.bottom as int),
    {
        self.inset_by(insets.bottom, insets.left, insets.right, insets.top)
    }

    pub fn min_x(&self) -> (r: isize)
        ensures
            r == self@.x,
    {
        self.origin.x
    }

    pub fn min_y(&self) -> (r: isize)
        ensures
            r == self@.y,
    {
        self.origin.y
    }

    pub fn max_x(&self) -> (r: isize)
        requires
            fits_isize(self@.max_x()),
        ensures
            r == self@.max_x(),
    {
        self.min_x() + self.size.width
    }

    pub fn max_y(&self) -> (r: isize)
        requires
            fits_isize(self@.max_y()),
        ensures
            r == self@.max_y(),
    {
        self.min_y() + self.size.height
    }

    /// The x coordinate halfway across, rounding the half-width toward zero.
    pub fn mid_x(&self) -> (r: isize)
        requires
            fits_isize(self@.max_x()),
        ensures
            r == self@.x + half_toward_zero(self@.w),
    {
        self.min_x() + self.size.width / 2
    }

    /// The y coordinate halfway down, rounding the half-height toward zero.
    pub fn mid_y(&self) -> (r: isize)
        requires
            fits_isize(self@.max_y()),
        ensures
            r == self@.y + half_toward_zero(self@.h),
    {
        self.min_y() + self.size.height / 2
    }

    pub fn midpoint(&self) -> (r: Point)
        requires
            self@.bounded(),
        ensures
            r.x == self@.x + half_toward_zero(self@.w),
            r.y == self@.y + half_toward_zero(self@.h),
    {
        Point::new(self.mid_x(), self.mid_y())
    }

    pub fn width(&self) -> (r: isize)
        ensures
            r == self.size.width,
    {
        self.size.width
    }

    pub fn height(&self) -> (r: isize)
        ensures
            r == self.size.height,
    {
        self.size.height
    }

    pub fn center(&self) -> (r: Point)
        requires
            self@.bounded(),
        ensures
            r.x == self@.x + half_toward_zero(self@.w),
            r.y == self@.y + half_toward_zero(self@.h),
    {
        Point::new(self.mid_x(), self.mid_y())
    }

    /// Half-open containment: the near edges are inside, the far edges are not.
    pub fn contains(&self, p: Point) -> (r: bool)
        requires
            self@.bounded(),
        ensures
            r == self@.contains(p.x as int, p.y as int),
    {
        p.x >= self.min_x() && p.y >= self.min_y() && p.x < self.max_x() && p.y < self.max_y()
    }

    pub fn encloses(&self, rhs: Rect) -> (r: bool)
        requires
            self@.bounded(),
            rhs@.bounded(),
        ensures
            r == self@.encloses(rhs@),
    {
        rhs.min_x() >= self.min_x() && rhs.min_y() >= self.min_y() && rhs.max_x() <= self.max_x()
            && rhs.max_y() <= self.max_y()
    }

    /// Clips `rhs`, given in coordinates local to this rectangle, to this
    /// rectangle's extent: the zero rectangle when `rhs` starts at or past a
    /// far edge, else `rhs` with each far edge pulled back to at most this
    /// rectangle's width or height.
    pub fn constrain(&self, rhs: Rect) -> (r: Rect)
        requires
            self@.bounded(),
            rhs@.bounded(),
            fits_isize(rhs@.max_x() - self@.w),
            fits_isize(rhs@.max_y() - self@.h),
            fits_isize(self@.w - rhs@.x),
            fits_isize(self@.h - rhs@.y),
        ensures
            r@ == constrained(self@, rhs@),
    {
        if rhs.min_x() >= self.max_x() || rhs.min_y() >= self.max_y() {
            return Rect::zero();
        }
        let mut width = rhs.width();
        if rhs.max_x() > self.width() {
            width -= rhs.max_x() - self.width();
        }
        let mut height = rhs.height();
        if rhs.max_y() > self.height() {
            height -= rhs.max_y() - self.height();
        }
        let origin = rhs.origin;
        Rect::from_parts(origin, Size::new(width, height))
    }

    pub fn apply_insets(&self, insets: RectInsets) -> (r: Rect)
        requires
            fits_isize(self.origin.x + insets.left),
            fits_isize(self.origin.y + insets.top),
            fits_isize(insets.left + insets.right),
            fits_isize(insets.top + insets.bottom),
            fits_isize(self.size.width - (insets.left + insets.right)),
            fits_isize(self.size.height - (insets.top + insets.bottom)),
        ensures
            r@ == self@.inset(insets.left as int, insets.top as int, insets.right as int, insets.bottom as int),
    {
        Rect::new(
            self.origin.x + insets.left,
            self.origin.y + insets.top,
            self.size.width - (insets.left + insets.right),
            self.size.height - (insets.top + insets.bottom),
        )
    }

    /// Strict intersection: rectangles that only share an edge do not
    /// intersect.
    pub fn intersects_with(&self, other: Rect) -> (r: bool)
        requires
            self@.bounded(),
            other@.bounded(),
        ensures
            r == self@.intersects(other@),
    {
        self.max_x() > other.min_x() && self.min_x() < other.max_x() && self.max_y() > other.min_y()
            && self.min_y() < other.max_y()
    }

    /// The pieces of this rectangle outside `exclude_rect`, cut as guillotine
    /// strips in the order left, right, far y, near y. Empty when the two do
    /// not intersect.
    pub fn area_excluding_rect(&self, exclude_rect: Rect) -> (out: Vec<Rect>)
        requires
            self@.bounded(),
            exclude_rect@.bounded(),
        ensures
            rect_views(out@) == exclusion_pieces(self@, exclude_rect@),
            out@.len() == exclusion_pieces(self@, exclude_rect@).len(),
    {
        let ghost a = self@;
        let ghost ex = exclude_rect@;
        let mut trimmed_area = *self;
        let mut out: Vec<Rect> = Vec::new();
        if !trimmed_area.intersects_with(exclude_rect) {
            assert(rect_views(out@) =~= seq![]);
            return out;
        }
        // Left strip
        let left_overlap = exclude_rect.min_x() - trimmed_area.min_x();
        if left_overlap > 0 {
            out.push(Rect::from_parts(trimmed_area.origin, Size::new(left_overlap, trimmed_area.height())));
            trimmed_area.origin.x = trimmed_area.origin.x + left_overlap;
            trimmed_area.size.width = trimmed_area.size.width - left_overlap;
        }
        let ghost p1 = cut_left(a, ex).0;
        assert(trimmed_area@ == cut_left(a, ex).1);
        assert(rect_views(out@) =~= p1);
        if !trimmed_area.intersects_with(exclude_rect) {
            return out;
        }
        // Right strip
        let right_overlap = trimmed_area.max_x() - exclude_rect.max_x();
        if right_overlap > 0 {
            out.push(Rect::from_parts(
                Point::new(exclude_rect.max_x(), trimmed_area.min_y()),
                Size::new(right_overlap, trimmed_area.height()),
            ));
            trimmed_area.size.width = trimmed_area.size.width - right_overlap;
        }
        let ghost r1 = cut_left(a, ex).1;
        let ghost p2 = cut_right(r1, ex).0;
        assert(trimmed_area@ == cut_right(r1, ex).1);
        assert(rect_views(out@) =~= p1 + p2);
        if !trimmed_area.intersects_with(exclude_rect) {
            return out;
        }
        // Far (high-y) strip
        let far_overlap = trimmed_area.max_y() - exclude_rect.max_y();
        if far_overlap > 0 {
            out.push(Rect::from_parts(
                Point::new(trimmed_area.min_x(), exclude_rect.max_y()),
                Size::new(trimmed_area.width(), far_overlap),
            ));
            trimmed_area.size.height = trimmed_area.size.height - far_overlap;
        }
        let ghost r2 = cut_right(r1, ex).1;
        let ghost p3 = cut_far_y(r2, ex).0;
        assert(trimmed_area@ == cut_far_y(r2, ex).1);
        assert(rect_views(out@) =~= p1 + p2 + p3);
        if !trimmed_area.intersects_with(exclude_rect) {
            return out;
        }
        // Near (low-y) strip
        let near_overlap = exclude_rect.min_y() - trimmed_area.min_y();
        if near_overlap > 0 {
            out.push(Rect::from_parts(trimmed_area.origin, Size::new(trimmed_area.width(), near_overlap)));
        }
        let ghost r3 = cut_far_y(r2, ex).1;
        assert(rect_views(out@) =~= p1 + p2 + p3 + cut_near_y(r3, ex));
        out
    }

    /// The rectangle covered by both, or `None` when they share no area.
    pub fn area_overlapping_with(&self, rect_to_intersect_with: Rect) -> (r: Option<Rect>)
        requires
            self@.bounded(),
            rect_to_intersect_with@.bounded(),
        ensures
            opt_rect_view(r) == self@.overlap(rect_to_intersect_with@),
    {
        if !self.intersects_with(rect_to_intersect_with) {
            return None;
        }
        let r1 = *self;
        let r2 = rect_to_intersect_with;
        if r1 == r2 {
            return Some(r1);
        }
        let origin = Point::new(
            if r1.min_x() >= r2.min_x() { r1.min_x() } else { r2.min_x() },
            if r1.min_y() >= r2.min_y() { r1.min_y() } else { r2.min_y() },
        );
        let bottom_right = Point::new(
            if r1.max_x() <= r2.max_x() { r1.max_x() } else { r2.max_x() },
            if r1.max_y() <= r2.max_y() { r1.max_y() } else { r2.max_y() },
        );
        if !(origin.x < bottom_right.x && origin.y < bottom_right.y) {
            return None;
        }
        let size = Size::new(bottom_right.x - origin.x, bottom_right.y - origin.y);
        Some(Rect::from_parts(origin, size))
    }

    /// The smallest rectangle that reaches the edges of both.
    pub fn union(&self, other: Rect) -> (r: Rect)
        requires
            self@.bounded(),
            other@.bounded(),
            fits_isize(self@.union(other@).w),
            fits_isize(self@.union(other@).h),
        ensures
            r@ == self@.union(other@),
    {
        let origin = Point::new(
            if self.min_x() <= other.min_x() { self.min_x() } else { other.min_x() },
            if self.min_y() <= other.min_y() { self.min_y() } else { other.min_y() },
        );
        let far_x = if self.max_x() >= other.max_x() { self.max_x() } else { other.max_x() };
        let far_y = if self.max_y() >= other.max_y() { self.max_y() } else { other.max_y() };
        Rect::from_parts(origin, Size::new(far_x - origin.x, far_y - origin.y))
    }

    pub fn translate_point(&self, p: Point) -> (r: Point)
        requires
            fits_isize(p.x - self.origin.x),
            fits_isize(p.y - self.origin.y),
        ensures
            r.x == p.x - self.origin.x,
            r.y == p.y - self.origin.y,
    {
        p - self.origin
    }

    pub fn is_zero(&self) -> (r: bool)
        ensures
            r == (*self == Rect::spec_zero()),
    {
        *self == Rect::zero()
    }

    /// Whether the rectangle has no area because an extent is zero.
    pub fn is_degenerate(&self) -> (r: bool)
        ensures
            r == (self.size.width == 0 || self.size.height == 0),
    {
        self.width() == 0 || self.height() == 0
    }

    pub fn area(&self) -> (r: isize)
        requires
            fits_isize(self@.area()),
        ensures
            r == self@.area(),
    {
        self.width() * self.height()
    }
}

/// What `Rect::constrain` makes of `rhs` within `outer`.
pub open spec fn constrained(outer: IntRect, rhs: IntRect) -> IntRect {
    if rhs.x >= outer.max_x() || rhs.y >= outer.max_y() {
        IntRect { x: 0, y: 0, w: 0, h: 0 }
    } else {
        IntRect {
            x: rhs.x,
            y: rhs.y,
            w: if rhs.max_x() > outer.w { outer.w - rhs.x } else { rhs.w },
            h: if rhs.max_y() > outer.h { outer.h - rhs.y } else { rhs.h },
        }
    }
}

/// An unsigned rectangle for interfaces that need fixed-width coordinates.
#[derive(Debug, Clone, Copy)]
pub struct RectU32 {
    pub origin: PointU32,
    pub size: SizeU32,
}

impl RectU32 {
    /// Converts by truncating each coordinate to its low 32 bits.
    pub fn from(rect: Rect) -> (r: RectU32)
        ensures
            r.origin.x == rect.origin.x as u32,
            r.origin.y == rect.origin.y as u32,
            r.size.width == rect.size.width as u32,
            r.size.height == rect.size.height as u32,
    {
        RectU32 { origin: PointU32::from(rect.origin), size: SizeU32::from(rect.size) }
    }

    pub fn zero() -> (r: RectU32)
        ensures
            r.origin.x == 0,
            r.origin.y == 0,
            r.size.width == 0,
            r.size.height == 0,
    {
        Self::from(Rect::zero())
    }
}

/// Converts each coordinate by value; on a 64-bit target every `u32` is kept.
impl From<RectU32> for Rect {
    fn from(rect: RectU32) -> (r: Rect) {
        Rect { origin: Point::from(rect.origin), size: Size::from(&rect.size) }
    }
}

impl vstd::std_specs::convert::FromSpecImpl<RectU32> for Rect {
    open spec fn obeys_from_spec() -> bool {
        true
    }

    open spec fn from_spec(rect: RectU32) -> Rect {
        Rect {
            origin: Point { x: rect.origin.x as isize, y: rect.origin.y as isize },
            size: Size { width: rect.size.width as isize, height: rect.size.height as isize },
        }
    }
}

} // verus!

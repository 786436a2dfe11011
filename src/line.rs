use vstd::prelude::*;

use crate::color::Color;
use crate::primitives::{fits_isize, half_toward_zero, Point};
use crate::surface::PixelSink;

verus! {

/// The z component of the cross product of `(ax, ay)` and `(bx, by)`.
pub open spec fn cross(ax: int, ay: int, bx: int, by: int) -> int {
    ax * by - ay * bx
}

pub open spec fn abs_int(v: int) -> int {
    if v < 0 {
        -v
    } else {
        v
    }
}

pub open spec fn sign_int(v: int) -> int {
    if v > 0 {
        1
    } else if v == 0 {
        0
    } else {
        -1
    }
}

/// `n / d` lies in `[0, 1]`.
pub open spec fn in_unit_interval(n: int, d: int) -> bool {
    if d > 0 {
        0 <= n <= d
    } else {
        d < 0 && d <= n <= 0
    }
}

/// One more step of the error accumulation never passes the far end point.
proof fn lemma_step_bounded(k: int, a: int, d: int, q: int, e_old: int)
    requires
        0 <= k < d,
        0 <= a <= d,
        0 <= e_old + a - d,
        e_old == k * a - q * d,
    ensures
        q + 1 <= a,
{
    let e = e_old + a - d;
    assert(e == (k + 1) * a - (q + 1) * d) by (nonlinear_arith)
        requires e == e_old + a - d, e_old == k * a - q * d;
    assert((q + 1) * d <= (k + 1) * a) by (nonlinear_arith)
        requires e == (k + 1) * a - (q + 1) * d, 0 <= e;
    assert((k + 1) * a <= d * a) by (nonlinear_arith)
        requires k + 1 <= d, 0 <= a;
    assert(q + 1 <= a) by (nonlinear_arith)
        requires (q + 1) * d <= d * a, d > 0;
}

/// Moving one more step toward the far end point stays between the two end
/// points.
proof fn lemma_cursor_step(p: int, delta: int, q: int)
    requires
        0 <= q,
        q + 1 <= abs_int(delta),
        fits_isize(p),
        fits_isize(p + delta),
    ensures
        p + sign_int(delta) * q + sign_int(delta) == p + sign_int(delta) * (q + 1),
        fits_isize(p + sign_int(delta) * (q + 1)),
{
    if delta > 0 {
        assert(sign_int(delta) * q == q);
        assert(sign_int(delta) * (q + 1) == q + 1);
    } else if delta < 0 {
        assert(sign_int(delta) * q == -q);
        assert(sign_int(delta) * (q + 1) == -(q + 1));
    }
}

/// The error term keeps its relation to the step count after one step.
proof fn lemma_step_relation(k: int, a: int, d: int, q0: int, e0: int, q: int, e: int)
    requires
        e0 == k * a - q0 * d,
        (q == q0 + 1 && e == e0 + a - d) || (q == q0 && e == e0 + a),
    ensures
        e == (k + 1) * a - q * d,
{
    assert(e == (k + 1) * a - q * d) by (nonlinear_arith)
        requires
            e0 == k * a - q0 * d,
            (q == q0 + 1 && e == e0 + a - d) || (q == q0 && e == e0 + a);
}

/// Products of two values in the `isize` range fit comfortably in `i128`,
/// and so does the difference of two such products.
proof fn lemma_cross_fits(ax: int, ay: int, bx: int, by: int)
    requires
        fits_isize(ax),
        fits_isize(ay),
        fits_isize(bx),
        fits_isize(by),
    ensures
        -0x8000_0000_0000_0000_0000_0000_0000_0000 + 0x8000_0000_0000_0000 <= cross(ax, ay, bx, by)
            <= 0x8000_0000_0000_0000_0000_0000_0000_0000 - 0x8000_0000_0000_0000,
        -0x4000_0000_0000_0000_0000_0000_0000_0000 <= ax * by <= 0x4000_0000_0000_0000_0000_0000_0000_0000,
        -0x4000_0000_0000_0000_0000_0000_0000_0000 <= ay * bx <= 0x4000_0000_0000_0000_0000_0000_0000_0000,
{
    lemma_isize_range();
    lemma_product_range(ax, by);
    lemma_product_range(ay, bx);
}

proof fn lemma_isize_range()
    ensures
        isize::MIN >= -0x8000_0000_0000_0000,
        isize::MAX <= 0x7fff_ffff_ffff_ffff,
{
    assert(isize::MIN == -0x8000_0000 || isize::MIN == -0x8000_0000_0000_0000);
    assert(isize::MAX == 0x7fff_ffff || isize::MAX == 0x7fff_ffff_ffff_ffff);
}

proof fn lemma_product_range(a: int, b: int)
    requires
        -0x8000_0000_0000_0000 <= a <= 0x7fff_ffff_ffff_ffff,
        -0x8000_0000_0000_0000 <= b <= 0x7fff_ffff_ffff_ffff,
    ensures
        -0x4000_0000_0000_0000_0000_0000_0000_0000 + 0x8000_0000_0000_0000 <= a * b
            <= 0x4000_0000_0000_0000_0000_0000_0000_0000,
{
    if a >= 0 && b >= 0 {
        assert(a * b <= 0x7fff_ffff_ffff_ffff * 0x7fff_ffff_ffff_ffff) by (nonlinear_arith)
            requires 0 <= a <= 0x7fff_ffff_ffff_ffff, 0 <= b <= 0x7fff_ffff_ffff_ffff;
        assert(a * b >= 0) by (nonlinear_arith) requires a >= 0, b >= 0;
    } else if a < 0 && b < 0 {
        assert(a * b <= 0x8000_0000_0000_0000 * 0x8000_0000_0000_0000) by (nonlinear_arith)
            requires -0x8000_0000_0000_0000 <= a < 0, -0x8000_0000_0000_0000 <= b < 0;
        assert(a * b >= 0) by (nonlinear_arith) requires a < 0, b < 0;
    } else if a < 0 {
        assert(a * b >= -0x8000_0000_0000_0000 * 0x7fff_ffff_ffff_ffff) by (nonlinear_arith)
            requires -0x8000_0000_0000_0000 <= a < 0, 0 <= b <= 0x7fff_ffff_ffff_ffff;
        assert(a * b <= 0) by (nonlinear_arith) requires a < 0, b >= 0;
    } else {
        assert(a * b >= 0x7fff_ffff_ffff_ffff * -0x8000_0000_0000_0000) by (nonlinear_arith)
            requires 0 <= a <= 0x7fff_ffff_ffff_ffff, -0x8000_0000_0000_0000 <= b < 0;
        assert(a * b <= 0) by (nonlinear_arith) requires a >= 0, b < 0;
    }
}

/// The cross product of two vectors, computed without overflow.
fn cross_product(ax: isize, ay: isize, bx: isize, by: isize) -> (r: i128)
    ensures
        r == cross(ax as int, ay as int, bx as int, by as int),
        -0x8000_0000_0000_0000_0000_0000_0000_0000 + 0x8000_0000_0000_0000 <= r
            <= 0x8000_0000_0000_0000_0000_0000_0000_0000 - 0x8000_0000_0000_0000,
{
    proof { lemma_cross_fits(ax as int, ay as int, bx as int, by as int); }
    (ax as i128) * (by as i128) - (ay as i128) * (bx as i128)
}

/// A line moved by a fixed offset rasterises to the same pixels, moved by
/// that offset.
proof fn lemma_shifted_strip(l: Line, m: Line, ox: int, oy: int)
    requires
        l.is_shifted(m, ox, oy),
    ensures
        m.dx() == l.dx(),
        m.dy() == l.dy(),
        m.distance() == l.distance(),
        forall|k: int| #[trigger] m.strip_pixel(k) == (l.strip_pixel(k).0 + ox, l.strip_pixel(k).1 + oy),
{
}

/// Slot `k` of block `j` comes before block `i` when `j < i`.
proof fn lemma_slot_before(j: int, i: int, k: int, d: int)
    requires
        0 <= j < i,
        0 <= k <= d,
    ensures
        j * (d + 1) + k < i * (d + 1),
{
    assert(j * (d + 1) + k < (j + 1) * (d + 1)) by (nonlinear_arith)
        requires 0 <= k <= d;
    assert((j + 1) * (d + 1) <= i * (d + 1)) by (nonlinear_arith)
        requires j + 1 <= i, d >= 0;
}

/// Entry `idx` of a write log is the pixel `at`, in `color`.
pub open spec fn wrote_at(w: Seq<(Point, Color)>, idx: int, at: (int, int), color: Color) -> bool {
    &&& 0 <= idx < w.len()
    &&& w[idx].0.x == at.0
    &&& w[idx].0.y == at.1
    &&& w[idx].1 == color
}

/// A directed segment from `p1` to `p2`.
#[derive(Debug, Clone, Copy, PartialEq, Eq, Structural)]
pub struct Line {
    pub p1: Point,
    pub p2: Point,
}

/// Where two segments cross: at parameter `t_num / den` along the first
/// one, that is at `p1 + (t_num / den) * (p2 - p1)`. Always `den > 0` and
/// `0 <= t_num <= den`.
#[derive(Debug, Clone, Copy, PartialEq, Eq, Structural)]
pub struct LineCrossing {
    pub t_num: i128,
    pub den: i128,
}

/// How wide a stroke is.
#[derive(Debug, Clone, Copy, PartialEq, Eq, Structural)]
pub enum StrokeThickness {
    Filled,
    Width(isize),
}

impl Line {
    pub open spec fn dx(self) -> int {
        self.p2.x - self.p1.x
    }

    pub open spec fn dy(self) -> int {
        self.p2.y - self.p1.y
    }

    /// Both coordinate differences of the segment are representable.
    pub open spec fn deltas_fit(self) -> bool {
        fits_isize(self.dx()) && fits_isize(self.dy())
    }

    /// The parametric crossing of two segments `p + t r` and `q + u s`:
    /// `None` when `r × s` is zero (parallel or collinear), else the
    /// parameter `t` as a fraction with positive denominator, provided both
    /// `t` and `u` lie in `[0, 1]`.
    pub open spec fn crossing_spec(self, other: Line) -> Option<(int, int)> {
        let d = cross(self.dx(), self.dy(), other.dx(), other.dy());
        let qpx = other.p1.x - self.p1.x;
        let qpy = other.p1.y - self.p1.y;
        let tn = cross(qpx, qpy, other.dx(), other.dy());
        let un = cross(qpx, qpy, self.dx(), self.dy());
        if d == 0 {
            None
        } else if in_unit_interval(tn, d) && in_unit_interval(un, d) {
            if d > 0 {
                Some((tn, d))
            } else {
                Some((-tn, -d))
            }
        } else {
            None
        }
    }

    /// The number of steps along the longer axis.
    pub open spec fn distance(self) -> int {
        if abs_int(self.dx()) >= abs_int(self.dy()) {
            abs_int(self.dx())
        } else {
            abs_int(self.dy())
        }
    }

    /// The `k`-th pixel of the one-pixel-wide rasterisation, for
    /// `0 <= k <= distance()`: each axis advances by `k / distance` of its
    /// delta, rounded toward the start point.
    pub open spec fn strip_pixel(self, k: int) -> (int, int) {
        let d = self.distance();
        if d == 0 {
            (self.p1.x as int, self.p1.y as int)
        } else {
            (
                self.p1.x + sign_int(self.dx()) * ((k * abs_int(self.dx())) / d),
                self.p1.y + sign_int(self.dy()) * ((k * abs_int(self.dy())) / d),
            )
        }
    }

    /// The offset of the `i`-th one-pixel line of a stroke `thickness`
    /// wide: across the line for vertical and horizontal lines, and along x,
    /// centred on the line, for any other.
    pub open spec fn stroke_offset_x(self, thickness: int, i: int) -> int {
        if self.p1.x == self.p2.x {
            i
        } else if self.p1.y == self.p2.y {
            0
        } else {
            half_toward_zero(thickness) - i
        }
    }

    /// The y part of the offset; see `stroke_offset_x`.
    pub open spec fn stroke_offset_y(self, thickness: int, i: int) -> int {
        if self.p1.x != self.p2.x && self.p1.y == self.p2.y {
            i
        } else {
            0
        }
    }

    /// Every line of a stroke has representable end points.
    pub open spec fn stroke_fits(self, thickness: StrokeThickness) -> bool {
        match thickness {
            StrokeThickness::Filled => true,
            StrokeThickness::Width(t) => self.width_stroke_fits(t as int),
        }
    }

    /// Every line of a stroke `thickness` wide has representable end points.
    pub open spec fn width_stroke_fits(self, thickness: int) -> bool {
        forall|i: int| 0 <= i < thickness ==> #[trigger] self.stroke_line_fits(thickness, i)
    }

    /// The `i`-th line of a stroke `thickness` wide has representable end
    /// points.
    pub open spec fn stroke_line_fits(self, thickness: int, i: int) -> bool {
        &&& fits_isize(self.p1.x + self.stroke_offset_x(thickness, i))
        &&& fits_isize(self.p2.x + self.stroke_offset_x(thickness, i))
        &&& fits_isize(self.p1.y + self.stroke_offset_y(thickness, i))
        &&& fits_isize(self.p2.y + self.stroke_offset_y(thickness, i))
    }

    /// `l` is this line moved by `(ox, oy)`.
    pub open spec fn is_shifted(self, l: Line, ox: int, oy: int) -> bool {
        &&& l.p1.x == self.p1.x + ox
        &&& l.p2.x == self.p2.x + ox
        &&& l.p1.y == self.p1.y + oy
        &&& l.p2.y == self.p2.y + oy
    }

    /// Where this segment crosses `other`, as a parameter along this one;
    /// `None` when they are parallel or collinear, or when the crossing
    /// point of the two carrier lines lies outside either segment (the end
    /// points count as inside).
    pub fn crossing(&self, other: &Line) -> (r: Option<LineCrossing>)
        requires
            self.deltas_fit(),
            other.deltas_fit(),
            fits_isize(other.p1.x - self.p1.x),
            fits_isize(other.p1.y - self.p1.y),
        ensures
            match r {
                Some(c) => self.crossing_spec(*other) == Some((c.t_num as int, c.den as int)),
                None => self.crossing_spec(*other).is_none(),
            },
            cross(self.dx(), self.dy(), other.dx(), other.dy()) == 0 ==> r.is_none(),
    {
        let r = self.p2 - self.p1;
        let s = other.p2 - other.p1;
        let q_minus_p = other.p1 - self.p1;
        let r_cross_s = cross_product(r.x, r.y, s.x, s.y);
        if r_cross_s == 0 {
            return None;
        }
        let t_num = cross_product(q_minus_p.x, q_minus_p.y, s.x, s.y);
        let u_num = cross_product(q_minus_p.x, q_minus_p.y, r.x, r.y);
        let (t_num, u_num, den) = if r_cross_s < 0 {
            (-t_num, -u_num, -r_cross_s)
        } else {
            (t_num, u_num, r_cross_s)
        };
        let t_in_range = 0 <= t_num && t_num <= den;
        let u_in_range = 0 <= u_num && u_num <= den;
        if !t_in_range || !u_in_range {
            return None;
        }
        Some(LineCrossing { t_num, den })
    }

    /// Whether the two segments cross, end points included.
    pub fn intersects_with(&self, other: &Line) -> (r: bool)
        requires
            self.deltas_fit(),
            other.deltas_fit(),
            fits_isize(other.p1.x - self.p1.x),
            fits_isize(other.p1.y - self.p1.y),
        ensures
            r == self.crossing_spec(*other).is_some(),
    {
        self.crossing(other).is_some()
    }

    /// The one-pixel lines that make up a stroke of the given thickness:
    /// the line itself when filled, else one copy per unit of width, each
    /// moved by `stroke_offset`.
    pub fn strokes(&self, thickness: StrokeThickness) -> (r: Vec<Line>)
        requires
            self.stroke_fits(thickness),
        ensures
            match thickness {
                StrokeThickness::Filled => r@ == seq![*self],
                StrokeThickness::Width(t) => {
                    &&& r@.len() == (if t > 0 { t as int } else { 0 })
                    &&& forall|i: int|
                        0 <= i < r@.len() ==> self.is_shifted(
                            #[trigger] r@[i],
                            self.stroke_offset_x(t as int, i),
                            self.stroke_offset_y(t as int, i),
                        )
                },
            },
    {
        let mut out: Vec<Line> = Vec::new();
        if let StrokeThickness::Width(thickness) = thickness {
            let mut i: isize = 0;
            while i < thickness
                invariant
                    self.width_stroke_fits(thickness as int),
                    0 <= i <= thickness || (thickness <= 0 && i == 0),
                    out@.len() == i,
                        forall|j: int|
                        0 <= j < i ==> self.is_shifted(
                            #[trigger] out@[j],
                            self.stroke_offset_x(thickness as int, j),
                            self.stroke_offset_y(thickness as int, j),
                        ),
                decreases thickness - i,
            {
                assert(self.stroke_line_fits(thickness as int, i as int));
                let mut subline = *self;
                if self.p1.x == self.p2.x {
                    subline.p1.x = subline.p1.x + i;
                    subline.p2.x = subline.p2.x + i;
                } else if self.p1.y == self.p2.y {
                    subline.p1.y = subline.p1.y + i;
                    subline.p2.y = subline.p2.y + i;
                } else {
                    let off = thickness / 2;
                    subline.p1.x = subline.p1.x + (off - i);
                    subline.p2.x = subline.p2.x + (off - i);
                }
                out.push(subline);
                i = i + 1;
            }
        } else {
            out.push(*self);
            assert(out@ =~= seq![*self]);
        }
        out
    }

    /// Plots the one-pixel-wide rasterisation of this segment.
    pub fn draw_strip<S: PixelSink>(&self, onto: &mut S, color: Color)
        requires
            self.deltas_fit(),
        ensures
            final(onto).written().len() == old(onto).written().len() + self.distance() + 1,
            final(onto).written().take(old(onto).written().len() as int) == old(onto).written(),
            forall|k: int|
                0 <= k <= self.distance() ==> #[trigger] wrote_at(
                    final(onto).written(),
                    old(onto).written().len() + k,
                    self.strip_pixel(k),
                    color,
                ),
    {
        let ghost w0 = onto.written();
        let pixels = self.strip_pixels();
        let mut i: usize = 0;
        while i < pixels.len()
            invariant
                i <= pixels@.len(),
                pixels@.len() == self.distance() + 1,
                forall|k: int| 0 <= k < pixels@.len() ==> ((#[trigger] pixels@[k]).x as int, pixels@[k].y as int) == self.strip_pixel(k),
                onto.written().len() == w0.len() + i,
                onto.written().take(w0.len() as int) == w0,
                forall|k: int| 0 <= k < i ==> #[trigger] wrote_at(onto.written(), w0.len() + k, self.strip_pixel(k), color),
            decreases pixels@.len() - i,
        {
            let ghost before = onto.written();
            onto.putpixel(pixels[i], color);
            proof {
                assert(onto.written().take(w0.len() as int) =~= before.take(w0.len() as int));
                assert forall|k: int| 0 <= k < i + 1 implies #[trigger] wrote_at(onto.written(), w0.len() + k, self.strip_pixel(k), color) by {
                    if k < i {
                        assert(wrote_at(before, w0.len() + k, self.strip_pixel(k), color));
                    }
                }
            }
            i = i + 1;
        }
    }

    /// How many one-pixel lines a stroke of the given thickness has.
    pub open spec fn stroke_count(thickness: StrokeThickness) -> int {
        match thickness {
            StrokeThickness::Filled => 1,
            StrokeThickness::Width(t) => if t > 0 { t as int } else { 0 },
        }
    }

    /// The x offset of the `i`-th line of a stroke; zero when filled.
    pub open spec fn stroke_shift_x(self, thickness: StrokeThickness, i: int) -> int {
        match thickness {
            StrokeThickness::Filled => 0,
            StrokeThickness::Width(t) => self.stroke_offset_x(t as int, i),
        }
    }

    /// The y offset of the `i`-th line of a stroke; zero when filled.
    pub open spec fn stroke_shift_y(self, thickness: StrokeThickness, i: int) -> int {
        match thickness {
            StrokeThickness::Filled => 0,
            StrokeThickness::Width(t) => self.stroke_offset_y(t as int, i),
        }
    }

    /// Plots this segment as a stroke of the given thickness: the strip of
    /// each line of `strokes` in turn, so the `k`-th pixel of the `i`-th line
    /// is this line's `k`-th strip pixel moved by that line's offset.
    pub fn draw<S: PixelSink>(&self, onto: &mut S, color: Color, thickness: StrokeThickness)
        requires
            self.deltas_fit(),
            self.stroke_fits(thickness),
        ensures
            final(onto).written().len() == old(onto).written().len() + Line::stroke_count(thickness) * (
            self.distance() + 1),
            final(onto).written().take(old(onto).written().len() as int) == old(onto).written(),
            forall|i: int, k: int|
                0 <= i < Line::stroke_count(thickness) && 0 <= k <= self.distance() ==> #[trigger] wrote_at(
                    final(onto).written(),
                    old(onto).written().len() + i * (self.distance() + 1) + k,
                    (
                        self.strip_pixel(k).0 + self.stroke_shift_x(thickness, i),
                        self.strip_pixel(k).1 + self.stroke_shift_y(thickness, i),
                    ),
                    color,
                ),
    {
        let ghost w0 = onto.written();
        let ghost d = self.distance();
        let lines = self.strokes(thickness);
        proof {
            assert(lines@.len() == Line::stroke_count(thickness));
            assert forall|j: int| 0 <= j < lines@.len() implies self.is_shifted(
                #[trigger] lines@[j],
                self.stroke_shift_x(thickness, j),
                self.stroke_shift_y(thickness, j),
            ) by {
                if thickness is Filled {
                    assert(lines@[j] == *self);
                }
            }
        }
        let mut i: usize = 0;
        while i < lines.len()
            invariant
                i <= lines@.len(),
                d == self.distance(),
                d >= 0,
                lines@.len() == Line::stroke_count(thickness),
                forall|j: int|
                    0 <= j < lines@.len() ==> self.is_shifted(
                        #[trigger] lines@[j],
                        self.stroke_shift_x(thickness, j),
                        self.stroke_shift_y(thickness, j),
                    ),
                self.deltas_fit(),
                onto.written().len() == w0.len() + i * (d + 1),
                onto.written().take(w0.len() as int) == w0,
                forall|j: int, k: int|
                    0 <= j < i && 0 <= k <= d ==> #[trigger] wrote_at(
                        onto.written(),
                        w0.len() + j * (d + 1) + k,
                        (
                            self.strip_pixel(k).0 + self.stroke_shift_x(thickness, j),
                            self.strip_pixel(k).1 + self.stroke_shift_y(thickness, j),
                        ),
                        color,
                    ),
            decreases lines@.len() - i,
        {
            let ghost before = onto.written();
            let ghost ox = self.stroke_shift_x(thickness, i as int);
            let ghost oy = self.stroke_shift_y(thickness, i as int);
            let line = lines[i];
            proof { lemma_shifted_strip(*self, line, ox, oy); }
            line.draw_strip(onto, color);
            proof {
                let after = onto.written();
                assert(before.len() == w0.len() + i * (d + 1));
                assert((i + 1) * (d + 1) == i * (d + 1) + d + 1) by (nonlinear_arith);
                assert(after.take(w0.len() as int) =~= before.take(w0.len() as int)) by {
                    assert forall|m: int| 0 <= m < w0.len() implies after[m] == before[m] by {
                        assert(after.take(before.len() as int)[m] == after[m]);
                    }
                }
                assert forall|j: int, k: int| 0 <= j < i + 1 && 0 <= k <= d implies #[trigger] wrote_at(
                    after,
                    w0.len() + j * (d + 1) + k,
                    (
                        self.strip_pixel(k).0 + self.stroke_shift_x(thickness, j),
                        self.strip_pixel(k).1 + self.stroke_shift_y(thickness, j),
                    ),
                    color,
                ) by {
                    if j < i {
                        lemma_slot_before(j, i as int, k, d);
                        let idx = w0.len() + j * (d + 1) + k;
                        assert(wrote_at(
                            before,
                            idx,
                            (
                                self.strip_pixel(k).0 + self.stroke_shift_x(thickness, j),
                                self.strip_pixel(k).1 + self.stroke_shift_y(thickness, j),
                            ),
                            color,
                        ));
                        assert(after.take(before.len() as int)[idx] == after[idx]);
                    } else {
                        assert(wrote_at(after, before.len() + k, line.strip_pixel(k), color));
                    }
                }
            }
            i = i + 1;
        }
    }

    pub fn new(p1: Point, p2: Point) -> (r: Line)
        ensures
            r.p1 == p1,
            r.p2 == p2,
    {
        Line { p1, p2 }
    }

    pub fn max_x(&self) -> (r: isize)
        ensures
            r == (if self.p1.x >= self.p2.x { self.p1.x } else { self.p2.x }),
    {
        if self.p1.x >= self.p2.x { self.p1.x } else { self.p2.x }
    }

    pub fn min_x(&self) -> (r: isize)
        ensures
            r == (if self.p1.x <= self.p2.x { self.p1.x } else { self.p2.x }),
    {
        if self.p1.x <= self.p2.x { self.p1.x } else { self.p2.x }
    }

    pub fn max_y(&self) -> (r: isize)
        ensures
            r == (if self.p1.y >= self.p2.y { self.p1.y } else { self.p2.y }),
    {
        if self.p1.y >= self.p2.y { self.p1.y } else { self.p2.y }
    }

    pub fn min_y(&self) -> (r: isize)
        ensures
            r == (if self.p1.y <= self.p2.y { self.p1.y } else { self.p2.y }),
    {
        if self.p1.y <= self.p2.y { self.p1.y } else { self.p2.y }
    }

    /// The pixels of the one-pixel-wide rasterisation from `p1` to `p2`:
    /// `distance() + 1` of them, both end points included.
    pub fn strip_pixels(&self) -> (r: Vec<Point>)
        requires
            self.deltas_fit(),
        ensures
            r@.len() == self.distance() + 1,
            r@[0] == self.p1,
            r@[r@.len() - 1] == self.p2,
            forall|k: int| 0 <= k < r@.len() ==> ((#[trigger] r@[k]).x as int, r@[k].y as int) == self.strip_pixel(k),
    {
        let delta_x = self.p2.x - self.p1.x;
        let delta_y = self.p2.y - self.p1.y;
        let inc_x: isize = if delta_x > 0 { 1 } else if delta_x == 0 { 0 } else { -1 };
        let inc_y: isize = if delta_y > 0 { 1 } else if delta_y == 0 { 0 } else { -1 };
        let abs_x: i128 = if delta_x < 0 { -(delta_x as i128) } else { delta_x as i128 };
        let abs_y: i128 = if delta_y < 0 { -(delta_y as i128) } else { delta_y as i128 };
        let distance: i128 = if abs_x >= abs_y { abs_x } else { abs_y };
        let ghost d = distance as int;
        proof { lemma_isize_range(); }
        let mut out: Vec<Point> = Vec::new();
        let mut cursor = self.p1;
        let mut x_err: i128 = 0;
        let mut y_err: i128 = 0;
        let ghost mut qx: int = 0;
        let ghost mut qy: int = 0;
        let mut k: i128 = 0;
        assert(inc_x * 0 == 0 && inc_y * 0 == 0);
        while k <= distance
            invariant
                d == self.distance(),
                d == distance,
                abs_x == abs_int(self.dx()),
                abs_y == abs_int(self.dy()),
                inc_x == sign_int(self.dx()),
                inc_y == sign_int(self.dy()),
                abs_x <= d,
                abs_y <= d,
                d <= 0x1_0000_0000_0000_0000,
                0 <= k <= d + 1,
                out@.len() == k,
                d > 0 ==> 0 <= x_err < d && 0 <= y_err < d,
                d > 0 ==> k <= d ==> x_err == k * abs_x - qx * d && y_err == k * abs_y - qy * d,
                0 <= qx <= abs_x,
                0 <= qy <= abs_y,
                k <= d ==> cursor.x == self.p1.x + inc_x * qx && cursor.y == self.p1.y + inc_y * qy,
                forall|j: int| 0 <= j < k ==> ((#[trigger] out@[j]).x as int, out@[j].y as int) == self.strip_pixel(j),
            decreases d + 1 - k,
        {
            proof {
                if d > 0 {
                    vstd::arithmetic::div_mod::lemma_fundamental_div_mod_converse(k * abs_x, d, qx, x_err as int);
                    vstd::arithmetic::div_mod::lemma_fundamental_div_mod_converse(k * abs_y, d, qy, y_err as int);
                }
            }
            out.push(cursor);
            let ghost (ex0, ey0, qx0, qy0) = (x_err as int, y_err as int, qx, qy);
            if k < distance {
                x_err = x_err + abs_x;
                y_err = y_err + abs_y;
                if x_err >= distance {
                    proof { lemma_step_bounded(k as int, abs_x as int, d, qx, x_err - abs_x); }
                    x_err = x_err - distance;
                    proof { lemma_cursor_step(self.p1.x as int, self.dx(), qx); }
                    cursor.x = cursor.x + inc_x;
                    proof { qx = qx + 1; }
                }
                if y_err >= distance {
                    proof { lemma_step_bounded(k as int, abs_y as int, d, qy, y_err - abs_y); }
                    y_err = y_err - distance;
                    proof { lemma_cursor_step(self.p1.y as int, self.dy(), qy); }
                    cursor.y = cursor.y + inc_y;
                    proof { qy = qy + 1; }
                }
            }
            proof {
                if k < distance {
                    lemma_step_relation(k as int, abs_x as int, d, qx0, ex0, qx, x_err as int);
                    lemma_step_relation(k as int, abs_y as int, d, qy0, ey0, qy, y_err as int);
                }
            }
            k = k + 1;
        }
        proof {
            if d > 0 {
                assert(d * abs_x == abs_x * d) by (nonlinear_arith);
                assert(d * abs_y == abs_y * d) by (nonlinear_arith);
                vstd::arithmetic::div_mod::lemma_fundamental_div_mod_converse(d * abs_x, d, abs_x as int, 0);
                vstd::arithmetic::div_mod::lemma_fundamental_div_mod_converse(d * abs_y, d, abs_y as int, 0);
            }
            let first = out@[0];
            if d > 0 {
                assert(0 * abs_x == 0 && 0 * abs_y == 0);
                assert(0int / d == 0);
            }
            assert(first.x == self.p1.x && first.y == self.p1.y);
            let last = out@[d];
            assert(last == out@[out@.len() - 1]);
            assert(sign_int(self.dx()) * abs_int(self.dx()) == self.dx());
            assert(sign_int(self.dy()) * abs_int(self.dy()) == self.dy());
            assert(last.x == self.p2.x && last.y == self.p2.y);
        }
        out
    }
}

impl core::ops::Add<Point> for Line {
    type Output = Line;

    fn add(self, rhs: Point) -> (r: Line) {
        Line::new(self.p1 + rhs, self.p2 + rhs)
    }
}

impl vstd::std_specs::ops::AddSpecImpl<Point> for Line {
    open spec fn obeys_add_spec() -> bool {
        true
    }

    open spec fn add_req(self, rhs: Point) -> bool {
        &&& fits_isize(self.p1.x + rhs.x)
        &&& fits_isize(self.p1.y + rhs.y)
        &&& fits_isize(self.p2.x + rhs.x)
        &&& fits_isize(self.p2.y + rhs.y)
    }

    open spec fn add_spec(self, rhs: Point) -> Line {
        Line {
            p1: Point { x: (self.p1.x + rhs.x) as isize, y: (self.p1.y + rhs.y) as isize },
            p2: Point { x: (self.p2.x + rhs.x) as isize, y: (self.p2.y + rhs.y) as isize },
        }
    }
}

} // verus!

use vstd::prelude::*;

verus! {

/// Whether an integer is representable as an `isize`.
pub open spec fn fits_isize(v: int) -> bool {
    isize::MIN <= v <= isize::MAX
}

/// A location in screen space; y grows downward.
#[derive(Debug, Clone, Copy, PartialEq, Eq, PartialOrd, Ord, Hash, Structural)]
pub struct Point {
    pub x: isize,
    pub y: isize,
}

impl Point {
    pub open spec fn zero_spec() -> Point {
        Point { x: 0, y: 0 }
    }

    pub fn new(x: isize, y: isize) -> (r: Point)
        ensures
            r.x == x,
            r.y == y,
    {
        Point { x, y }
    }

    pub fn zero() -> (r: Point)
        ensures
            r.x == 0,
            r.y == 0,
    {
        Point { x: 0, y: 0 }
    }
}

impl core::ops::Add for Point {
    type Output = Point;

    fn add(self, rhs: Point) -> (r: Point) {
        Point { x: self.x + rhs.x, y: self.y + rhs.y }
    }
}

impl vstd::std_specs::ops::AddSpecImpl for Point {
    open spec fn obeys_add_spec() -> bool {
        true
    }

    open spec fn add_req(self, rhs: Point) -> bool {
        fits_isize(self.x + rhs.x) && fits_isize(self.y + rhs.y)
    }

    open spec fn add_spec(self, rhs: Point) -> Point {
        Point { x: (self.x + rhs.x) as isize, y: (self.y + rhs.y) as isize }
    }
}

impl core::ops::Sub for Point {
    type Output = Point;

    fn sub(self, rhs: Point) -> (r: Point) {
        Point { x: self.x - rhs.x, y: self.y - rhs.y }
    }
}

impl vstd::std_specs::ops::SubSpecImpl for Point {
    open spec fn obeys_sub_spec() -> bool {
        true
    }

    open spec fn sub_req(self, rhs: Point) -> bool {
        fits_isize(self.x - rhs.x) && fits_isize(self.y - rhs.y)
    }

    open spec fn sub_spec(self, rhs: Point) -> Point {
        Point { x: (self.x - rhs.x) as isize, y: (self.y - rhs.y) as isize }
    }
}

impl core::ops::Mul<Point> for Point {
    type Output = Point;

    fn mul(self, rhs: Point) -> (r: Point) {
        Point { x: self.x * rhs.x, y: self.y * rhs.y }
    }
}

impl vstd::std_specs::ops::MulSpecImpl<Point> for Point {
    open spec fn obeys_mul_spec() -> bool {
        true
    }

    open spec fn mul_req(self, rhs: Point) -> bool {
        fits_isize(self.x * rhs.x) && fits_isize(self.y * rhs.y)
    }

    open spec fn mul_spec(self, rhs: Point) -> Point {
        Point { x: (self.x * rhs.x) as isize, y: (self.y * rhs.y) as isize }
    }
}

impl core::ops::Mul<isize> for Point {
    type Output = Point;

    fn mul(self, rhs: isize) -> (r: Point) {
        Point { x: self.x * rhs, y: self.y * rhs }
    }
}

impl vstd::std_specs::ops::MulSpecImpl<isize> for Point {
    open spec fn obeys_mul_spec() -> bool {
        true
    }

    open spec fn mul_req(self, rhs: isize) -> bool {
        fits_isize(self.x * rhs) && fits_isize(self.y * rhs)
    }

    open spec fn mul_spec(self, rhs: isize) -> Point {
        Point { x: (self.x * rhs) as isize, y: (self.y * rhs) as isize }
    }
}

/// An unsigned point for interfaces that need fixed-width coordinates.
#[derive(Debug, Clone, Copy)]
pub struct PointU32 {
    pub x: u32,
    pub y: u32,
}

impl PointU32 {
    pub fn new(x: u32, y: u32) -> (r: PointU32)
        ensures
            r.x == x,
            r.y == y,
    {
        PointU32 { x, y }
    }

    /// Converts by truncating each coordinate to its low 32 bits.
    pub fn from(point: Point) -> (r: PointU32)
        ensures
            r.x == point.x as u32,
            r.y == point.y as u32,
    {
        PointU32 { x: point.x as u32, y: point.y as u32 }
    }
}

/// Converts each coordinate by value; on a 64-bit target every `u32` is kept.
impl From<PointU32> for Point {
    fn from(value: PointU32) -> (r: Point) {
        Point { x: value.x as isize, y: value.y as isize }
    }
}

impl vstd::std_specs::convert::FromSpecImpl<PointU32> for Point {
    open spec fn obeys_from_spec() -> bool {
        true
    }

    open spec fn from_spec(value: PointU32) -> Point {
        Point { x: value.x as isize, y: value.y as isize }
    }
}

/// A width and a height. Well-formed sizes are non-negative, but negative
/// components are allowed as intermediate values.
#[derive(Debug, Clone, Copy, PartialEq, Eq, PartialOrd, Ord, Hash, Structural)]
pub struct Size {
    pub width: isize,
    pub height: isize,
}

impl Size {
    pub open spec fn zero_spec() -> Size {
        Size { width: 0, height: 0 }
    }

    pub fn new(width: isize, height: isize) -> (r: Size)
        ensures
            r.width == width,
            r.height == height,
    {
        Size { width, height }
    }

    pub fn zero() -> (r: Size)
        ensures
            r.width == 0,
            r.height == 0,
    {
        Size { width: 0, height: 0 }
    }

    pub open spec fn spec_area(self) -> int {
        self.width * self.height
    }

    pub fn area(&self) -> (r: isize)
        requires
            fits_isize(self.spec_area()),
        ensures
            r == self.spec_area(),
    {
        self.width * self.height
    }

    /// Half the width, rounded toward zero.
    pub fn mid_x(&self) -> (r: isize)
        ensures
            r == half_toward_zero(self.width as int),
    {
        self.width / 2
    }

    /// Half the height, rounded toward zero.
    pub fn mid_y(&self) -> (r: isize)
        ensures
            r == half_toward_zero(self.height as int),
    {
        self.height / 2
    }

    /// Converts each component by value; on a 64-bit target every `u32` is kept.
    pub fn from(size: &SizeU32) -> (r: Size)
        ensures
            r.width == size.width as isize,
            r.height == size.height as isize,
    {
        Size { width: size.width as isize, height: size.height as isize }
    }
}

/// Half of `v`, rounded toward zero as integer division does.
pub open spec fn half_toward_zero(v: int) -> int {
    if v >= 0 {
        v / 2
    } else {
        -((-v) / 2)
    }
}

impl core::ops::Add for Size {
    type Output = Size;

    fn add(self, rhs: Size) -> (r: Size) {
        Size { width: self.width + rhs.width, height: self.height + rhs.height }
    }
}

impl vstd::std_specs::ops::AddSpecImpl for Size {
    open spec fn obeys_add_spec() -> bool {
        true
    }

    open spec fn add_req(self, rhs: Size) -> bool {
        fits_isize(self.width + rhs.width) && fits_isize(self.height + rhs.height)
    }

    open spec fn add_spec(self, rhs: Size) -> Size {
        Size {
            width: (self.width + rhs.width) as isize,
            height: (self.height + rhs.height) as isize,
        }
    }
}

impl core::ops::Sub for Size {
    type Output = Size;

    fn sub(self, rhs: Size) -> (r: Size) {
        Size { width: self.width - rhs.width, height: self.height - rhs.height }
    }
}

impl vstd::std_specs::ops::SubSpecImpl for Size {
    open spec fn obeys_sub_spec() -> bool {
        true
    }

    open spec fn sub_req(self, rhs: Size) -> bool {
        fits_isize(self.width - rhs.width) && fits_isize(self.height - rhs.height)
    }

    open spec fn sub_spec(self, rhs: Size) -> Size {
        Size {
            width: (self.width - rhs.width) as isize,
            height: (self.height - rhs.height) as isize,
        }
    }
}

/// An unsigned size for interfaces that need fixed-width components.
#[derive(Debug, Clone, Copy)]
pub struct SizeU32 {
    pub width: u32,
    pub height: u32,
}

impl SizeU32 {
    pub fn new(width: u32, height: u32) -> (r: SizeU32)
        ensures
            r.width == width,
            r.height == height,
    {
        SizeU32 { width, height }
    }

    /// Converts by truncating each component to its low 32 bits.
    pub fn from(size: Size) -> (r: SizeU32)
        ensures
            r.width == size.width as u32,
            r.height == size.height as u32,
    {
        SizeU32 { width: size.width as u32, height: size.height as u32 }
    }
}

/// Distances to move each edge of a rectangle inward.
#[derive(Debug, Clone, Copy)]
pub struct RectInsets {
    pub left: isize,
    pub top: isize,
    pub right: isize,
    pub bottom: isize,
}

impl RectInsets {
    pub fn new(left: isize, top: isize, right: isize, bottom: isize) -> (r: RectInsets)
        ensures
            r.left == left,
            r.top == top,
            r.right == right,
            r.bottom == bottom,
    {
        RectInsets { left, top, right, bottom }
    }

    pub fn zero() -> (r: RectInsets)
        ensures
            r.left == 0,
            r.top == 0,
            r.right == 0,
            r.bottom == 0,
    {
        RectInsets { left: 0, top: 0, right: 0, bottom: 0 }
    }

    pub fn uniform(inset: isize) -> (r: RectInsets)
        ensures
            r.left == inset,
            r.top == inset,
            r.right == inset,
            r.bottom == inset,
    {
        RectInsets { left: inset, top: inset, right: inset, bottom: inset }
    }
}

impl core::ops::Add for RectInsets {
    type Output = RectInsets;

    fn add(self, rhs: RectInsets) -> (r: RectInsets) {
        RectInsets::new(
            self.left + rhs.left,
            self.top + rhs.top,
            self.right + rhs.right,
            self.bottom + rhs.bottom,
        )
    }
}

impl vstd::std_specs::ops::AddSpecImpl for RectInsets {
    open spec fn obeys_add_spec() -> bool {
        true
    }

    open spec fn add_req(self, rhs: RectInsets) -> bool {
        &&& fits_isize(self.left + rhs.left)
        &&& fits_isize(self.top + rhs.top)
        &&& fits_isize(self.right + rhs.right)
        &&& fits_isize(self.bottom + rhs.bottom)
    }

    open spec fn add_spec(self, rhs: RectInsets) -> RectInsets {
        RectInsets {
            left: (self.left + rhs.left) as isize,
            top: (self.top + rhs.top) as isize,
            right: (self.right + rhs.right) as isize,
            bottom: (self.bottom + rhs.bottom) as isize,
        }
    }
}

} // verus!

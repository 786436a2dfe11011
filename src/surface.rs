use vstd::prelude::*;

use crate::color::Color;
use crate::primitives::{fits_isize, Point, Size};
use crate::rect::{constrained, IntRect, Rect};

verus! {

/// A target that pixels can be written to, such as a framebuffer. What a
/// write outside its bounds does is up to the target.
pub trait PixelSink {
    /// Every pixel write the target has received, oldest first. A verified
    /// implementation defines it as its own record: the default, which
    /// records nothing, cannot meet `putpixel`'s contract, and only lets
    /// implementations outside verification leave it out.
    open spec fn written(&self) -> Seq<(Point, Color)> {
        Seq::empty()
    }

    fn putpixel(&mut self, p: Point, color: Color)
        ensures
            final(self).written() == old(self).written().push((p, color)),
    ;
}

/// A sink that keeps every write, in order, for later compositing.
pub struct PixelLog {
    pub pixels: Vec<(Point, Color)>,
}

impl PixelLog {
    pub fn new() -> (r: PixelLog)
        ensures
            r.written() == Seq::<(Point, Color)>::empty(),
    {
        PixelLog { pixels: Vec::new() }
    }
}

impl PixelSink for PixelLog {
    open spec fn written(&self) -> Seq<(Point, Color)> {
        self.pixels@
    }

    fn putpixel(&mut self, p: Point, color: Color) {
        self.pixels.push((p, color));
    }
}

/// Something with a frame that can draw itself.
pub trait Drawable {
    fn frame(&self) -> Rect;

    fn content_frame(&self) -> Rect;

    /// Returns the rectangles damaged while drawing.
    fn draw(&self) -> Vec<Rect>;
}

/// The frame of a child's slice within its parent: the child's frame,
/// clipped to the parent's content frame, moved into the parent's
/// coordinates, with any part above or left of the zero point cut away.
pub open spec fn content_slice(content: IntRect, frame: IntRect) -> IntRect {
    let c = constrained(content, frame);
    let x = content.x + frame.x;
    let y = content.y + frame.y;
    IntRect {
        x: if x < 0 { 0 } else { x },
        y: if y < 0 { 0 } else { y },
        w: if x < 0 { c.w + x } else { c.w },
        h: if y < 0 { c.h + y } else { c.h },
    }
}

/// Where a child with frame `frame` lands in the slice of a parent whose
/// content frame is `content_frame`.
pub fn content_slice_frame(content_frame: Rect, frame: Rect) -> (r: Rect)
    requires
        content_frame@.bounded(),
        frame@.bounded(),
        fits_isize(frame@.max_x() - content_frame@.w),
        fits_isize(frame@.max_y() - content_frame@.h),
        fits_isize(content_frame@.w - frame@.x),
        fits_isize(content_frame@.h - frame@.y),
        fits_isize(content_frame@.x + frame@.x),
        fits_isize(content_frame@.y + frame@.y),
        fits_isize(-(content_frame@.x + frame@.x)),
        fits_isize(-(content_frame@.y + frame@.y)),
        fits_isize(constrained(content_frame@, frame@).w + content_frame@.x + frame@.x),
        fits_isize(constrained(content_frame@, frame@).h + content_frame@.y + frame@.y),
    ensures
        r@ == content_slice(content_frame@, frame@),
{
    let constrained_to_content_frame = content_frame.constrain(frame);
    let mut origin = content_frame.origin + frame.origin;
    let mut size: Size = constrained_to_content_frame.size;
    if origin.x < 0 {
        let overhang = -origin.x;
        size.width = size.width - overhang;
        origin.x = 0;
    }
    if origin.y < 0 {
        let overhang = -origin.y;
        size.height = size.height - overhang;
        origin.y = 0;
    }
    Rect::from_parts(origin, size)
}

} // verus!

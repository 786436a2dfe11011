use vstd::prelude::*;

use crate::primitives::Point;
use crate::rect::{IntRect, Rect};

verus! {

/// A fixed region of a tiled backing store.
#[derive(Debug, PartialEq, Eq, Structural)]
pub struct Tile {
    pub frame: Rect,
}

/// The part of one tile that a viewport shows: the overlap in viewport-local
/// coordinates, the same overlap in tile-local coordinates, and the tile.
#[derive(Debug, PartialEq)]
pub struct TileSegment<'a> {
    pub viewport_frame: Rect,
    pub tile_frame: Rect,
    pub tile: &'a Tile,
}

/// The segments of a viewport, in the order of the tiles they come from.
#[derive(Debug, PartialEq)]
pub struct TileSegments<'a>(pub Vec<TileSegment<'a>>);

/// The model of a segment: viewport-local rectangle, tile-local rectangle and
/// the frame of the tile it comes from.
pub open spec fn segment_view(s: TileSegment) -> (IntRect, IntRect, IntRect) {
    (s.viewport_frame@, s.tile_frame@, s.tile.frame@)
}

pub open spec fn segment_views(s: Seq<TileSegment>) -> Seq<(IntRect, IntRect, IntRect)> {
    s.map_values(|t: TileSegment| segment_view(t))
}

/// The frames of a sequence of tiles.
pub open spec fn tile_frames(tiles: Seq<Tile>) -> Seq<IntRect> {
    tiles.map_values(|t: Tile| t.frame@)
}

/// `r` moved so that `origin` becomes the zero point.
pub open spec fn relative_to(r: IntRect, origin: IntRect) -> IntRect {
    IntRect { x: r.x - origin.x, y: r.y - origin.y, w: r.w, h: r.h }
}

/// For each frame, in order, that shares area with `viewport`: the overlap
/// relative to the viewport, the overlap relative to the frame, and the frame.
/// Frames that share no area contribute nothing.
pub open spec fn visible_segments(frames: Seq<IntRect>, viewport: IntRect) -> Seq<(IntRect, IntRect, IntRect)>
    decreases frames.len(),
{
    if frames.len() == 0 {
        seq![]
    } else {
        let earlier = visible_segments(frames.drop_last(), viewport);
        let frame = frames.last();
        match viewport.overlap(frame) {
            Some(o) => earlier.push((relative_to(o, viewport), relative_to(o, frame), frame)),
            None => earlier,
        }
    }
}

impl<'a> TileSegment<'a> {
    pub fn new(viewport_frame: Rect, tile_frame: Rect, tile: &'a Tile) -> (r: TileSegment<'a>)
        ensures
            r.viewport_frame == viewport_frame,
            r.tile_frame == tile_frame,
            r.tile == tile,
    {
        TileSegment { viewport_frame, tile_frame, tile }
    }
}

impl Tile {
    pub fn new(frame: Rect) -> (r: Tile)
        ensures
            r.frame == frame,
    {
        Tile { frame }
    }

    /// The segments of the tiles that `viewport_rect` overlaps, in tile order.
    pub fn tiles_visible_in_viewport<'a>(tiles: &'a Vec<Tile>, viewport_rect: Rect) -> (r: TileSegments<'a>)
        requires
            viewport_rect@.bounded(),
            forall|i: int| 0 <= i < tiles@.len() ==> (#[trigger] tiles@[i]).frame@.bounded(),
        ensures
            segment_views(r.0@) == visible_segments(tile_frames(tiles@), viewport_rect@),
            forall|i: int|
                0 <= i < r.0@.len() ==> (#[trigger] r.0@[i]).viewport_frame.size == r.0@[i].tile_frame.size,
    {
        let mut out: Vec<TileSegment<'a>> = Vec::new();
        let mut i: usize = 0;
        while i < tiles.len()
            invariant
                i <= tiles@.len(),
                viewport_rect@.bounded(),
                forall|j: int| 0 <= j < tiles@.len() ==> (#[trigger] tiles@[j]).frame@.bounded(),
                segment_views(out@) == visible_segments(tile_frames(tiles@.take(i as int)), viewport_rect@),
                forall|j: int|
                    0 <= j < out@.len() ==> (#[trigger] out@[j]).viewport_frame.size == out@[j].tile_frame.size,
            decreases tiles@.len() - i,
        {
            let tile = &tiles[i];
            proof {
                let prefix = tile_frames(tiles@.take(i as int + 1));
                assert(prefix.drop_last() =~= tile_frames(tiles@.take(i as int)));
                assert(prefix.last() == tile.frame@);
            }
            if let Some(intersection) = viewport_rect.area_overlapping_with(tile.frame) {
                let tile_viewport_origin = intersection.origin - viewport_rect.origin;
                let segment = TileSegment::new(
                    Rect::from_parts(tile_viewport_origin, intersection.size),
                    Rect::from_parts(intersection.origin - tile.frame.origin, intersection.size),
                    tile,
                );
                let ghost before = out@;
                out.push(segment);
                assert(segment_views(out@) =~= segment_views(before).push(segment_view(segment)));
            }
            i = i + 1;
        }
        assert(tiles@.take(tiles@.len() as int) =~= tiles@);
        TileSegments(out)
    }
}

} // verus!

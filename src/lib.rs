//! Integer geometry for a tiled compositor: points, sizes and rectangles,
//! rectangle algebra for damage tracking, tile decomposition of a viewport,
//! and segment intersection and rasterisation for lines.

pub mod color;
pub mod line;
pub mod primitives;
pub mod rect;
pub mod surface;
pub mod tile;

pub mod laws;

pub use color::Color;

pub use line::{Line, LineCrossing, StrokeThickness};
pub use primitives::{fits_isize, half_toward_zero, Point, PointU32, RectInsets, Size, SizeU32};
pub use rect::{IntRect, Rect, RectU32};
pub use surface::{content_slice_frame, Drawable, PixelLog, PixelSink};
pub use tile::{Tile, TileSegment, TileSegments};



use agx_definitions::{content_slice_frame, Rect, Tile, TileSegment, TileSegments};

#[test]
fn test_tiles_visible_in_layer() {
    let tiles = vec![Tile::new(Rect::new(0, 0, 300, 300)), Tile::new(Rect::new(0, 300, 300, 300))];
    assert_eq!(
        Tile::tiles_visible_in_viewport(&tiles, Rect::new(0, 0, 300, 300)),
        TileSegments(vec![TileSegment::new(
            Rect::new(0, 0, 300, 300),
            Rect::new(0, 0, 300, 300),
            &tiles[0],
        )])
    );
    assert_eq!(
        Tile::tiles_visible_in_viewport(&tiles, Rect::new(0, 10, 300, 300)),
        TileSegments(vec![
            TileSegment::new(Rect::new(0, 0, 300, 290), Rect::new(0, 10, 300, 290), &tiles[0]),
            TileSegment::new(Rect::new(0, 290, 300, 10), Rect::new(0, 0, 300, 10), &tiles[1]),
        ])
    );
}

#[test]
fn segments_keep_tile_order_and_matching_sizes() {
    let tiles = vec![
        Tile::new(Rect::new(0, 0, 100, 100)),
        Tile::new(Rect::new(500, 500, 100, 100)),
        Tile::new(Rect::new(100, 0, 100, 100)),
    ];
    let segments = Tile::tiles_visible_in_viewport(&tiles, Rect::new(50, 50, 100, 100)).0;
    assert_eq!(segments.len(), 2);
    assert_eq!(segments[0].viewport_frame, Rect::new(0, 0, 50, 50));
    assert_eq!(segments[0].tile_frame, Rect::new(50, 50, 50, 50));
    assert!(std::ptr::eq(segments[0].tile, &tiles[0]));
    assert_eq!(segments[1].viewport_frame, Rect::new(50, 0, 50, 50));
    assert_eq!(segments[1].tile_frame, Rect::new(0, 50, 50, 50));
    assert!(std::ptr::eq(segments[1].tile, &tiles[2]));
    for s in &segments {
        assert_eq!(s.viewport_frame.size, s.tile_frame.size);
    }
}

#[test]
fn no_tiles_no_segments() {
    let tiles: Vec<Tile> = Vec::new();
    assert!(Tile::tiles_visible_in_viewport(&tiles, Rect::new(0, 0, 10, 10)).0.is_empty());
}

#[test]
fn content_slice_clips_to_parent() {
    let content = Rect::new(10, 10, 100, 100);
    assert_eq!(content_slice_frame(content, Rect::new(5, 5, 20, 20)), Rect::new(15, 15, 20, 20));
    assert_eq!(content_slice_frame(content, Rect::new(90, 0, 20, 20)), Rect::new(100, 10, 10, 20));
    assert_eq!(content_slice_frame(content, Rect::new(-15, 0, 20, 20)), Rect::new(0, 10, 15, 20));
}

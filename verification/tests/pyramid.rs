use slipmap::geometry::GeoPoint;
use slipmap::tile::TileId;
use slipmap::tile_source::{fallback_chain, TileRect, TileRectBuilder};

#[test]
fn tile_id_basics() {
    let t = TileId { zoom: 3, column: 5, row: 2 };
    assert_eq!(t.limit(), 8);
    assert!(t.is_valid());
    assert!(!TileId { zoom: 3, column: 8, row: 0 }.is_valid());
    let p = t.parent().unwrap();
    assert_eq!(p, TileId { zoom: 2, column: 2, row: 1 });
    assert!(TileId { zoom: 0, column: 0, row: 0 }.parent().is_none());
}

#[test]
fn normalize_wraps_column() {
    let t = TileId::normalize(3, -1, 2);
    assert_eq!(t.column, 7);
    assert_eq!(t.row, 2);
    let t2 = TileId::normalize(3, 9, 0);
    assert_eq!(t2.column, 1);
}

// Requesting tile (z=5, col=3, row=3) when only (z=3, col=0, row=0) has data
// yields a transform with scale 4 and the offset that selects the right
// quadrant of the ancestor.
#[test]
fn pyramid_fallback_offset() {
    let id = TileId { zoom: 5, column: 3, row: 3 };
    let chain = fallback_chain(id);
    assert_eq!(chain.len(), 6);
    assert_eq!(chain[0].0, id);
    assert_eq!(chain[0].1, TileRect { col_num: 0, row_num: 0, level: 0 });
    // Two levels up sits (3, 0, 0).
    let (ancestor, rect) = chain[2];
    assert_eq!(ancestor, TileId { zoom: 3, column: 0, row: 0 });
    assert_eq!(rect.level, 2);
    assert_eq!(rect.scale(), 4);
    // offset = (3/4, 0/4): the requested tile is the right-most column,
    // bottom row quadrant of the ancestor at that depth.
    assert_eq!(rect.col_num, 3);
    assert_eq!(rect.row_num, 0);

    // Re-projecting the ancestor's corner points into the requested tile's
    // space: x scales by 4 and shifts left by 3 tile widths.
    let p = rect.offset(GeoPoint { x: 4096, y: 1024 });
    assert_eq!(p.x, 4096 * 4 - 3 * 4096);
    assert_eq!(p.y, 1024 * 4);
}

// The four quadrants of one parent step map to the four corner offsets.
#[test]
fn quadrant_offsets_one_level() {
    for (col, row, want_col, want_row) in [
        (0u32, 0u32, 0u32, 1u32),
        (1, 0, 1, 1),
        (0, 1, 0, 0),
        (1, 1, 1, 0),
    ] {
        let id = TileId { zoom: 1, column: col, row };
        let chain = fallback_chain(id);
        let (ancestor, rect) = chain[1];
        assert_eq!(ancestor, TileId { zoom: 0, column: 0, row: 0 });
        assert_eq!(rect.level, 1);
        assert_eq!(rect.scale(), 2);
        assert_eq!(rect.col_num, want_col, "column quadrant of ({col},{row})");
        assert_eq!(rect.row_num, want_row, "row quadrant of ({col},{row})");
    }
}

#[test]
fn builder_steps_compose() {
    let mut b = TileRectBuilder::new();
    let mut cur = TileId { zoom: 5, column: 3, row: 3 };
    cur = b.parent(cur).unwrap();
    cur = b.parent(cur).unwrap();
    assert_eq!(cur, TileId { zoom: 3, column: 0, row: 0 });
    let rect = b.rect();
    assert_eq!(rect, TileRect { col_num: 3, row_num: 0, level: 2 });
    // At zoom 0 the walk stops.
    let mut b2 = TileRectBuilder::new();
    assert!(b2.parent(TileId { zoom: 0, column: 0, row: 0 }).is_none());
}

#[test]
fn identity_rect_is_neutral() {
    let r = TileRect::identity();
    assert_eq!(r.scale(), 1);
    let p = r.offset(GeoPoint { x: 123, y: -7 });
    assert_eq!(p, GeoPoint { x: 123, y: -7 });
}

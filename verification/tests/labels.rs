use slipmap::geometry::GeoPoint;
use slipmap::text::{
    build_labels, center_lines, font_for, layout_lines, select_labels, FontId, FontMetrics,
    GlyphAtlas, GlyphId, GlyphKey, GlyphMetrics, RectI,
};

fn simple_metrics() -> FontMetrics {
    // Every printable character is 1000 (one pixel) wide and one tall.
    let m = GlyphMetrics { advance: 1000, xmin: 0, ymin: 0, width: 1000, height: 1000 };
    let mut glyphs = Vec::new();
    for c in [b'a', b'b', b'c', b'x', b' '] {
        glyphs.push((c as u32, m));
    }
    FontMetrics { font: FontId(1), line_advance: 1200, glyphs, kerns: Vec::new() }
}

// Text "aa bb cc" with a width limit that forces a wrap after "aa bb":
// two lines, the shorter one re-centered so both share a midpoint.
#[test]
fn label_line_wrap_and_centering() {
    let fm = simple_metrics();
    // After "aa bb" the offset is 5000; the limit 4500 makes the following
    // space wrap.
    let laid = layout_lines(b"aa bb cc", &fm, 4_500);
    assert_eq!(laid.lines.len(), 2);
    assert_eq!(laid.lines[0].width, 5_000);
    assert_eq!(laid.lines[0].glyphs.len(), 4); // spaces place no glyph
    assert_eq!(laid.lines[1].width, 2_000);
    assert_eq!(laid.lines[1].glyphs.len(), 2);
    assert_eq!(laid.widest, 5_000);
    // The second line drops one row.
    assert_eq!(laid.lines[1].glyphs[0].bounds.min_y, -1_200);

    let centered = center_lines(laid.lines, laid.widest);
    // Line one is the widest: unshifted, spanning [0, 5000], midpoint 2500.
    assert_eq!(centered[0].glyphs[0].bounds.min_x, 0);
    // Line two shifts by (5000 - 2000) / 2 = 1500: spans [1500, 3500],
    // midpoint 2500 as well.
    let first = centered[1].glyphs[0].bounds;
    let last = centered[1].glyphs[1].bounds;
    assert_eq!(first.min_x, 1_500);
    assert_eq!(last.max_x, 3_500);
    assert_eq!(first.min_x + last.max_x, 2 * 2_500);
}

#[test]
fn layout_skips_missing_glyphs_and_controls() {
    let fm = simple_metrics();
    // 'z' has no glyph; a control byte is skipped too.
    let laid = layout_lines(b"az\x07a", &fm, 100_000);
    assert_eq!(laid.lines.len(), 1);
    assert_eq!(laid.lines[0].glyphs.len(), 2);
    assert_eq!(laid.lines[0].width, 2_000);
}

#[test]
fn layout_kerning_offsets_bounds() {
    let mut fm = simple_metrics();
    fm.kerns.push((b'a' as u32, b'b' as u32, -250));
    let laid = layout_lines(b"ab", &fm, 100_000);
    let g = laid.lines[0].glyphs[1].bounds;
    // The second glyph sits at advance 1000 plus the kern of -250.
    assert_eq!(g.min_x, 750);
    // Kerning does not change the pen advance.
    assert_eq!(laid.lines[0].width, 2_000);
}

#[test]
fn layout_no_wrap_for_trailing_word() {
    let fm = simple_metrics();
    // The wrap condition needs more than two characters after the break
    // point; "aa bX" has too little text after the space to wrap.
    let laid = layout_lines(b"aaa b", &fm, 2_000);
    assert_eq!(laid.lines.len(), 1);
}

#[test]
fn labels_per_valid_anchor() {
    let fm = simple_metrics();
    let laid = layout_lines(b"ab", &fm, 100_000);
    let points = vec![
        GeoPoint { x: 100, y: 100 },
        GeoPoint { x: -5, y: 100 },
        GeoPoint { x: 4096, y: 4096 },
        GeoPoint { x: 0, y: 4097 },
    ];
    let labels = build_labels(&points, &laid.lines, laid.bounds, 16_000);
    assert_eq!(labels.len(), 2);
    assert_eq!(labels[0].offset, GeoPoint { x: 100, y: 100 });
    assert_eq!(labels[1].offset, GeoPoint { x: 4096, y: 4096 });
    assert_eq!(labels[0].lines.len(), 1);
    assert_eq!(labels[0].text_size, 16_000);
}

// A glyph not yet in the atlas makes prepare() return false exactly once for
// enqueueing; once the upload pass runs it returns true ever after.
#[test]
fn glyph_pending_protocol() {
    let mut atlas = GlyphAtlas::new();
    let g = GlyphId(FontId(1), 'a');
    assert!(!atlas.prepare(16_000, g)); // enqueued
    assert!(!atlas.prepare(16_000, g)); // still pending, not re-enqueued
    assert_eq!(atlas.pending.len(), 1);
    let uploaded = atlas.upload();
    assert_eq!(uploaded, 1);
    assert!(atlas.prepare(16_000, g));
    assert!(atlas.prepare(16_000, g));
    assert_eq!(atlas.pending.len(), 0);
    // A different size is a different atlas key.
    assert!(!atlas.prepare(17_000, g));
    // Capacity exhaustion restarts everything.
    atlas.reset();
    assert!(!atlas.prepare(16_000, g));
}

#[test]
fn glyph_keys_round_sizes_down() {
    let g = GlyphId(FontId(2), 'q');
    assert_eq!(g.with_size(16_999), GlyphKey(g, 16));
    assert_eq!(g._sdf(), GlyphKey(g, 0));
}

#[test]
fn font_selection() {
    assert_eq!(font_for(&vec![b"Noto Sans Bold".to_vec()]), FontId(2));
    assert_eq!(font_for(&vec![b"Unknown Face".to_vec(), b"Noto Sans Italic".to_vec()]), FontId(3));
    assert_eq!(font_for(&vec![b"Noto Sans Regular".to_vec()]), FontId(1));
    assert_eq!(font_for(&vec![b"Nothing".to_vec()]), FontId(1));
    assert_eq!(font_for(&Vec::new()), FontId(1));
}

// Overlap suppression: first accepted wins; a label overlapping any earlier
// accepted label is skipped, but one that only overlaps a skipped label is
// kept.
#[test]
fn label_overlap_suppression() {
    let boxes = vec![
        RectI { min_x: 0, min_y: 0, max_x: 10, max_y: 10 },
        RectI { min_x: 5, min_y: 5, max_x: 15, max_y: 15 }, // overlaps the first
        RectI { min_x: 12, min_y: 12, max_x: 20, max_y: 20 }, // overlaps only the skipped one
        RectI { min_x: 0, min_y: 0, max_x: 10, max_y: 10 }, // overlaps the first again
    ];
    let kept = select_labels(&boxes);
    assert_eq!(kept, vec![0, 2]);
    // Touching edges do not count as overlap.
    let boxes = vec![
        RectI { min_x: 0, min_y: 0, max_x: 10, max_y: 10 },
        RectI { min_x: 10, min_y: 0, max_x: 20, max_y: 10 },
    ];
    assert_eq!(select_labels(&boxes), vec![0, 1]);
}

use slipmap::style::color::{Color, Rgba};
use slipmap::style::{LayerType, Paint, Parameter, StyleValue};
use slipmap::tess::{feature_ops, paint_eq, DrawCommands, FeaturePaint, FeatureStyle, TILE_SCALE};
use slipmap::tile::GeomType;

fn const_paint(width: i64) -> Paint {
    Paint {
        background_color: Parameter::Constant(None),
        line_color: Parameter::Constant(Some(StyleValue::Shade(Color::Rgba(Rgba {
            r: 1000,
            g: 0,
            b: 0,
            a: 1000,
        })))),
        line_opacity: Parameter::Constant(None),
        line_width: Parameter::Constant(Some(StyleValue::Num(width))),
        line_dasharray: None,
        fill_antialias: Parameter::Constant(None),
        fill_color: Parameter::Constant(None),
        fill_opacity: Parameter::Constant(None),
        fill_outline_color: Parameter::Constant(None),
        fill_translate: Parameter::Constant(None),
        text_color: Parameter::Constant(None),
        text_opacity: Parameter::Constant(None),
        text_halo_blur: Parameter::Constant(None),
        text_halo_color: Parameter::Constant(None),
        text_halo_width: Parameter::Constant(None),
    }
}

fn fp(width: i64) -> FeaturePaint {
    FeaturePaint { paint: const_paint(width), kind: LayerType::Line }
}

fn run_batch(events: &[(Option<i64>, usize)]) -> DrawCommands {
    let mut cmds = DrawCommands::new();
    for (width, indices) in events {
        match width {
            Some(w) => cmds.add_draw_cmds(Some(&fp(*w)), *indices),
            None => cmds.add_draw_cmds(None, *indices),
        }
    }
    cmds
}

// Contiguous features with identical resolved paint merge into one draw
// range; a paint change closes the previous range.
#[test]
fn equal_paint_merges_ranges() {
    let cmds = run_batch(&[(Some(1), 0), (Some(1), 30), (Some(2), 60), (None, 90)]);
    assert_eq!(cmds.feature_draw.len(), 2);
    assert_eq!(cmds.feature_draw[0].elements, 0..60);
    assert_eq!(cmds.feature_draw[1].elements, 60..90);
    assert!(paint_eq(&cmds.feature_draw[0].paint, &fp(1)));
    assert!(paint_eq(&cmds.feature_draw[1].paint, &fp(2)));
}

// An empty index range produces no draw command.
#[test]
fn empty_range_is_dropped() {
    let cmds = run_batch(&[(Some(1), 0), (None, 0)]);
    assert_eq!(cmds.feature_draw.len(), 0);
}

// Feeding the same event sequence twice produces index-identical draw
// ranges: the batcher is deterministic in its inputs.
#[test]
fn batching_idempotent_across_runs() {
    let events = [
        (Some(1), 0),
        (Some(1), 12),
        (Some(3), 24),
        (Some(3), 48),
        (Some(1), 96),
        (None, 120),
    ];
    let a = run_batch(&events);
    let b = run_batch(&events);
    assert_eq!(a.feature_draw.len(), b.feature_draw.len());
    for (x, y) in a.feature_draw.iter().zip(b.feature_draw.iter()) {
        assert_eq!(x.elements, y.elements);
        assert!(paint_eq(&x.paint, &y.paint));
    }
}

#[test]
fn paint_eq_distinguishes() {
    assert!(paint_eq(&fp(5), &fp(5)));
    assert!(!paint_eq(&fp(5), &fp(6)));
    let mut other = fp(5);
    other.kind = LayerType::Fill;
    assert!(!paint_eq(&fp(5), &other));
    let mut dashed = fp(5);
    dashed.paint.line_dasharray = Some(vec![100, 200]);
    assert!(!paint_eq(&fp(5), &dashed));
}

#[test]
fn feature_ops_dispatch() {
    let ops = feature_ops(LayerType::Fill, GeomType::Polygon, false);
    assert!(ops.fill && !ops.stroke && !ops.labels);
    let ops = feature_ops(LayerType::Fill, GeomType::Polygon, true);
    assert!(ops.fill && ops.stroke);
    let ops = feature_ops(LayerType::Line, GeomType::Linestring, false);
    assert!(!ops.fill && ops.stroke);
    let ops = feature_ops(LayerType::Symbol, GeomType::Point, false);
    assert!(ops.labels && !ops.fill && !ops.stroke);
    let ops = feature_ops(LayerType::Line, GeomType::Point, false);
    assert!(!ops.labels && !ops.fill && !ops.stroke);
}

#[test]
fn feature_style_getters_scale() {
    let style = FeatureStyle {
        background_color: Color::Rgba(Rgba { r: 0, g: 0, b: 0, a: 1000 }),
        line_color: Color::Rgba(Rgba { r: 1, g: 2, b: 3, a: 1000 }),
        fill_color: Color::Rgba(Rgba { r: 9, g: 9, b: 9, a: 1000 }),
        fill_outline_color: Some(Color::Rgba(Rgba { r: 7, g: 7, b: 7, a: 1000 })),
        line_width: 1500,
        kind: LayerType::Fill,
        fill_translate: (100, -200),
        text_color: Color::Rgba(Rgba { r: 0, g: 0, b: 0, a: 1000 }),
        text_halo_width: 250,
        text_halo_color: Color::Rgba(Rgba { r: 0, g: 0, b: 0, a: 1000 }),
        line_dasharray: vec![10, 20],
    };
    assert_eq!(style.line_width(), 1500 * TILE_SCALE);
    assert_eq!(style.fill_translate(), (200, -400));
    assert_eq!(style.line_translate(), (200, -400));
    assert_eq!(style.text_halo_width(), 500);
    // A fill layer strokes with its outline color.
    assert_eq!(style.line_color(), Color::Rgba(Rgba { r: 7, g: 7, b: 7, a: 1000 }));
    assert_eq!(style.fill_color(), Color::Rgba(Rgba { r: 9, g: 9, b: 9, a: 1000 }));
    assert_eq!(style.line_dasharray(), vec![10, 20]);
}

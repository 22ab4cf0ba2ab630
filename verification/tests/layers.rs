use slipmap::style::color::{Color, Rgba};
use slipmap::style::filter_expression::{Comparison, FilterExpression, FilterValue};
use slipmap::style::source::{Source, SourceCollection, SourceId, SourceType};
use slipmap::style::{
    Field, Filter, Layer, LayerType, Layout, LineCap, LineJoin, PaintFields, Parameter, StyleValue,
    TextTransform, Visibility, ZoomFunction,
};
use slipmap::tess::{FeatureLayout, FeaturePaint};
use slipmap::tile::{FeatureView, GeomType, TileFeature, TileLayer, Value};

fn default_layout() -> Layout {
    Layout {
        visibility: Visibility::Visible,
        line_cap: LineCap::Butt,
        line_join: LineJoin::Miter,
        text_anchor: Field::Constant(None),
        text_field: None,
        text_font: Vec::new(),
        text_letter_spacing: None,
        text_max_width: None,
        text_offset: None,
        text_padding: None,
        text_rotation_alignment: None,
        text_size: Field::Constant(None),
        text_transform: None,
        symbol_placement: Field::Constant(None),
    }
}

fn default_paint_fields() -> PaintFields {
    PaintFields {
        background_color: Field::Constant(None),
        line_color: Field::Constant(None),
        line_opacity: Field::Constant(None),
        line_width: Field::Constant(None),
        line_dasharray: None,
        line_gap_width: None,
        fill_antialias: Field::Constant(None),
        fill_color: Field::Constant(None),
        fill_opacity: Field::Constant(None),
        fill_outline_color: Field::Constant(None),
        fill_translate: Field::Constant(None),
        fill_pattern: None,
        text_color: Field::Constant(None),
        text_opacity: Field::Constant(None),
        text_halo_blur: Field::Constant(None),
        text_halo_color: Field::Constant(None),
        text_halo_width: Field::Constant(None),
    }
}

fn road_layer() -> Layer {
    Layer {
        id: b"roads".to_vec(),
        source: Some(SourceId::Index(0)),
        kind: LayerType::Line,
        layer: Some(b"transport".to_vec()),
        minzoom: Some(4_000),
        maxzoom: Some(14_000),
        filter: Filter::FilterExpression(FilterExpression::Cmp(
            b"class".to_vec(),
            Comparison::Eq,
            FilterValue::Text(b"motorway".to_vec()),
        )),
        layout: default_layout(),
        paint: default_paint_fields(),
    }
}

fn tile_layer() -> TileLayer {
    TileLayer {
        name: b"transport".to_vec(),
        features: Vec::new(),
        keys: vec![b"class".to_vec(), b"name".to_vec()],
        values: vec![Value::Text(b"motorway".to_vec()), Value::Text(b"A 1".to_vec())],
    }
}

fn feature() -> TileFeature {
    TileFeature { kind: GeomType::Linestring, tags: vec![0, 0, 1, 1], geometry: Vec::new() }
}

#[test]
fn layer_visibility_conditions() {
    let layer = road_layer();
    let tl = tile_layer();
    let f = feature();
    let view = FeatureView::Feature { layer: &tl, feature: &f };
    // In zoom range, filter passes.
    assert!(FeatureLayout::new(view, &layer, 8_000).visible());
    // Out of zoom range.
    assert!(!FeatureLayout::new(view, &layer, 2_000).visible());
    assert!(!FeatureLayout::new(view, &layer, 15_000).visible());
    // Hidden layer.
    let mut hidden = road_layer();
    hidden.layout.visibility = Visibility::Hidden;
    assert!(!FeatureLayout::new(view, &hidden, 8_000).visible());
    // Unsupported paint feature forces invisible.
    let mut unsupported = road_layer();
    unsupported.paint.fill_pattern = Some(slipmap::style::Exists);
    assert!(!FeatureLayout::new(view, &unsupported, 8_000).visible());
    // Raster layers never draw here.
    let mut raster = road_layer();
    raster.kind = LayerType::Raster;
    assert!(!FeatureLayout::new(view, &raster, 8_000).visible());
    // A failing filter hides the feature.
    let mut filtered = road_layer();
    filtered.filter = Filter::FilterExpression(FilterExpression::Cmp(
        b"class".to_vec(),
        Comparison::Eq,
        FilterValue::Text(b"path".to_vec()),
    ));
    assert!(!FeatureLayout::new(view, &filtered, 8_000).visible());
}

#[test]
fn label_text_template() {
    let mut layout = default_layout();
    layout.text_field = Some(b"  {name} road ".to_vec());
    let tl = tile_layer();
    let f = feature();
    let view = FeatureView::Feature { layer: &tl, feature: &f };
    assert_eq!(layout.text(&view), Some(b"A 1 road".to_vec()));

    // Case transform applies to ASCII letters.
    layout.text_transform = Some(TextTransform::Uppercase);
    assert_eq!(layout.text(&view), Some(b"A 1 ROAD".to_vec()));

    // A missing key substitutes nothing; blank results yield no label.
    layout.text_transform = None;
    layout.text_field = Some(b" {gone} ".to_vec());
    assert_eq!(layout.text(&view), None);
    layout.text_field = None;
    assert_eq!(layout.text(&view), None);

    // An unterminated span is dropped.
    layout.text_field = Some(b"x{name".to_vec());
    assert_eq!(layout.text(&view), Some(b"x".to_vec()));
}

#[test]
fn text_size_and_max_width_defaults() {
    let layout = default_layout();
    let tl = tile_layer();
    let f = feature();
    let view = FeatureView::Feature { layer: &tl, feature: &f };
    assert_eq!(layout.text_size(&view, 9_000), 16_000);
    assert_eq!(layout.text_max_width(), 10_000);
    let mut sized = default_layout();
    sized.text_size = Field::Constant(Some(StyleValue::Num(24_000)));
    sized.text_max_width = Some(8_000);
    assert_eq!(sized.text_size(&view, 9_000), 24_000);
    assert_eq!(sized.text_max_width(), 8_000);
}

// The final alpha of a combined color is the opacity property when present,
// else the color's own declared alpha.
#[test]
fn paint_color_opacity_combination() {
    let tl = tile_layer();
    let f = feature();
    let view = FeatureView::Feature { layer: &tl, feature: &f };
    let mut layer = road_layer();
    layer.paint.line_color = Field::Constant(Some(StyleValue::Shade(Color::Rgba(Rgba {
        r: 800,
        g: 0,
        b: 0,
        a: 900,
    }))));
    let paint = FeaturePaint::new(&layer, &view);
    let style = paint.style(8_000);
    assert_eq!(style.line_color(), Color::Rgba(Rgba { r: 800, g: 0, b: 0, a: 900 }));

    layer.paint.line_opacity = Field::Constant(Some(StyleValue::Num(250)));
    let paint = FeaturePaint::new(&layer, &view);
    let style = paint.style(8_000);
    assert_eq!(style.line_color(), Color::Rgba(Rgba { r: 800, g: 0, b: 0, a: 250 }));

    // An undeclared width defaults to one pixel.
    assert_eq!(style.line_width, 1_000);
}

#[test]
fn zoom_function_inside_paint() {
    let tl = tile_layer();
    let f = feature();
    let view = FeatureView::Feature { layer: &tl, feature: &f };
    let mut layer = road_layer();
    layer.paint.line_width = Field::Function(slipmap::style::Function {
        base: None,
        property: None,
        stops: vec![(5_000, StyleValue::Num(1_000)), (15_000, StyleValue::Num(3_000))],
    });
    let paint = FeaturePaint::new(&layer, &view);
    match &paint.paint.line_width {
        Parameter::ZoomFunction(ZoomFunction { stops, .. }) => assert_eq!(stops.len(), 2),
        other => panic!("unexpected: {other:?}"),
    }
    assert_eq!(paint.style(10_000).line_width, 2_000);
    assert_eq!(paint.style(0).line_width, 1_000);
    assert_eq!(paint.style(20_000).line_width, 3_000);
}

#[test]
fn source_collection_lookup_and_remap() {
    let coll = SourceCollection {
        sources: vec![
            Source { kind: SourceType::Vector, tiles: vec![b"versatiles://planet".to_vec()], attribution: None },
            Source { kind: SourceType::Raster, tiles: Vec::new(), attribution: None },
        ],
        names: vec![b"planet".to_vec(), b"hills".to_vec()],
    };
    assert_eq!(coll.len(), 2);
    let s = coll.get(&SourceId::Name(b"hills".to_vec())).unwrap();
    assert_eq!(s.kind, SourceType::Raster);
    assert!(coll.get(&SourceId::Name(b"gone".to_vec())).is_none());
    assert!(coll.get(&SourceId::Index(2)).is_none());
    match coll.remap(SourceId::Name(b"planet".to_vec())) {
        Some(SourceId::Index(0)) => {},
        other => panic!("unexpected: {other:?}"),
    }
    assert!(coll.remap(SourceId::Name(b"gone".to_vec())).is_none());
}

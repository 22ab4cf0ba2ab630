use slipmap::style::color::{color_parse, Color, Hsla, Rgba};
use slipmap::style::data_expression::{
    Comparison as ExprComparison, DataExpression, ExpressionValue,
};
use slipmap::style::filter_expression::{Comparison, FilterExpression, FilterValue};
use slipmap::style::{
    Field, Filter, Function, Parameter, StyleValue, ValueKind, Visibility, ZoomFunction,
};
use slipmap::tile::{FeatureView, GeomType, TileFeature, TileLayer, Value};

fn test_layer() -> TileLayer {
    TileLayer {
        name: b"roads".to_vec(),
        features: Vec::new(),
        keys: vec![b"class".to_vec(), b"lanes".to_vec(), b"oneway".to_vec()],
        values: vec![
            Value::Text(b"motorway".to_vec()),
            Value::Number(2_000),
            Value::Truth(true),
        ],
    }
}

fn test_feature() -> TileFeature {
    TileFeature {
        kind: GeomType::Linestring,
        tags: vec![0, 0, 1, 1, 2, 2],
        geometry: Vec::new(),
    }
}

// A stop set [(0, 0.0), (10, 1.0)] with the default base: clamped at both
// ends, exact midpoint in between.
#[test]
fn stop_function_monotonic_boundary() {
    let zf = ZoomFunction {
        base: None,
        stops: vec![(0, StyleValue::Num(0)), (10_000, StyleValue::Num(1_000))],
    };
    assert_eq!(zf.eval(-5_000), StyleValue::Num(0));
    assert_eq!(zf.eval(0), StyleValue::Num(0));
    assert_eq!(zf.eval(5_000), StyleValue::Num(500));
    assert_eq!(zf.eval(10_000), StyleValue::Num(1_000));
    assert_eq!(zf.eval(20_000), StyleValue::Num(1_000));
}

#[test]
fn stop_function_brackets_middle_interval() {
    let zf = ZoomFunction {
        base: None,
        stops: vec![
            (0, StyleValue::Num(0)),
            (4_000, StyleValue::Num(100)),
            (8_000, StyleValue::Num(300)),
        ],
    };
    assert_eq!(zf.eval(6_000), StyleValue::Num(200));
    assert_eq!(zf.eval(4_000), StyleValue::Num(100));
}

// A != comparison against a feature lacking the key evaluates true; ==, <, >
// evaluate false.
#[test]
fn filter_default_asymmetry() {
    let layer = test_layer();
    let feature = test_feature();
    let view = FeatureView::Feature { layer: &layer, feature: &feature };
    let value = FilterValue::Number(1_000);
    let missing = b"no_such_key".to_vec();
    for (cmp, want) in [
        (Comparison::Neq, true),
        (Comparison::Eq, false),
        (Comparison::Lt, false),
        (Comparison::Gt, false),
        (Comparison::Lteq, false),
        (Comparison::GtEq, false),
    ] {
        let f = FilterExpression::Cmp(missing.clone(), cmp, value.clone());
        assert_eq!(f.eval(&view), want, "{cmp:?}");
    }
    // Against a present key, the comparison itself decides.
    let f = FilterExpression::Cmp(b"lanes".to_vec(), Comparison::Gt, FilterValue::Number(1_000));
    assert!(!f.eval(&view)); // 1000 > 2000 is false
    let f = FilterExpression::Cmp(b"lanes".to_vec(), Comparison::Lt, FilterValue::Number(1_000));
    assert!(f.eval(&view)); // 1000 < 2000
}

#[test]
fn filter_membership_and_has() {
    let layer = test_layer();
    let feature = test_feature();
    let view = FeatureView::Feature { layer: &layer, feature: &feature };
    let f = FilterExpression::In(
        b"class".to_vec(),
        vec![FilterValue::Text(b"primary".to_vec()), FilterValue::Text(b"motorway".to_vec())],
    );
    assert!(f.eval(&view));
    let f = FilterExpression::NotIn(b"class".to_vec(), vec![FilterValue::Text(b"primary".to_vec())]);
    assert!(f.eval(&view));
    assert!(FilterExpression::Has(FilterValue::Text(b"oneway".to_vec())).eval(&view));
    assert!(FilterExpression::NotHas(FilterValue::Text(b"gone".to_vec())).eval(&view));
    assert!(FilterExpression::True.eval(&view));
    // Cross-type comparison is never equal.
    let f = FilterExpression::Cmp(
        b"class".to_vec(),
        Comparison::Eq,
        FilterValue::Number(1_000),
    );
    assert!(!f.eval(&view));
}

#[test]
fn synthetic_type_key() {
    let layer = test_layer();
    let feature = test_feature();
    let view = FeatureView::Feature { layer: &layer, feature: &feature };
    match view.key(b"$type") {
        Some(Value::Text(t)) => assert_eq!(t, b"LineString".to_vec()),
        other => panic!("unexpected: {other:?}"),
    }
    let empty = FeatureView::empty();
    match empty.key(b"$type") {
        Some(Value::Text(t)) => assert_eq!(t, b"Unknown".to_vec()),
        other => panic!("unexpected: {other:?}"),
    }
    assert!(empty.key(b"class").is_none());
}

#[test]
fn data_expression_match_and_case() {
    let layer = test_layer();
    let feature = test_feature();
    let view = FeatureView::Feature { layer: &layer, feature: &feature };
    let get_class = DataExpression::Get(Box::new(DataExpression::Constant(
        ExpressionValue::Text(b"class".to_vec()),
    )));
    let m = DataExpression::Match(
        Box::new(get_class),
        vec![
            (
                DataExpression::Constant(ExpressionValue::Text(b"residential".to_vec())),
                DataExpression::Constant(ExpressionValue::Number(1)),
            ),
            (
                DataExpression::Constant(ExpressionValue::Text(b"motorway".to_vec())),
                DataExpression::Constant(ExpressionValue::Number(2)),
            ),
        ],
        Box::new(DataExpression::Constant(ExpressionValue::Number(0))),
    );
    assert!(matches!(m.eval(&view), ExpressionValue::Number(2)));

    let c = DataExpression::Case(
        vec![
            (
                DataExpression::Constant(ExpressionValue::Truth(false)),
                DataExpression::Constant(ExpressionValue::Number(10)),
            ),
            (
                DataExpression::Has(Box::new(DataExpression::Constant(ExpressionValue::Text(
                    b"lanes".to_vec(),
                )))),
                DataExpression::Constant(ExpressionValue::Number(20)),
            ),
        ],
        Box::new(DataExpression::Constant(ExpressionValue::Number(30))),
    );
    assert!(matches!(c.eval(&view), ExpressionValue::Number(20)));

    let cmp = DataExpression::Cmp(
        ExprComparison::GtEq,
        Box::new(DataExpression::Get(Box::new(DataExpression::Constant(
            ExpressionValue::Text(b"lanes".to_vec()),
        )))),
        Box::new(DataExpression::Constant(ExpressionValue::Number(2_000))),
    );
    assert!(matches!(cmp.eval(&view), ExpressionValue::Truth(true)));
}

#[test]
fn feature_driven_function_folds() {
    let layer = test_layer();
    let feature = test_feature();
    let view = FeatureView::Feature { layer: &layer, feature: &feature };
    // Stops over the feature's "lanes" value (2.0): halfway between 1 and 3.
    let f = Function {
        base: None,
        property: Some(b"lanes".to_vec()),
        stops: vec![(1_000, StyleValue::Num(100)), (3_000, StyleValue::Num(300))],
    };
    match f.eval(&view) {
        Parameter::Constant(Some(StyleValue::Num(n))) => assert_eq!(n, 200),
        other => panic!("unexpected: {other:?}"),
    }
    // Without a property it stays zoom-dependent.
    let f2 = Function { base: None, property: None, stops: vec![(0, StyleValue::Num(7))] };
    assert!(matches!(f2.eval(&view), Parameter::ZoomFunction(_)));
}

#[test]
fn color_parse_forms() {
    assert_eq!(
        color_parse(b"#fff"),
        Some(Color::Rgba(Rgba { r: 941, g: 941, b: 941, a: 1000 }))
    );
    assert_eq!(
        color_parse(b"#ff0000"),
        Some(Color::Rgba(Rgba { r: 1000, g: 0, b: 0, a: 1000 }))
    );
    assert_eq!(
        color_parse(b"rgb(255,0,127)"),
        Some(Color::Rgba(Rgba { r: 1000, g: 0, b: 498, a: 1000 }))
    );
    assert_eq!(
        color_parse(b"rgba(0,255,0,0.5)"),
        Some(Color::Rgba(Rgba { r: 0, g: 1000, b: 0, a: 500 }))
    );
    assert_eq!(
        color_parse(b"hsl(120,100,50)"),
        Some(Color::Hsla(Hsla { h: 333, s: 1000, l: 500, a: 1000 }))
    );
    assert_eq!(
        color_parse(b"hsla(0,0,0,0.25)"),
        Some(Color::Hsla(Hsla { h: 0, s: 0, l: 0, a: 250 }))
    );
    assert_eq!(color_parse(b"teal"), None);
    assert_eq!(color_parse(b"rgb(1,2,3"), None);
}

#[test]
fn hsl_converts_to_rgb() {
    // Full-saturation half-lightness green.
    let g = Hsla { h: 333, s: 1000, l: 500, a: 1000 }.to_rgba();
    assert_eq!(g.a, 1000);
    assert_eq!(g.g, 1000);
    assert!(g.r <= 5 && g.b == 0, "{g:?}");
    // Grey: zero saturation keeps lightness on all channels.
    let grey = Hsla { h: 0, s: 0, l: 400, a: 1000 }.to_rgba();
    assert_eq!((grey.r, grey.g, grey.b), (400, 400, 400));
}

#[test]
fn field_evaluation_kinds() {
    let layer = test_layer();
    let feature = test_feature();
    let view = FeatureView::Feature { layer: &layer, feature: &feature };
    // A color-typed data expression parses its textual result.
    let f = Field::DataExpression(DataExpression::Constant(ExpressionValue::Text(
        b"#ff0000".to_vec(),
    )));
    match f.eval(ValueKind::Shade, &view) {
        Parameter::Constant(Some(StyleValue::Shade(Color::Rgba(c)))) => {
            assert_eq!((c.r, c.g, c.b, c.a), (1000, 0, 0, 1000));
        },
        other => panic!("unexpected: {other:?}"),
    }
    // Truthiness conversion for booleans.
    let f = Field::DataExpression(DataExpression::Constant(ExpressionValue::Number(3)));
    assert!(matches!(
        f.eval(ValueKind::Truth, &view),
        Parameter::Constant(Some(StyleValue::Truth(true)))
    ));
    let c = Field::Constant(Some(StyleValue::Num(5)));
    assert!(matches!(c.eval(ValueKind::Num, &view), Parameter::Constant(Some(StyleValue::Num(5)))));
}

#[test]
fn filter_wrapper_and_defaults() {
    let layer = test_layer();
    let feature = test_feature();
    let view = FeatureView::Feature { layer: &layer, feature: &feature };
    let f: Filter = Default::default();
    assert!(f.eval(&view));
    let v: Visibility = Default::default();
    assert_eq!(v, Visibility::Visible);
    let expr = Filter::DataExpression(DataExpression::Constant(ExpressionValue::Number(0)));
    assert!(!expr.eval(&view));
}

#[test]
fn comparison_tokens() {
    assert!(matches!(Comparison::from_str(b"=="), Some(Comparison::Eq)));
    assert!(matches!(Comparison::from_str(b"!="), Some(Comparison::Neq)));
    assert!(matches!(Comparison::from_str(b"<"), Some(Comparison::Lt)));
    assert!(matches!(Comparison::from_str(b">="), Some(Comparison::GtEq)));
    assert!(Comparison::from_str(b"~=").is_none());
    assert!(matches!(ExprComparison::from_str(b"<="), Some(ExprComparison::Lteq)));
}

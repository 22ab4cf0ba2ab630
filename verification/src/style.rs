//! The cartographic style model: layers, layout and paint properties, and
//! their evaluation against features and the zoom level.
//!
//! A property is one of three things at evaluation time: a constant, a
//! zoom-interpolated stop function, or a data-driven expression that folds to
//! a constant once evaluated against a feature. Stops interpolate linearly in
//! the interval they bracket; a declared easing base is carried but treated
//! as linear, the rule this library fixes for the two historic
//! interpretations of that field.

pub mod color;
pub mod data_expression;
pub mod filter_expression;
pub mod source;

use vstd::prelude::*;

use crate::num::{bounded, lerp, spec_lerp};
use crate::style::color::{color_bounded, color_parse, spec_color_lerp, color_lerp, Color};
use crate::style::data_expression::{DataExpression, ExpressionValue, ExpressionValueModel};
use crate::style::filter_expression::FilterExpression;
use crate::tile::{FeatureView, Value, ValueModel};

verus! {

/// The kind of a style layer.
#[derive(Debug, Copy, Clone, PartialEq, Eq, Structural)]
pub enum LayerType {
    Background,
    Fill,
    Line,
    Symbol,
    Raster,
    FillExtrusion,
}

/// Layer visibility flag.
#[derive(Debug, Copy, Clone, PartialEq, Eq, Structural)]
pub enum Visibility {
    Visible,
    Hidden,
}

impl Default for Visibility {
    fn default() -> (r: Self)
        ensures
            r == Visibility::Visible,
    {
        Visibility::Visible
    }
}

/// Stroke join style.
#[derive(Debug, Copy, Clone, PartialEq, Eq, Structural)]
pub enum LineJoin {
    Round,
    Miter,
    Bevel,
}

impl Default for LineJoin {
    fn default() -> (r: Self)
        ensures
            r == LineJoin::Miter,
    {
        LineJoin::Miter
    }
}

/// Stroke cap style.
#[derive(Debug, Copy, Clone, PartialEq, Eq, Structural)]
pub enum LineCap {
    Butt,
    Round,
    Square,
}

impl Default for LineCap {
    fn default() -> (r: Self)
        ensures
            r == LineCap::Butt,
    {
        LineCap::Butt
    }
}

/// Case transform applied to label text. Letter case is applied per ASCII
/// letter; other bytes pass through unchanged.
#[derive(Debug, Copy, Clone, PartialEq, Eq, Structural)]
pub enum TextTransform {
    Plain,
    Uppercase,
    Lowercase,
}

impl Default for TextTransform {
    fn default() -> (r: Self)
        ensures
            r == TextTransform::Plain,
    {
        TextTransform::Plain
    }
}

/// Anchor position of a label relative to its point.
#[derive(Debug, Copy, Clone, PartialEq, Eq, Structural)]
pub enum TextAnchor {
    Center,
    Left,
    Right,
    Top,
    Bottom,
    TopLeft,
    TopRight,
    BottomLeft,
    BottomRight,
}

impl Default for TextAnchor {
    fn default() -> (r: Self)
        ensures
            r == TextAnchor::Center,
    {
        TextAnchor::Center
    }
}

/// How label text rotates with the map.
#[derive(Debug, Copy, Clone, PartialEq, Eq, Structural)]
pub enum TextRotationAlignment {
    Auto,
    MapAligned,
    Viewport,
}

impl Default for TextRotationAlignment {
    fn default() -> (r: Self)
        ensures
            r == TextRotationAlignment::Auto,
    {
        TextRotationAlignment::Auto
    }
}

/// Where symbols are placed along a feature.
#[derive(Debug, Copy, Clone, PartialEq, Eq, Structural)]
pub enum SymbolPlacement {
    Point,
    Line,
    LineCenter,
}

impl Default for SymbolPlacement {
    fn default() -> (r: Self)
        ensures
            r == SymbolPlacement::Point,
    {
        SymbolPlacement::Point
    }
}

/// Marks a style field as present, with its content ignored.
#[derive(Debug, Copy, Clone)]
pub struct Exists;

/// A typed style property value.
#[derive(Debug, Copy, Clone, PartialEq, Eq, Structural)]
pub enum StyleValue {
    Num(i64),
    Shade(Color),
    Pair(i64, i64),
    Truth(bool),
    Placement(SymbolPlacement),
}

/// The value kind a property expects.
#[derive(Debug, Copy, Clone, PartialEq, Eq, Structural)]
pub enum ValueKind {
    Num,
    Shade,
    Pair,
    Truth,
    Placement,
}

/// A value small enough for interpolation arithmetic.
pub open spec fn value_bounded(v: StyleValue) -> bool {
    match v {
        StyleValue::Num(n) => bounded(n),
        StyleValue::Shade(c) => color_bounded(c),
        StyleValue::Pair(a, b) => bounded(a) && bounded(b),
        StyleValue::Truth(_) => true,
        StyleValue::Placement(_) => true,
    }
}

/// Interpolation between two property values by the factor `num / den`:
/// numbers, colors and pairs interpolate componentwise; booleans and
/// enumerations switch hard at one half; a mismatched pairing switches hard
/// as well.
pub open spec fn spec_value_lerp(a: StyleValue, b: StyleValue, num: int, den: int) -> StyleValue {
    match (a, b) {
        (StyleValue::Num(x), StyleValue::Num(y)) => StyleValue::Num(
            spec_lerp(x as int, y as int, num, den) as i64,
        ),
        (StyleValue::Shade(x), StyleValue::Shade(y)) => StyleValue::Shade(
            spec_color_lerp(x, y, num, den),
        ),
        (StyleValue::Pair(x0, x1), StyleValue::Pair(y0, y1)) => StyleValue::Pair(
            spec_lerp(x0 as int, y0 as int, num, den) as i64,
            spec_lerp(x1 as int, y1 as int, num, den) as i64,
        ),
        _ => if 2 * num < den {
            a
        } else {
            b
        },
    }
}

/// Interpolates two property values; see [`spec_value_lerp`].
pub fn value_lerp(a: StyleValue, b: StyleValue, num: i64, den: i64) -> (r: StyleValue)
    requires
        value_bounded(a),
        value_bounded(b),
        0 < den <= 2_000_000_000,
        0 <= num <= den,
    ensures
        r == spec_value_lerp(a, b, num as int, den as int),
        value_bounded(r),
{
    match (a, b) {
        (StyleValue::Num(x), StyleValue::Num(y)) => StyleValue::Num(lerp(x, y, num, den)),
        (StyleValue::Shade(x), StyleValue::Shade(y)) => StyleValue::Shade(
            color_lerp(x, y, num, den),
        ),
        (StyleValue::Pair(x0, x1), StyleValue::Pair(y0, y1)) => StyleValue::Pair(
            lerp(x0, y0, num, den),
            lerp(x1, y1, num, den),
        ),
        _ => {
            if 2 * num < den {
                a
            } else {
                b
            }
        },
    }
}

/// Well-formed interpolation stops: at least one stop, positions ascending,
/// everything inside arithmetic bounds.
pub open spec fn stops_wf(stops: Seq<(i64, StyleValue)>) -> bool {
    &&& stops.len() >= 1
    &&& forall|i: int| 0 <= i < stops.len() - 1 ==> (#[trigger] stops[i]).0 <= stops[i + 1].0
    &&& forall|i: int|
        0 <= i < stops.len() ==> bounded((#[trigger] stops[i]).0) && value_bounded(stops[i].1)
}

/// The bracketing scan of a stop function, after the boundary cases: find the
/// first stop interval containing `x` and interpolate inside it linearly.
pub open spec fn spec_stops_scan(stops: Seq<(i64, StyleValue)>, x: i64) -> StyleValue
    decreases stops.len(),
{
    if stops.len() < 2 {
        if stops.len() == 1 {
            stops[0].1
        } else {
            StyleValue::Num(0)
        }
    } else if x <= stops[1].0 {
        spec_value_lerp(
            stops[0].1,
            stops[1].1,
            x - stops[0].0,
            stops[1].0 - stops[0].0,
        )
    } else {
        spec_stops_scan(stops.skip(1), x)
    }
}

/// What a stop function evaluates to at position `x`: the first stop's value
/// at or before the first stop, the last stop's value at or past the last
/// stop, and the bracketing interpolation in between.
pub open spec fn spec_stops_eval(stops: Seq<(i64, StyleValue)>, x: i64) -> StyleValue {
    if x <= stops[0].0 || stops.len() == 1 {
        stops[0].1
    } else if x >= stops[stops.len() - 1].0 {
        stops[stops.len() - 1].1
    } else {
        spec_stops_scan(stops, x)
    }
}

/// Evaluates a stop list at position `x`; see [`spec_stops_eval`].
#[verifier::loop_isolation(false)]
pub fn stops_eval(stops: &Vec<(i64, StyleValue)>, x: i64) -> (r: StyleValue)
    requires
        stops_wf(stops@),
        bounded(x),
    ensures
        r == spec_stops_eval(stops@, x),
        value_bounded(r),
{
    let n = stops.len();
    if x <= stops[0].0 || n == 1 {
        return stops[0].1;
    }
    if x >= stops[n - 1].0 {
        return stops[n - 1].1;
    }
    let mut i: usize = 0;
    assert(stops@.skip(0) =~= stops@);
    while i < n - 1
        invariant
            0 <= i < n,
            x > stops@[i as int].0,
            spec_stops_scan(stops@, x) == spec_stops_scan(stops@.skip(i as int), x),
        decreases n - i,
    {
        let ghost pre = stops@.skip(i as int);
        assert(pre[0] == stops@[i as int] && pre[1] == stops@[i as int + 1]);
        if x <= stops[i + 1].0 {
            let z0 = stops[i].0;
            let z1 = stops[i + 1].0;
            return value_lerp(stops[i].1, stops[i + 1].1, x - z0, z1 - z0);
        }
        assert(pre.skip(1) =~= stops@.skip(i as int + 1));
        i += 1;
    }
    assert(x >= stops@[n - 1].0);
    stops[0].1
}

/// A zoom-interpolated stop function. The declared easing base is carried
/// through from the document but interpolation is linear in every interval.
#[derive(Debug)]
pub struct ZoomFunction {
    pub base: Option<i64>,
    pub stops: Vec<(i64, StyleValue)>,
}

/// Mathematical model of a [`ZoomFunction`].
#[verifier::ext_equal]
pub struct ZoomFunctionModel {
    pub base: Option<i64>,
    pub stops: Seq<(i64, StyleValue)>,
}

impl View for ZoomFunction {
    type V = ZoomFunctionModel;

    open spec fn view(&self) -> ZoomFunctionModel {
        ZoomFunctionModel { base: self.base, stops: self.stops@ }
    }
}

impl ZoomFunction {
    pub open spec fn wf(self) -> bool {
        stops_wf(self.stops@)
    }

    /// The value at the given zoom level; see [`spec_stops_eval`].
    pub fn eval(&self, zoom: i64) -> (r: StyleValue)
        requires
            self.wf(),
            bounded(zoom),
        ensures
            r == spec_stops_eval(self.stops@, zoom),
            value_bounded(r),
    {
        stops_eval(&self.stops, zoom)
    }

    /// An owned copy.
    pub fn dup(&self) -> (r: ZoomFunction)
        ensures
            r@ == self@,
    {
        ZoomFunction { base: self.base, stops: dup_stops(&self.stops) }
    }
}

/// Copies a stop list.
#[verifier::loop_isolation(false)]
fn dup_stops(stops: &Vec<(i64, StyleValue)>) -> (r: Vec<(i64, StyleValue)>)
    ensures
        r@ == stops@,
{
    let mut out: Vec<(i64, StyleValue)> = Vec::new();
    let n = stops.len();
    let mut i: usize = 0;
    while i < n
        invariant
            0 <= i <= n,
            out@ == stops@.subrange(0, i as int),
        decreases n - i,
    {
        out.push(stops[i]);
        assert(out@ =~= stops@.subrange(0, i + 1 as int));
        i += 1;
    }
    assert(out@ =~= stops@);
    out
}

/// A camera expression: declared in the model for completeness; this library
/// does not evaluate it, and a parameter holding one yields no value.
#[derive(Debug, Copy, Clone, PartialEq, Eq, Structural)]
pub struct CameraExpression;

/// A property after feature evaluation: absent or constant, still
/// zoom-interpolated, or an unevaluated camera expression.
#[derive(Debug)]
pub enum Parameter {
    Constant(Option<StyleValue>),
    ZoomFunction(ZoomFunction),
    CameraExpression(CameraExpression),
}

/// Mathematical model of a [`Parameter`].
#[verifier::ext_equal]
pub enum ParameterModel {
    Constant(Option<StyleValue>),
    ZoomFunction(ZoomFunctionModel),
    CameraExpression,
}

impl View for Parameter {
    type V = ParameterModel;

    open spec fn view(&self) -> ParameterModel {
        match self {
            Parameter::Constant(c) => ParameterModel::Constant(*c),
            Parameter::ZoomFunction(z) => ParameterModel::ZoomFunction(z@),
            Parameter::CameraExpression(_) => ParameterModel::CameraExpression,
        }
    }
}

impl Parameter {
    pub open spec fn wf(self) -> bool {
        match self {
            Parameter::Constant(c) => match c {
                Some(v) => value_bounded(v),
                None => true,
            },
            Parameter::ZoomFunction(z) => z.wf(),
            Parameter::CameraExpression(_) => true,
        }
    }

    /// What the parameter yields at a zoom level: its constant, its stop
    /// function's value, or nothing for an absent constant or a camera
    /// expression.
    pub open spec fn spec_eval(self, zoom: i64) -> Option<StyleValue> {
        match self {
            Parameter::Constant(c) => c,
            Parameter::ZoomFunction(z) => Some(spec_stops_eval(z.stops@, zoom)),
            Parameter::CameraExpression(_) => None,
        }
    }

    pub fn eval(&self, zoom: i64) -> (r: Option<StyleValue>)
        requires
            self.wf(),
            bounded(zoom),
        ensures
            r == self.spec_eval(zoom),
            match r {
                Some(v) => value_bounded(v),
                None => true,
            },
    {
        match self {
            Parameter::Constant(c) => *c,
            Parameter::ZoomFunction(z) => Some(z.eval(zoom)),
            Parameter::CameraExpression(_) => None,
        }
    }

    /// An owned copy.
    pub fn dup(&self) -> (r: Parameter)
        ensures
            r@ == self@,
            r.wf() == self.wf(),
    {
        match self {
            Parameter::Constant(c) => Parameter::Constant(*c),
            Parameter::ZoomFunction(z) => Parameter::ZoomFunction(z.dup()),
            Parameter::CameraExpression(c) => Parameter::CameraExpression(*c),
        }
    }
}

/// A legacy stop function attached to a property: interpolates over the zoom
/// level, or, when it names a feature property, over that property's numeric
/// value (a missing or non-numeric value reads as zero).
#[derive(Debug)]
pub struct Function {
    pub base: Option<i64>,
    pub property: Option<Vec<u8>>,
    pub stops: Vec<(i64, StyleValue)>,
}

impl Function {
    pub open spec fn wf(self) -> bool {
        stops_wf(self.stops@)
    }

    /// What feature evaluation turns this function into: without a property
    /// it stays a zoom function; with one it folds to the constant read off
    /// the stops at the feature's value.
    pub open spec fn spec_eval(self, view: FeatureView<'_>) -> ParameterModel {
        match self.property {
            None => ParameterModel::ZoomFunction(
                ZoomFunctionModel { base: self.base, stops: self.stops@ },
            ),
            Some(p) => ParameterModel::Constant(
                Some(spec_stops_eval(self.stops@, spec_feature_number(view, p@))),
            ),
        }
    }

    pub fn eval(&self, view: &FeatureView<'_>) -> (r: Parameter)
        requires
            self.wf(),
        ensures
            r@ == self.spec_eval(*view),
            r.wf(),
    {
        match &self.property {
            None => Parameter::ZoomFunction(
                ZoomFunction { base: self.base, stops: dup_stops(&self.stops) },
            ),
            Some(p) => {
                let v = feature_number(view, p.as_slice());
                Parameter::Constant(Some(stops_eval(&self.stops, v)))
            },
        }
    }

    pub open spec fn spec_reads_feature(self) -> bool {
        self.property is Some
    }

    pub fn is_computed_from_feature(&self) -> (r: bool)
        ensures
            r == self.spec_reads_feature(),
    {
        self.property.is_some()
    }
}

/// The numeric value of a feature attribute, clamped into arithmetic bounds;
/// missing or non-numeric attributes read as zero.
pub open spec fn spec_feature_number(view: FeatureView<'_>, key: Seq<u8>) -> i64 {
    match view.spec_key(key) {
        Some(ValueModel::Number(n)) => if n > 1_000_000_000 {
            1_000_000_000i64
        } else if n < -1_000_000_000 {
            (-1_000_000_000) as i64
        } else {
            n as i64
        },
        _ => 0,
    }
}

fn feature_number(view: &FeatureView<'_>, key: &[u8]) -> (r: i64)
    ensures
        r == spec_feature_number(*view, key@),
        bounded(r),
{
    match view.key(key) {
        Some(Value::Number(n)) => {
            if n > 1_000_000_000 {
                1_000_000_000
            } else if n < -1_000_000_000 {
                -1_000_000_000
            } else {
                n
            }
        },
        _ => 0,
    }
}

/// Converts an evaluated expression value into a typed property value; a
/// value of the wrong kind reads as absent. Colors accept their textual
/// forms. Booleans accept any value through truthiness. Pair-typed
/// properties cannot be written as data expressions.
pub open spec fn spec_to_value(kind: ValueKind, v: ExpressionValueModel) -> Option<StyleValue> {
    match kind {
        ValueKind::Num => match v {
            ExpressionValueModel::Number(n) => if -1_000_000_000 <= n <= 1_000_000_000 {
                Some(StyleValue::Num(n as i64))
            } else {
                None
            },
            _ => None,
        },
        ValueKind::Shade => match v {
            ExpressionValueModel::Text(s) => match crate::style::color::spec_color(s) {
                Some(c) => Some(StyleValue::Shade(c)),
                None => None,
            },
            ExpressionValueModel::Color(c) => Some(StyleValue::Shade(spec_clamp_color(c))),
            _ => None,
        },
        ValueKind::Truth => Some(
            StyleValue::Truth(crate::style::data_expression::spec_truthy(v)),
        ),
        ValueKind::Placement => match v {
            ExpressionValueModel::Text(s) => spec_placement_token(s),
            _ => None,
        },
        ValueKind::Pair => None,
    }
}

/// The symbol placement a token denotes.
pub open spec fn spec_placement_token(s: Seq<u8>) -> Option<StyleValue> {
    if s == spec_lit_point() {
        Some(StyleValue::Placement(SymbolPlacement::Point))
    } else if s == spec_lit_line() {
        Some(StyleValue::Placement(SymbolPlacement::Line))
    } else if s == spec_lit_line_center() {
        Some(StyleValue::Placement(SymbolPlacement::LineCenter))
    } else {
        None
    }
}

pub open spec fn spec_lit_point() -> Seq<u8> {
    seq![112u8, 111u8, 105u8, 110u8, 116u8]
}

pub open spec fn spec_lit_line() -> Seq<u8> {
    seq![108u8, 105u8, 110u8, 101u8]
}

pub open spec fn spec_lit_line_center() -> Seq<u8> {
    seq![108u8, 105u8, 110u8, 101u8, 45u8, 99u8, 101u8, 110u8, 116u8, 101u8, 114u8]
}

/// Converts an expression value into a typed property value; see
/// [`spec_to_value`].
pub fn to_value(kind: ValueKind, v: &ExpressionValue) -> (r: Option<StyleValue>)
    requires
        !(kind is Pair),
    ensures
        r == spec_to_value(kind, v@),
        match r {
            Some(sv) => value_bounded(sv),
            None => true,
        },
{
    match kind {
        ValueKind::Num => match v {
            ExpressionValue::Number(n) => {
                if -1_000_000_000 <= *n && *n <= 1_000_000_000 {
                    Some(StyleValue::Num(*n))
                } else {
                    None
                }
            },
            _ => None,
        },
        ValueKind::Shade => match v {
            ExpressionValue::Text(s) => match color_parse(s.as_slice()) {
                Some(c) => Some(StyleValue::Shade(c)),
                None => None,
            },
            ExpressionValue::Color(c) => Some(StyleValue::Shade(clamp_color(*c))),
            _ => None,
        },
        ValueKind::Truth => Some(StyleValue::Truth(v.truthy())),
        ValueKind::Placement => match v {
            ExpressionValue::Text(s) => placement_token(s.as_slice()),
            _ => None,
        },
        ValueKind::Pair => None,
    }
}

fn placement_token(s: &[u8]) -> (r: Option<StyleValue>)
    ensures
        r == spec_placement_token(s@),
        match r {
            Some(sv) => value_bounded(sv),
            None => true,
        },
{
    let point_lit: [u8; 5] = [112u8, 111u8, 105u8, 110u8, 116u8];
    let line_lit: [u8; 4] = [108u8, 105u8, 110u8, 101u8];
    let lc_lit: [u8; 11] = [108u8, 105u8, 110u8, 101u8, 45u8, 99u8, 101u8, 110u8, 116u8, 101u8, 114u8];
    assert(point_lit@ =~= spec_lit_point());
    assert(line_lit@ =~= spec_lit_line());
    assert(lc_lit@ =~= spec_lit_line_center());
    proof {
        if s@.len() == 5 {
            assert(s@.take(5) =~= s@);
        }
        if s@.len() == 4 {
            assert(s@.take(4) =~= s@);
        }
        if s@.len() == 11 {
            assert(s@.take(11) =~= s@);
        }
    }
    if crate::style::color::starts_with(s, point_lit.as_slice()) && s.len() == 5 {
        Some(StyleValue::Placement(SymbolPlacement::Point))
    } else if crate::style::color::starts_with(s, lc_lit.as_slice()) && s.len() == 11 {
        Some(StyleValue::Placement(SymbolPlacement::LineCenter))
    } else if crate::style::color::starts_with(s, line_lit.as_slice()) && s.len() == 4 {
        Some(StyleValue::Placement(SymbolPlacement::Line))
    } else {
        None
    }
}


/// Clamps each channel of a color into arithmetic bounds.
pub open spec fn spec_clamp_color(c: Color) -> Color {
    match c {
        Color::Rgba(v) => Color::Rgba(
            crate::style::color::Rgba {
                r: crate::style::color::capb(v.r as int),
                g: crate::style::color::capb(v.g as int),
                b: crate::style::color::capb(v.b as int),
                a: crate::style::color::capb(v.a as int),
            },
        ),
        Color::Hsla(v) => Color::Hsla(
            crate::style::color::Hsla {
                h: crate::style::color::capb(v.h as int),
                s: crate::style::color::capb(v.s as int),
                l: crate::style::color::capb(v.l as int),
                a: crate::style::color::capb(v.a as int),
            },
        ),
    }
}

fn cap_channel(v: i64) -> (r: i64)
    ensures
        r == crate::style::color::capb(v as int),
        bounded(r),
{
    if v > 1_000_000_000 {
        1_000_000_000
    } else if v < -1_000_000_000 {
        -1_000_000_000
    } else {
        v
    }
}

/// Clamps a color's channels into arithmetic bounds.
pub fn clamp_color(c: Color) -> (r: Color)
    ensures
        r == spec_clamp_color(c),
        color_bounded(r),
{
    match c {
        Color::Rgba(v) => Color::Rgba(
            crate::style::color::Rgba {
                r: cap_channel(v.r),
                g: cap_channel(v.g),
                b: cap_channel(v.b),
                a: cap_channel(v.a),
            },
        ),
        Color::Hsla(v) => Color::Hsla(
            crate::style::color::Hsla {
                h: cap_channel(v.h),
                s: cap_channel(v.s),
                l: cap_channel(v.l),
                a: cap_channel(v.a),
            },
        ),
    }
}


/// A declared property: a constant, a legacy stop function, or a data
/// expression.
#[derive(Debug)]
pub enum Field {
    Constant(Option<StyleValue>),
    Function(Function),
    DataExpression(DataExpression),
}

impl Field {
    pub open spec fn wf(self) -> bool {
        match self {
            Field::Constant(c) => match c {
                Some(v) => value_bounded(v),
                None => true,
            },
            Field::Function(f) => f.wf(),
            Field::DataExpression(_) => true,
        }
    }

    /// What feature evaluation turns the field into: constants pass through,
    /// stop functions fold or stay zoom-dependent, and data expressions fold
    /// to the typed constant they evaluate to.
    pub open spec fn spec_eval(self, kind: ValueKind, view: FeatureView<'_>) -> ParameterModel {
        match self {
            Field::Constant(c) => ParameterModel::Constant(c),
            Field::Function(f) => f.spec_eval(view),
            Field::DataExpression(e) => ParameterModel::Constant(
                spec_to_value(kind, e.spec_eval(view)),
            ),
        }
    }

    pub fn eval(&self, kind: ValueKind, view: &FeatureView<'_>) -> (r: Parameter)
        requires
            self.wf(),
            self is DataExpression ==> !(kind is Pair),
        ensures
            r@ == self.spec_eval(kind, *view),
            r.wf(),
    {
        match self {
            Field::Constant(c) => Parameter::Constant(*c),
            Field::Function(f) => f.eval(view),
            Field::DataExpression(e) => {
                let v = e.eval(view);
                Parameter::Constant(to_value(kind, &v))
            },
        }
    }

    pub open spec fn spec_reads_feature(self) -> bool {
        match self {
            Field::Constant(_) => false,
            Field::Function(f) => f.spec_reads_feature(),
            Field::DataExpression(e) => e.spec_reads_feature(),
        }
    }

    pub fn is_computed_from_feature(&self) -> (r: bool)
        ensures
            r == self.spec_reads_feature(),
    {
        match self {
            Field::Constant(_) => false,
            Field::Function(f) => f.is_computed_from_feature(),
            Field::DataExpression(e) => e.is_computed_from_feature(),
        }
    }
}

impl Default for Field {
    /// An absent constant.
    fn default() -> (r: Field)
        ensures
            r == Field::Constant(None::<StyleValue>),
            r.wf(),
    {
        Field::Constant(None)
    }
}

/// A layer's filter, in either of its two written forms.
#[derive(Debug)]
pub enum Filter {
    FilterExpression(FilterExpression),
    DataExpression(DataExpression),
}

impl Filter {
    /// Whether the filter passes a feature: a legacy filter by its own
    /// evaluation, an expression filter by the truthiness of its value.
    pub open spec fn spec_eval(self, view: FeatureView<'_>) -> bool {
        match self {
            Filter::FilterExpression(e) => e.spec_eval(view),
            Filter::DataExpression(e) => crate::style::data_expression::spec_truthy(
                e.spec_eval(view),
            ),
        }
    }

    pub fn eval(&self, view: &FeatureView<'_>) -> (r: bool)
        ensures
            r == self.spec_eval(*view),
    {
        match self {
            Filter::FilterExpression(e) => e.eval(view),
            Filter::DataExpression(e) => e.eval(view).truthy(),
        }
    }
}

impl Default for Filter {
    /// The filter that passes everything.
    fn default() -> (r: Filter)
        ensures
            r == Filter::FilterExpression(FilterExpression::True),
    {
        Filter::FilterExpression(FilterExpression::True)
    }
}

/// The case transform of one byte: ASCII letters change case, every other
/// byte passes through.
pub open spec fn spec_transform_byte(t: TextTransform, b: u8) -> u8 {
    match t {
        TextTransform::Plain => b,
        TextTransform::Uppercase => if 97 <= b <= 122 {
            (b - 32) as u8
        } else {
            b
        },
        TextTransform::Lowercase => if 65 <= b <= 90 {
            (b + 32) as u8
        } else {
            b
        },
    }
}

fn transform_byte(t: TextTransform, b: u8) -> (r: u8)
    ensures
        r == spec_transform_byte(t, b),
{
    match t {
        TextTransform::Plain => b,
        TextTransform::Uppercase => {
            if 97 <= b && b <= 122 {
                b - 32
            } else {
                b
            }
        },
        TextTransform::Lowercase => {
            if 65 <= b && b <= 90 {
                b + 32
            } else {
                b
            }
        },
    }
}

/// The label text a format template produces: literal bytes pass through the
/// case transform; `{key}` spans substitute the feature's text value under
/// that key (transformed), or nothing when the key is missing or not a text;
/// an unterminated span is dropped.
pub open spec fn spec_template(
    fmt: Seq<u8>,
    i: int,
    in_field: bool,
    span: int,
    t: TextTransform,
    view: FeatureView<'_>,
    acc: Seq<u8>,
) -> Seq<u8>
    decreases fmt.len() - i,
{
    if i < 0 || i >= fmt.len() {
        acc
    } else {
        let c = fmt[i];
        if c == 123 && !in_field {
            spec_template(fmt, i + 1, true, i + 1, t, view, acc)
        } else if c == 125 && in_field {
            let key = fmt.subrange(span, i);
            let acc2 = match view.spec_key(key) {
                Some(ValueModel::Text(s)) => acc + s.map_values(|b: u8| spec_transform_byte(t, b)),
                _ => acc,
            };
            spec_template(fmt, i + 1, false, span, t, view, acc2)
        } else if !in_field {
            spec_template(fmt, i + 1, false, span, t, view, acc.push(spec_transform_byte(t, c)))
        } else {
            spec_template(fmt, i + 1, in_field, span, t, view, acc)
        }
    }
}

/// An ASCII whitespace byte.
pub open spec fn spec_is_space(b: u8) -> bool {
    b == 32 || (9 <= b <= 13)
}

/// The first index at or after `i` holding a non-whitespace byte, or the
/// length when there is none.
pub open spec fn spec_first_dark(s: Seq<u8>, i: int) -> int
    decreases s.len() - i,
{
    if i < 0 || i >= s.len() {
        s.len() as int
    } else if spec_is_space(s[i]) {
        spec_first_dark(s, i + 1)
    } else {
        i
    }
}

/// The last index before `i` holding a non-whitespace byte, plus one; zero
/// when there is none.
pub open spec fn spec_last_dark(s: Seq<u8>, i: int) -> int
    decreases i,
{
    if i <= 0 || i > s.len() {
        0
    } else if spec_is_space(s[i - 1]) {
        spec_last_dark(s, i - 1)
    } else {
        i
    }
}

/// The text with leading and trailing ASCII whitespace removed.
pub open spec fn spec_trim(s: Seq<u8>) -> Seq<u8> {
    let a = spec_first_dark(s, 0);
    let b = spec_last_dark(s, s.len() as int);
    if a < b {
        s.subrange(a, b)
    } else {
        Seq::empty()
    }
}

/// Removes leading and trailing ASCII whitespace.
#[verifier::loop_isolation(false)]
pub fn trim_bytes(s: &Vec<u8>) -> (r: Vec<u8>)
    ensures
        r@ == spec_trim(s@),
{
    let n = s.len();
    let mut a: usize = 0;
    while a < n && (s[a] == 32 || (9 <= s[a] && s[a] <= 13))
        invariant
            0 <= a <= n,
            n == s@.len(),
            spec_first_dark(s@, 0) == spec_first_dark(s@, a as int),
        decreases n - a,
    {
        a += 1;
    }
    let mut b: usize = n;
    while b > 0 && (s[b - 1] == 32 || (9 <= s[b - 1] && s[b - 1] <= 13))
        invariant
            0 <= b <= n,
            n == s@.len(),
            spec_last_dark(s@, n as int) == spec_last_dark(s@, b as int),
        decreases b,
    {
        b -= 1;
    }
    assert(spec_first_dark(s@, a as int) == a || spec_first_dark(s@, a as int) == s@.len());
    if a < b {
        crate::bytes::bytes_range(s.as_slice(), a, b)
    } else {
        let r: Vec<u8> = Vec::new();
        assert(r@ =~= spec_trim(s@));
        r
    }
}

/// The layout properties of a layer.
#[derive(Debug)]
pub struct Layout {
    pub visibility: Visibility,
    pub line_cap: LineCap,
    pub line_join: LineJoin,
    pub text_anchor: Field,
    pub text_field: Option<Vec<u8>>,
    pub text_font: Vec<Vec<u8>>,
    pub text_letter_spacing: Option<i64>,
    pub text_max_width: Option<i64>,
    pub text_offset: Option<(i64, i64)>,
    pub text_padding: Option<i64>,
    pub text_rotation_alignment: Option<TextRotationAlignment>,
    pub text_size: Field,
    pub text_transform: Option<TextTransform>,
    pub symbol_placement: Field,
}

impl Layout {
    pub open spec fn wf(self) -> bool {
        &&& self.text_anchor.wf()
        &&& self.text_size.wf()
        &&& self.symbol_placement.wf()
        &&& match self.text_max_width {
            Some(w) => bounded(w),
            None => true,
        }
    }

    /// The evaluated text size, in fixed-point pixels; 16 when undeclared.
    pub open spec fn spec_text_size(self, view: FeatureView<'_>, zoom: i64) -> i64 {
        match param_model_eval(self.text_size.spec_eval(ValueKind::Num, view), zoom) {
            Some(StyleValue::Num(n)) => n,
            _ => 16_000,
        }
    }

    #[verifier::rlimit(50)]
    pub fn text_size(&self, view: &FeatureView<'_>, zoom: i64) -> (r: i64)
        requires
            self.wf(),
            bounded(zoom),
        ensures
            r == self.spec_text_size(*view, zoom),
            bounded(r),
    {
        let p = self.text_size.eval(ValueKind::Num, view);
        match p.eval(zoom) {
            Some(StyleValue::Num(n)) => n,
            _ => 16_000,
        }
    }

    /// The evaluated symbol placement, if one is declared.
    pub open spec fn spec_symbol_placement(self, view: FeatureView<'_>, zoom: i64) -> Option<
        SymbolPlacement,
    > {
        match param_model_eval(self.symbol_placement.spec_eval(ValueKind::Placement, view), zoom) {
            Some(StyleValue::Placement(p)) => Some(p),
            _ => None,
        }
    }

    #[verifier::rlimit(50)]
    pub fn symbol_placement(&self, view: &FeatureView<'_>, zoom: i64) -> (r: Option<
        SymbolPlacement,
    >)
        requires
            self.wf(),
            bounded(zoom),
        ensures
            r == self.spec_symbol_placement(*view, zoom),
    {
        let p = self.symbol_placement.eval(ValueKind::Placement, view);
        match p.eval(zoom) {
            Some(StyleValue::Placement(pl)) => Some(pl),
            _ => None,
        }
    }

    /// The maximum label line width, in fixed-point em units; 10 when
    /// undeclared.
    pub fn text_max_width(&self) -> (r: i64)
        requires
            self.wf(),
        ensures
            r == match self.text_max_width {
                Some(w) => w,
                None => 10_000i64,
            },
            bounded(r),
    {
        match self.text_max_width {
            Some(w) => w,
            None => 10_000,
        }
    }

    /// What label text this layout produces for a feature, after template
    /// substitution, case transform and trimming; nothing when no text field
    /// is declared or the result is blank.
    pub open spec fn spec_text(self, view: FeatureView<'_>) -> Option<Seq<u8>> {
        match self.text_field {
            None => None,
            Some(fmt) => {
                let t = match self.text_transform {
                    Some(t) => t,
                    None => TextTransform::Plain,
                };
                let raw = spec_template(fmt@, 0, false, 0, t, view, Seq::empty());
                let trimmed = spec_trim(raw);
                if trimmed.len() == 0 {
                    None
                } else {
                    Some(trimmed)
                }
            },
        }
    }

    #[verifier::loop_isolation(false)]
    pub fn text(&self, view: &FeatureView<'_>) -> (r: Option<Vec<u8>>)
        ensures
            match (r, self.spec_text(*view)) {
                (Some(v), Some(sv)) => v@ == sv,
                (None, None) => true,
                _ => false,
            },
    {
        let fmt = match &self.text_field {
            None => {
                return None;
            },
            Some(f) => f,
        };
        let t = match self.text_transform {
            Some(t) => t,
            None => TextTransform::Plain,
        };
        let n = fmt.len();
        let mut acc: Vec<u8> = Vec::new();
        let mut in_field = false;
        let mut span: usize = 0;
        let mut i: usize = 0;
        let ghost goal = spec_template(fmt@, 0, false, 0, t, *view, Seq::empty());
        while i < n
            invariant
                0 <= i <= n,
                n == fmt@.len(),
                0 <= span <= i,
                goal == spec_template(fmt@, i as int, in_field, span as int, t, *view, acc@),
            decreases n - i,
        {
            let c = fmt[i];
            if c == 123 && !in_field {
                in_field = true;
                span = i + 1;
            } else if c == 125 && in_field {
                let key = crate::bytes::bytes_range(fmt.as_slice(), span, i);
                match view.key(key.as_slice()) {
                    Some(Value::Text(s)) => {
                        let m = s.len();
                        let mut k: usize = 0;
                        let ghost before = acc@;
                        while k < m
                            invariant
                                0 <= k <= m,
                                m == s@.len(),
                                acc@ == before + s@.take(k as int).map_values(
                                    |b: u8| spec_transform_byte(t, b),
                                ),
                            decreases m - k,
                        {
                            acc.push(transform_byte(t, s[k]));
                            assert(acc@ =~= before + s@.take(k + 1 as int).map_values(
                                |b: u8| spec_transform_byte(t, b),
                            ));
                            k += 1;
                        }
                        assert(s@.take(m as int) =~= s@);
                        assert(acc@ =~= before + s@.map_values(|b: u8| spec_transform_byte(t, b)));
                    },
                    _ => {},
                }
                in_field = false;
            } else if !in_field {
                acc.push(transform_byte(t, c));
            }
            i += 1;
        }
        let trimmed = trim_bytes(&acc);
        if trimmed.len() == 0 {
            None
        } else {
            Some(trimmed)
        }
    }
}

/// Evaluates a parameter model at a zoom level, mirroring
/// [`Parameter::spec_eval`].
pub open spec fn param_model_eval(p: ParameterModel, zoom: i64) -> Option<StyleValue> {
    match p {
        ParameterModel::Constant(c) => c,
        ParameterModel::ZoomFunction(z) => Some(spec_stops_eval(z.stops, zoom)),
        ParameterModel::CameraExpression => None,
    }
}


/// The declared paint properties of a layer.
#[derive(Debug)]
pub struct PaintFields {
    pub background_color: Field,
    pub line_color: Field,
    pub line_opacity: Field,
    pub line_width: Field,
    pub line_dasharray: Option<Vec<i64>>,
    pub line_gap_width: Option<Exists>,
    pub fill_antialias: Field,
    pub fill_color: Field,
    pub fill_opacity: Field,
    pub fill_outline_color: Field,
    pub fill_translate: Field,
    pub fill_pattern: Option<Exists>,
    pub text_color: Field,
    pub text_opacity: Field,
    pub text_halo_blur: Field,
    pub text_halo_color: Field,
    pub text_halo_width: Field,
}

impl PaintFields {
    pub open spec fn wf(self) -> bool {
        &&& self.background_color.wf()
        &&& self.line_color.wf()
        &&& self.line_opacity.wf()
        &&& self.line_width.wf()
        &&& self.fill_antialias.wf()
        &&& self.fill_color.wf()
        &&& self.fill_opacity.wf()
        &&& self.fill_outline_color.wf()
        &&& self.fill_translate.wf()
        &&& !(self.fill_translate is DataExpression)
        &&& self.text_color.wf()
        &&& self.text_opacity.wf()
        &&& self.text_halo_blur.wf()
        &&& self.text_halo_color.wf()
        &&& self.text_halo_width.wf()
    }

    /// Evaluates every paint property against one feature; the results stay
    /// zoom-dependent where the document declared stops.
    pub fn eval(&self, view: &FeatureView<'_>) -> (r: Paint)
        requires
            self.wf(),
        ensures
            r.background_color@ == self.background_color.spec_eval(ValueKind::Shade, *view),
            r.line_color@ == self.line_color.spec_eval(ValueKind::Shade, *view),
            r.line_opacity@ == self.line_opacity.spec_eval(ValueKind::Num, *view),
            r.line_width@ == self.line_width.spec_eval(ValueKind::Num, *view),
            r.fill_antialias@ == self.fill_antialias.spec_eval(ValueKind::Truth, *view),
            r.fill_color@ == self.fill_color.spec_eval(ValueKind::Shade, *view),
            r.fill_opacity@ == self.fill_opacity.spec_eval(ValueKind::Num, *view),
            r.fill_outline_color@ == self.fill_outline_color.spec_eval(ValueKind::Shade, *view),
            r.fill_translate@ == self.fill_translate.spec_eval(ValueKind::Pair, *view),
            r.text_color@ == self.text_color.spec_eval(ValueKind::Shade, *view),
            r.text_opacity@ == self.text_opacity.spec_eval(ValueKind::Num, *view),
            r.text_halo_blur@ == self.text_halo_blur.spec_eval(ValueKind::Num, *view),
            r.text_halo_color@ == self.text_halo_color.spec_eval(ValueKind::Shade, *view),
            r.text_halo_width@ == self.text_halo_width.spec_eval(ValueKind::Num, *view),
            match (&r.line_dasharray, &self.line_dasharray) {
                (Some(a), Some(b)) => a@ == b@,
                (None, None) => true,
                _ => false,
            },
            r.wf(),
    {
        Paint {
            background_color: self.background_color.eval(ValueKind::Shade, view),
            line_color: self.line_color.eval(ValueKind::Shade, view),
            line_opacity: self.line_opacity.eval(ValueKind::Num, view),
            line_width: self.line_width.eval(ValueKind::Num, view),
            line_dasharray: match &self.line_dasharray {
                Some(d) => Some(dup_nums(d)),
                None => None,
            },
            fill_antialias: self.fill_antialias.eval(ValueKind::Truth, view),
            fill_color: self.fill_color.eval(ValueKind::Shade, view),
            fill_opacity: self.fill_opacity.eval(ValueKind::Num, view),
            fill_outline_color: self.fill_outline_color.eval(ValueKind::Shade, view),
            fill_translate: self.fill_translate.eval(ValueKind::Pair, view),
            text_color: self.text_color.eval(ValueKind::Shade, view),
            text_opacity: self.text_opacity.eval(ValueKind::Num, view),
            text_halo_blur: self.text_halo_blur.eval(ValueKind::Num, view),
            text_halo_color: self.text_halo_color.eval(ValueKind::Shade, view),
            text_halo_width: self.text_halo_width.eval(ValueKind::Num, view),
        }
    }

    /// Whether the layer uses a paint feature this pipeline cannot draw.
    pub fn unsupported(&self) -> (r: bool)
        ensures
            r == (self.fill_pattern is Some || self.line_gap_width is Some),
    {
        self.fill_pattern.is_some() || self.line_gap_width.is_some()
    }

    /// Whether any paint property reads the feature's attributes.
    pub fn is_computed_from_feature(&self) -> (r: bool)
        ensures
            r == (self.background_color.spec_reads_feature()
                || self.line_color.spec_reads_feature() || self.line_opacity.spec_reads_feature()
                || self.line_width.spec_reads_feature() || self.fill_antialias.spec_reads_feature()
                || self.fill_color.spec_reads_feature() || self.fill_opacity.spec_reads_feature()
                || self.fill_outline_color.spec_reads_feature()
                || self.fill_translate.spec_reads_feature() || self.text_color.spec_reads_feature()
                || self.text_opacity.spec_reads_feature()
                || self.text_halo_blur.spec_reads_feature()
                || self.text_halo_color.spec_reads_feature()
                || self.text_halo_width.spec_reads_feature()),
    {
        self.background_color.is_computed_from_feature() || self.line_color.is_computed_from_feature()
            || self.line_opacity.is_computed_from_feature()
            || self.line_width.is_computed_from_feature()
            || self.fill_antialias.is_computed_from_feature()
            || self.fill_color.is_computed_from_feature()
            || self.fill_opacity.is_computed_from_feature()
            || self.fill_outline_color.is_computed_from_feature()
            || self.fill_translate.is_computed_from_feature()
            || self.text_color.is_computed_from_feature()
            || self.text_opacity.is_computed_from_feature()
            || self.text_halo_blur.is_computed_from_feature()
            || self.text_halo_color.is_computed_from_feature()
            || self.text_halo_width.is_computed_from_feature()
    }
}

/// Copies a number list.
#[verifier::loop_isolation(false)]
fn dup_nums(v: &Vec<i64>) -> (r: Vec<i64>)
    ensures
        r@ == v@,
{
    let mut out: Vec<i64> = Vec::new();
    let n = v.len();
    let mut i: usize = 0;
    while i < n
        invariant
            0 <= i <= n,
            out@ == v@.subrange(0, i as int),
        decreases n - i,
    {
        out.push(v[i]);
        assert(out@ =~= v@.subrange(0, i + 1 as int));
        i += 1;
    }
    assert(out@ =~= v@);
    out
}

/// A layer's paint after feature evaluation, still zoom-dependent. Equal
/// paints mark geometry that may share one draw call.
#[derive(Debug)]
pub struct Paint {
    pub background_color: Parameter,
    pub line_color: Parameter,
    pub line_opacity: Parameter,
    pub line_width: Parameter,
    pub line_dasharray: Option<Vec<i64>>,
    pub fill_antialias: Parameter,
    pub fill_color: Parameter,
    pub fill_opacity: Parameter,
    pub fill_outline_color: Parameter,
    pub fill_translate: Parameter,
    pub text_color: Parameter,
    pub text_opacity: Parameter,
    pub text_halo_blur: Parameter,
    pub text_halo_color: Parameter,
    pub text_halo_width: Parameter,
}

/// Mathematical model of a [`Paint`].
#[verifier::ext_equal]
pub struct PaintModel {
    pub background_color: ParameterModel,
    pub line_color: ParameterModel,
    pub line_opacity: ParameterModel,
    pub line_width: ParameterModel,
    pub line_dasharray: Option<Seq<i64>>,
    pub fill_antialias: ParameterModel,
    pub fill_color: ParameterModel,
    pub fill_opacity: ParameterModel,
    pub fill_outline_color: ParameterModel,
    pub fill_translate: ParameterModel,
    pub text_color: ParameterModel,
    pub text_opacity: ParameterModel,
    pub text_halo_blur: ParameterModel,
    pub text_halo_color: ParameterModel,
    pub text_halo_width: ParameterModel,
}

impl View for Paint {
    type V = PaintModel;

    open spec fn view(&self) -> PaintModel {
        PaintModel {
            background_color: self.background_color@,
            line_color: self.line_color@,
            line_opacity: self.line_opacity@,
            line_width: self.line_width@,
            line_dasharray: match self.line_dasharray {
                Some(d) => Some(d@),
                None => None,
            },
            fill_antialias: self.fill_antialias@,
            fill_color: self.fill_color@,
            fill_opacity: self.fill_opacity@,
            fill_outline_color: self.fill_outline_color@,
            fill_translate: self.fill_translate@,
            text_color: self.text_color@,
            text_opacity: self.text_opacity@,
            text_halo_blur: self.text_halo_blur@,
            text_halo_color: self.text_halo_color@,
            text_halo_width: self.text_halo_width@,
        }
    }
}

/// The color a parameter value carries, if any.
pub open spec fn opt_color(v: Option<StyleValue>) -> Option<Color> {
    match v {
        Some(StyleValue::Shade(c)) => Some(c),
        _ => None,
    }
}

/// The number a parameter value carries, if any.
pub open spec fn opt_num(v: Option<StyleValue>) -> Option<i64> {
    match v {
        Some(StyleValue::Num(n)) => Some(n),
        _ => None,
    }
}

/// A color and opacity property combined: the final alpha is the opacity
/// property's value when present, else the color's own declared alpha; a
/// missing color reads as opaque black.
pub open spec fn spec_combined_color(cp: Parameter, op: Parameter, zoom: i64) -> Color {
    match opt_color(cp.spec_eval(zoom)) {
        Some(c) => c.spec_with_alpha(
            match opt_num(op.spec_eval(zoom)) {
                Some(o) => o,
                None => c.spec_alpha(),
            },
        ),
        None => Color::Rgba(crate::style::color::Rgba { r: 0, g: 0, b: 0, a: 1000 }),
    }
}

fn combined_color(cp: &Parameter, op: &Parameter, zoom: i64) -> (r: Color)
    requires
        cp.wf(),
        op.wf(),
        bounded(zoom),
    ensures
        r == spec_combined_color(*cp, *op, zoom),
{
    match cp.eval(zoom) {
        Some(StyleValue::Shade(c)) => {
            let alpha = match op.eval(zoom) {
                Some(StyleValue::Num(o)) => o,
                _ => c.alpha(),
            };
            c.with_alpha(alpha)
        },
        _ => Color::Rgba(crate::style::color::Rgba { r: 0, g: 0, b: 0, a: 1000 }),
    }
}

impl Paint {
    pub open spec fn wf(self) -> bool {
        &&& self.background_color.wf()
        &&& self.line_color.wf()
        &&& self.line_opacity.wf()
        &&& self.line_width.wf()
        &&& self.fill_antialias.wf()
        &&& self.fill_color.wf()
        &&& self.fill_opacity.wf()
        &&& self.fill_outline_color.wf()
        &&& self.fill_translate.wf()
        &&& self.text_color.wf()
        &&& self.text_opacity.wf()
        &&& self.text_halo_blur.wf()
        &&& self.text_halo_color.wf()
        &&& self.text_halo_width.wf()
    }

    /// The background color; opaque black when undeclared.
    pub fn background_color(&self, zoom: i64) -> (r: Color)
        requires
            self.wf(),
            bounded(zoom),
        ensures
            r == match opt_color(self.background_color.spec_eval(zoom)) {
                Some(c) => c,
                None => Color::Rgba(crate::style::color::Rgba { r: 0, g: 0, b: 0, a: 1000 }),
            },
    {
        match self.background_color.eval(zoom) {
            Some(StyleValue::Shade(c)) => c,
            _ => Color::Rgba(crate::style::color::Rgba { r: 0, g: 0, b: 0, a: 1000 }),
        }
    }

    /// Whether fills are antialiased; true when undeclared.
    pub fn fill_antialias(&self, zoom: i64) -> (r: bool)
        requires
            self.wf(),
            bounded(zoom),
        ensures
            r == match self.fill_antialias.spec_eval(zoom) {
                Some(StyleValue::Truth(b)) => b,
                _ => true,
            },
    {
        match self.fill_antialias.eval(zoom) {
            Some(StyleValue::Truth(b)) => b,
            _ => true,
        }
    }

    /// The fill color with the fill opacity folded into its alpha.
    pub fn fill_color(&self, zoom: i64) -> (r: Color)
        requires
            self.wf(),
            bounded(zoom),
        ensures
            r == spec_combined_color(self.fill_color, self.fill_opacity, zoom),
    {
        combined_color(&self.fill_color, &self.fill_opacity, zoom)
    }

    /// The fill outline color, when declared, with the fill opacity folded
    /// into its alpha.
    pub fn fill_outline_color(&self, zoom: i64) -> (r: Option<Color>)
        requires
            self.wf(),
            bounded(zoom),
        ensures
            r == match opt_color(self.fill_outline_color.spec_eval(zoom)) {
                Some(c) => Some(
                    c.spec_with_alpha(
                        match opt_num(self.fill_opacity.spec_eval(zoom)) {
                            Some(o) => o,
                            None => c.spec_alpha(),
                        },
                    ),
                ),
                None => None::<Color>,
            },
    {
        match self.fill_outline_color.eval(zoom) {
            Some(StyleValue::Shade(c)) => {
                let alpha = match self.fill_opacity.eval(zoom) {
                    Some(StyleValue::Num(o)) => o,
                    _ => c.alpha(),
                };
                Some(c.with_alpha(alpha))
            },
            _ => None,
        }
    }

    /// The fill translation; zero when undeclared.
    pub fn fill_translate(&self, zoom: i64) -> (r: (i64, i64))
        requires
            self.wf(),
            bounded(zoom),
        ensures
            r == match self.fill_translate.spec_eval(zoom) {
                Some(StyleValue::Pair(a, b)) => (a, b),
                _ => (0i64, 0i64),
            },
            bounded(r.0) && bounded(r.1),
    {
        match self.fill_translate.eval(zoom) {
            Some(StyleValue::Pair(a, b)) => (a, b),
            _ => (0, 0),
        }
    }

    /// The line color with the line opacity folded into its alpha.
    pub fn line_color(&self, zoom: i64) -> (r: Color)
        requires
            self.wf(),
            bounded(zoom),
        ensures
            r == spec_combined_color(self.line_color, self.line_opacity, zoom),
    {
        combined_color(&self.line_color, &self.line_opacity, zoom)
    }

    /// The text color with the text opacity folded into its alpha.
    pub fn text_color(&self, zoom: i64) -> (r: Color)
        requires
            self.wf(),
            bounded(zoom),
        ensures
            r == spec_combined_color(self.text_color, self.text_opacity, zoom),
    {
        combined_color(&self.text_color, &self.text_opacity, zoom)
    }

    /// The halo blur radius; zero when undeclared.
    pub fn text_halo_blur(&self, zoom: i64) -> (r: i64)
        requires
            self.wf(),
            bounded(zoom),
        ensures
            r == match opt_num(self.text_halo_blur.spec_eval(zoom)) {
                Some(n) => n,
                None => 0i64,
            },
            bounded(r),
    {
        match self.text_halo_blur.eval(zoom) {
            Some(StyleValue::Num(n)) => n,
            _ => 0,
        }
    }

    /// The halo color; opaque black when undeclared.
    pub fn text_halo_color(&self, zoom: i64) -> (r: Color)
        requires
            self.wf(),
            bounded(zoom),
        ensures
            r == match opt_color(self.text_halo_color.spec_eval(zoom)) {
                Some(c) => c,
                None => Color::Rgba(crate::style::color::Rgba { r: 0, g: 0, b: 0, a: 1000 }),
            },
    {
        match self.text_halo_color.eval(zoom) {
            Some(StyleValue::Shade(c)) => c,
            _ => Color::Rgba(crate::style::color::Rgba { r: 0, g: 0, b: 0, a: 1000 }),
        }
    }

    /// The halo width; zero when undeclared.
    pub fn text_halo_width(&self, zoom: i64) -> (r: i64)
        requires
            self.wf(),
            bounded(zoom),
        ensures
            r == match opt_num(self.text_halo_width.spec_eval(zoom)) {
                Some(n) => n,
                None => 0i64,
            },
            bounded(r),
    {
        match self.text_halo_width.eval(zoom) {
            Some(StyleValue::Num(n)) => n,
            _ => 0,
        }
    }

    /// The line width; one when undeclared.
    pub fn line_width(&self, zoom: i64) -> (r: i64)
        requires
            self.wf(),
            bounded(zoom),
        ensures
            r == match opt_num(self.line_width.spec_eval(zoom)) {
                Some(n) => n,
                None => 1000i64,
            },
            bounded(r),
    {
        match self.line_width.eval(zoom) {
            Some(StyleValue::Num(n)) => n,
            _ => 1000,
        }
    }

    /// The dash pattern; empty when undeclared.
    pub fn line_dasharray(&self) -> (r: Vec<i64>)
        ensures
            r@ == match self.line_dasharray {
                Some(d) => d@,
                None => Seq::<i64>::empty(),
            },
    {
        match &self.line_dasharray {
            Some(d) => dup_nums(d),
            None => {
                let r: Vec<i64> = Vec::new();
                assert(r@ =~= Seq::<i64>::empty());
                r
            },
        }
    }

    /// An owned copy.
    pub fn dup(&self) -> (r: Paint)
        ensures
            r@ == self@,
            r.wf() == self.wf(),
    {
        Paint {
            background_color: self.background_color.dup(),
            line_color: self.line_color.dup(),
            line_opacity: self.line_opacity.dup(),
            line_width: self.line_width.dup(),
            line_dasharray: match &self.line_dasharray {
                Some(d) => Some(dup_nums(d)),
                None => None,
            },
            fill_antialias: self.fill_antialias.dup(),
            fill_color: self.fill_color.dup(),
            fill_opacity: self.fill_opacity.dup(),
            fill_outline_color: self.fill_outline_color.dup(),
            fill_translate: self.fill_translate.dup(),
            text_color: self.text_color.dup(),
            text_opacity: self.text_opacity.dup(),
            text_halo_blur: self.text_halo_blur.dup(),
            text_halo_color: self.text_halo_color.dup(),
            text_halo_width: self.text_halo_width.dup(),
        }
    }
}

/// One style layer.
#[derive(Debug)]
pub struct Layer {
    pub id: Vec<u8>,
    pub source: Option<crate::style::source::SourceId>,
    pub kind: LayerType,
    pub layer: Option<Vec<u8>>,
    pub minzoom: Option<i64>,
    pub maxzoom: Option<i64>,
    pub filter: Filter,
    pub layout: Layout,
    pub paint: PaintFields,
}

impl Layer {
    pub open spec fn wf(self) -> bool {
        &&& self.layout.wf()
        &&& self.paint.wf()
        &&& match self.minzoom {
            Some(z) => bounded(z),
            None => true,
        }
        &&& match self.maxzoom {
            Some(z) => bounded(z),
            None => true,
        }
    }

    /// Whether the layer's filter passes a feature.
    pub fn filter(&self, features: &FeatureView<'_>) -> (r: bool)
        ensures
            r == self.filter.spec_eval(*features),
    {
        self.filter.eval(features)
    }
}

/// A style document: its sources and its layers, in declaration order.
#[derive(Debug)]
pub struct Style {
    pub sources: crate::style::source::SourceCollection,
    pub layers: Vec<Layer>,
}

impl Style {
    pub open spec fn wf(self) -> bool {
        &&& self.sources.wf()
        &&& forall|i: int| 0 <= i < self.layers@.len() ==> (#[trigger] self.layers@[i]).wf()
    }
}

} // verus!

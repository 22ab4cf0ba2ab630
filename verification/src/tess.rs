//! Per-feature style resolution and draw-command batching.
//!
//! For each visible feature, the paint properties are evaluated against the
//! feature once ([`FeaturePaint`]); zoom evaluation happens per frame
//! ([`FeatureStyle`]). The batcher groups contiguous geometry whose resolved
//! paint is identical into single draw ranges.
//!
//! Widths and translations of a [`FeatureStyle`] are in fixed-point display
//! pixels: tile-local values scale by the display factor of two.

use vstd::prelude::*;

use crate::num::bounded;
use crate::style::color::Color;
use crate::style::{
    opt_color, opt_num, spec_combined_color, Layer, LayerType, LineCap, LineJoin, Paint,
    PaintModel, Parameter, StyleValue, Visibility,
};
use crate::text::{LabelDraw, LabelModel};
use crate::tile::FeatureView;

verus! {

/// The display scale factor applied to widths and translations.
pub const TILE_SCALE: i64 = 2;

/// Whether a layer draws a feature at all: the paint must be supported, the
/// layer visible and inside its zoom range, the layer kind drawable (raster
/// and extrusion layers never draw here), and the filter must pass.
pub open spec fn spec_visible(layer: Layer, view: FeatureView<'_>, zoom: i64) -> bool {
    &&& !(layer.paint.fill_pattern is Some || layer.paint.line_gap_width is Some)
    &&& layer.layout.visibility == Visibility::Visible
    &&& match layer.minzoom {
        Some(z) => zoom >= z,
        None => true,
    }
    &&& match layer.maxzoom {
        Some(z) => zoom <= z,
        None => true,
    }
    &&& !(layer.kind is Raster || layer.kind is FillExtrusion)
    &&& layer.filter.spec_eval(view)
}

/// The per-feature layout context of one layer.
pub struct FeatureLayout<'a> {
    pub kind: LayerType,
    pub line_cap: LineCap,
    pub line_join: LineJoin,
    pub view: FeatureView<'a>,
    pub style: &'a Layer,
    pub zoom: i64,
}

impl<'a> FeatureLayout<'a> {
    pub fn new(view: FeatureView<'a>, style: &'a Layer, zoom: i64) -> (r: FeatureLayout<'a>)
        ensures
            r.kind == style.kind,
            r.line_cap == style.layout.line_cap,
            r.line_join == style.layout.line_join,
            r.view == view,
            r.style == style,
            r.zoom == zoom,
    {
        FeatureLayout {
            kind: style.kind,
            line_cap: style.layout.line_cap,
            line_join: style.layout.line_join,
            view,
            style,
            zoom,
        }
    }

    /// Whether this feature is drawn; see [`spec_visible`].
    pub fn visible(&self) -> (r: bool)
        ensures
            r == spec_visible(*self.style, self.view, self.zoom),
    {
        let supported = !self.style.paint.unsupported();
        let visible = matches!(self.style.layout.visibility, Visibility::Visible);
        let in_zoom = (match self.style.minzoom {
            Some(z) => self.zoom >= z,
            None => true,
        }) && (match self.style.maxzoom {
            Some(z) => self.zoom <= z,
            None => true,
        });
        let valid_type = !(matches!(self.style.kind, LayerType::Raster) || matches!(
            self.style.kind,
            LayerType::FillExtrusion,
        ));
        valid_type && supported && visible && in_zoom && self.style.filter(&self.view)
    }

    /// The label text of this feature, if any.
    pub fn text(&self) -> (r: Option<Vec<u8>>)
        ensures
            match (r, self.style.layout.spec_text(self.view)) {
                (Some(v), Some(sv)) => v@ == sv,
                (None, None) => true,
                _ => false,
            },
    {
        self.style.layout.text(&self.view)
    }

    /// The text size in display pixels: the layout's size times the display
    /// scale.
    pub fn text_size(&self) -> (r: i64)
        requires
            self.style.wf(),
            bounded(self.zoom),
        ensures
            r == self.style.layout.spec_text_size(self.view, self.zoom) * TILE_SCALE,
    {
        self.style.layout.text_size(&self.view, self.zoom) * TILE_SCALE
    }

    /// The maximum label line width in display units.
    pub fn text_max_width(&self) -> (r: i64)
        requires
            self.style.wf(),
        ensures
            r == (match self.style.layout.text_max_width {
                Some(w) => w,
                None => 10_000i64,
            }) * TILE_SCALE,
    {
        self.style.layout.text_max_width() * TILE_SCALE
    }
}

/// A feature's paint, evaluated against the feature but still
/// zoom-dependent. Equal feature paints mark geometry that may share one
/// draw call.
pub struct FeaturePaint {
    pub paint: Paint,
    pub kind: LayerType,
}

/// Mathematical model of a [`FeaturePaint`].
#[verifier::ext_equal]
pub struct FeaturePaintModel {
    pub paint: PaintModel,
    pub kind: LayerType,
}

impl View for FeaturePaint {
    type V = FeaturePaintModel;

    open spec fn view(&self) -> FeaturePaintModel {
        FeaturePaintModel { paint: self.paint@, kind: self.kind }
    }
}

impl FeaturePaint {
    pub open spec fn wf(self) -> bool {
        self.paint.wf()
    }

    /// Evaluates a layer's paint against one feature.
    pub fn new(style_layer: &Layer, features: &FeatureView<'_>) -> (r: FeaturePaint)
        requires
            style_layer.wf(),
        ensures
            r.kind == style_layer.kind,
            r.wf(),
            r.paint.background_color@ == style_layer.paint.background_color.spec_eval(
                crate::style::ValueKind::Shade,
                *features,
            ),
            r.paint.fill_color@ == style_layer.paint.fill_color.spec_eval(
                crate::style::ValueKind::Shade,
                *features,
            ),
            r.paint.line_color@ == style_layer.paint.line_color.spec_eval(
                crate::style::ValueKind::Shade,
                *features,
            ),
            r.paint.line_width@ == style_layer.paint.line_width.spec_eval(
                crate::style::ValueKind::Num,
                *features,
            ),
            r.paint.line_opacity@ == style_layer.paint.line_opacity.spec_eval(
                crate::style::ValueKind::Num,
                *features,
            ),
            r.paint.fill_antialias@ == style_layer.paint.fill_antialias.spec_eval(
                crate::style::ValueKind::Truth,
                *features,
            ),
            r.paint.fill_opacity@ == style_layer.paint.fill_opacity.spec_eval(
                crate::style::ValueKind::Num,
                *features,
            ),
            r.paint.fill_outline_color@ == style_layer.paint.fill_outline_color.spec_eval(
                crate::style::ValueKind::Shade,
                *features,
            ),
            r.paint.fill_translate@ == style_layer.paint.fill_translate.spec_eval(
                crate::style::ValueKind::Pair,
                *features,
            ),
            r.paint.text_color@ == style_layer.paint.text_color.spec_eval(
                crate::style::ValueKind::Shade,
                *features,
            ),
            r.paint.text_opacity@ == style_layer.paint.text_opacity.spec_eval(
                crate::style::ValueKind::Num,
                *features,
            ),
            r.paint.text_halo_blur@ == style_layer.paint.text_halo_blur.spec_eval(
                crate::style::ValueKind::Num,
                *features,
            ),
            r.paint.text_halo_color@ == style_layer.paint.text_halo_color.spec_eval(
                crate::style::ValueKind::Shade,
                *features,
            ),
            r.paint.text_halo_width@ == style_layer.paint.text_halo_width.spec_eval(
                crate::style::ValueKind::Num,
                *features,
            ),
            match (&r.paint.line_dasharray, &style_layer.paint.line_dasharray) {
                (Some(a), Some(b)) => a@ == b@,
                (None, None) => true,
                _ => false,
            },
    {
        FeaturePaint { paint: style_layer.paint.eval(features), kind: style_layer.kind }
    }

    /// An owned copy.
    pub fn dup(&self) -> (r: FeaturePaint)
        ensures
            r@ == self@,
            r.wf() == self.wf(),
    {
        FeaturePaint { paint: self.paint.dup(), kind: self.kind }
    }

    /// The zoom-evaluated style snapshot used to draw this feature.
    pub fn style(&self, zoom: i64) -> (r: FeatureStyle)
        requires
            self.wf(),
            bounded(zoom),
        ensures
            r.kind == self.kind,
            r.background_color == (match opt_color(self.paint.background_color.spec_eval(zoom)) {
                Some(c) => c,
                None => Color::Rgba(crate::style::color::Rgba { r: 0, g: 0, b: 0, a: 1000 }),
            }),
            r.fill_color == spec_combined_color(self.paint.fill_color, self.paint.fill_opacity, zoom),
            r.line_color == spec_combined_color(self.paint.line_color, self.paint.line_opacity, zoom),
            r.fill_outline_color == (match opt_color(self.paint.fill_outline_color.spec_eval(zoom)) {
                Some(c) => Some(
                    c.spec_with_alpha(
                        match opt_num(self.paint.fill_opacity.spec_eval(zoom)) {
                            Some(o) => o,
                            None => c.spec_alpha(),
                        },
                    ),
                ),
                None => None::<Color>,
            }),
            r.line_width == (match opt_num(self.paint.line_width.spec_eval(zoom)) {
                Some(n) => n,
                None => 1000i64,
            }),
            r.fill_translate == (match self.paint.fill_translate.spec_eval(zoom) {
                Some(StyleValue::Pair(a, b)) => (a, b),
                _ => (0i64, 0i64),
            }),
            r.text_color == spec_combined_color(self.paint.text_color, self.paint.text_opacity, zoom),
            r.text_halo_color == (match opt_color(self.paint.text_halo_color.spec_eval(zoom)) {
                Some(c) => c,
                None => Color::Rgba(crate::style::color::Rgba { r: 0, g: 0, b: 0, a: 1000 }),
            }),
            r.text_halo_width == (match opt_num(self.paint.text_halo_width.spec_eval(zoom)) {
                Some(n) => n,
                None => 0i64,
            }),
            r.line_dasharray@ == (match self.paint.line_dasharray {
                Some(d) => d@,
                None => Seq::<i64>::empty(),
            }),
            r.wf(),
    {
        FeatureStyle {
            background_color: self.paint.background_color(zoom),
            line_color: self.paint.line_color(zoom),
            fill_color: self.paint.fill_color(zoom),
            fill_outline_color: self.paint.fill_outline_color(zoom),
            line_width: self.paint.line_width(zoom),
            fill_translate: self.paint.fill_translate(zoom),
            text_color: self.paint.text_color(zoom),
            text_halo_width: self.paint.text_halo_width(zoom),
            text_halo_color: self.paint.text_halo_color(zoom),
            line_dasharray: self.paint.line_dasharray(),
            kind: self.kind,
        }
    }
}

/// The final zoom-evaluated style of one feature: everything a renderer needs
/// to set up a draw call.
pub struct FeatureStyle {
    pub background_color: Color,
    pub line_color: Color,
    pub fill_color: Color,
    pub fill_outline_color: Option<Color>,
    pub line_width: i64,
    pub kind: LayerType,
    pub fill_translate: (i64, i64),
    pub text_color: Color,
    pub text_halo_width: i64,
    pub text_halo_color: Color,
    pub line_dasharray: Vec<i64>,
}

impl FeatureStyle {
    pub open spec fn wf(self) -> bool {
        &&& bounded(self.line_width)
        &&& bounded(self.fill_translate.0)
        &&& bounded(self.fill_translate.1)
        &&& bounded(self.text_halo_width)
    }

    /// The fill color; background layers fill with their background color.
    pub fn fill_color(&self) -> (r: Color)
        ensures
            r == if self.kind is Background {
                self.background_color
            } else {
                self.fill_color
            },
    {
        match self.kind {
            LayerType::Background => self.background_color,
            _ => self.fill_color,
        }
    }

    /// The declared fill outline color, if any.
    pub fn fill_outline_color(&self) -> (r: Option<Color>)
        ensures
            r == self.fill_outline_color,
    {
        self.fill_outline_color
    }

    /// The stroke color: fill layers stroke with their outline color when
    /// declared, every layer else with its line color.
    pub fn line_color(&self) -> (r: Color)
        ensures
            r == if self.kind is Fill {
                match self.fill_outline_color {
                    Some(c) => c,
                    None => self.line_color,
                }
            } else {
                self.line_color
            },
    {
        match self.kind {
            LayerType::Fill => match self.fill_outline_color {
                Some(c) => c,
                None => self.line_color,
            },
            _ => self.line_color,
        }
    }

    pub fn kind(&self) -> (r: LayerType)
        ensures
            r == self.kind,
    {
        self.kind
    }

    /// The stroke width in display pixels.
    pub fn line_width(&self) -> (r: i64)
        requires
            self.wf(),
        ensures
            r == self.line_width * TILE_SCALE,
    {
        self.line_width * TILE_SCALE
    }

    /// The fill translation in display pixels.
    pub fn fill_translate(&self) -> (r: (i64, i64))
        requires
            self.wf(),
        ensures
            r == ((self.fill_translate.0 * TILE_SCALE) as i64, (self.fill_translate.1
                * TILE_SCALE) as i64),
    {
        (self.fill_translate.0 * TILE_SCALE, self.fill_translate.1 * TILE_SCALE)
    }

    /// The stroke translation: fill layers translate their outline with the
    /// fill, other layers do not translate.
    pub fn line_translate(&self) -> (r: (i64, i64))
        requires
            self.wf(),
        ensures
            r == if self.kind is Fill {
                ((self.fill_translate.0 * TILE_SCALE) as i64, (self.fill_translate.1
                    * TILE_SCALE) as i64)
            } else {
                (0i64, 0i64)
            },
    {
        match self.kind {
            LayerType::Fill => self.fill_translate(),
            _ => (0, 0),
        }
    }

    pub fn text_color(&self) -> (r: Color)
        ensures
            r == self.text_color,
    {
        self.text_color
    }

    pub fn text_halo_color(&self) -> (r: Color)
        ensures
            r == self.text_halo_color,
    {
        self.text_halo_color
    }

    /// The halo width in display pixels.
    pub fn text_halo_width(&self) -> (r: i64)
        requires
            self.wf(),
        ensures
            r == self.text_halo_width * TILE_SCALE,
    {
        self.text_halo_width * TILE_SCALE
    }

    /// The dash pattern.
    pub fn line_dasharray(&self) -> (r: Vec<i64>)
        ensures
            r@ == self.line_dasharray@,
    {
        let mut out: Vec<i64> = Vec::new();
        let n = self.line_dasharray.len();
        let mut i: usize = 0;
        while i < n
            invariant
                0 <= i <= n,
                n == self.line_dasharray@.len(),
                out@ == self.line_dasharray@.subrange(0, i as int),
            decreases n - i,
        {
            out.push(self.line_dasharray[i]);
            assert(out@ =~= self.line_dasharray@.subrange(0, i + 1 as int));
            i += 1;
        }
        assert(out@ =~= self.line_dasharray@);
        out
    }
}

/// Compares two evaluated parameters by value.
#[verifier::loop_isolation(false)]
fn param_eq(a: &Parameter, b: &Parameter) -> (r: bool)
    ensures
        r == (a@ == b@),
{
    match (a, b) {
        (Parameter::Constant(x), Parameter::Constant(y)) => match (x, y) {
            (Some(u), Some(v)) => *u == *v,
            (None, None) => true,
            _ => false,
        },
        (Parameter::ZoomFunction(x), Parameter::ZoomFunction(y)) => {
            let base_eq = match (x.base, y.base) {
                (Some(u), Some(v)) => u == v,
                (None, None) => true,
                _ => false,
            };
            if !base_eq {
                proof {
                    assert(x@.base == x.base && y@.base == y.base);
                    if a@ == b@ {
                        assert(x@ == y@);
                    }
                }
                return false;
            }
            let n = x.stops.len();
            if n != y.stops.len() {
                proof {
                    if a@ == b@ {
                        assert(x@ == y@);
                        assert(x@.stops.len() == y@.stops.len());
                    }
                }
                return false;
            }
            let mut i: usize = 0;
            while i < n
                invariant
                    0 <= i <= n,
                    n == x.stops@.len() == y.stops@.len(),
                    forall|j: int| 0 <= j < i ==> x.stops@[j] == y.stops@[j],
                decreases n - i,
            {
                let (za, va) = x.stops[i];
                let (zb, vb) = y.stops[i];
                if za != zb || va != vb {
                    proof {
                        assert(x.stops@[i as int] == (za, va) && y.stops@[i as int] == (zb, vb));
                        if a@ == b@ {
                            assert(x@.stops == y@.stops);
                            assert(x@.stops[i as int] == y@.stops[i as int]);
                        }
                    }
                    return false;
                }
                assert(x.stops@[i as int] == y.stops@[i as int]) by {
                    assert(x.stops@[i as int] == (za, va) && y.stops@[i as int] == (zb, vb));
                }
                i += 1;
            }
            assert(x.stops@ =~= y.stops@);
            assert(a@ =~= b@);
            true
        },
        (Parameter::CameraExpression(_), Parameter::CameraExpression(_)) => true,
        _ => {
            assert(a@ != b@);
            false
        },
    }
}

/// Compares two optional dash patterns by value.
#[verifier::loop_isolation(false)]
fn dash_eq(a: &Option<Vec<i64>>, b: &Option<Vec<i64>>) -> (r: bool)
    ensures
        r == (match (a, b) {
            (Some(x), Some(y)) => x@ == y@,
            (None, None) => true,
            _ => false,
        }),
{
    match (a, b) {
        (Some(x), Some(y)) => {
            let n = x.len();
            if n != y.len() {
                proof {
                    if x@ == y@ {
                        assert(x@.len() == y@.len());
                    }
                }
                return false;
            }
            let mut i: usize = 0;
            while i < n
                invariant
                    0 <= i <= n,
                    n == x@.len() == y@.len(),
                    forall|j: int| 0 <= j < i ==> x@[j] == y@[j],
                decreases n - i,
            {
                if x[i] != y[i] {
                    proof {
                        if x@ == y@ {
                            assert(x@[i as int] == y@[i as int]);
                        }
                    }
                    return false;
                }
                i += 1;
            }
            assert(x@ =~= y@);
            true
        },
        (None, None) => true,
        _ => false,
    }
}

/// Compares two feature paints by value: the batching key of draw commands.
pub fn paint_eq(a: &FeaturePaint, b: &FeaturePaint) -> (r: bool)
    ensures
        r == (a@ == b@),
{
    if !matches!((a.kind, b.kind), (LayerType::Background, LayerType::Background) | (
        LayerType::Fill,
        LayerType::Fill,
    ) | (LayerType::Line, LayerType::Line) | (LayerType::Symbol, LayerType::Symbol) | (
        LayerType::Raster,
        LayerType::Raster,
    ) | (LayerType::FillExtrusion, LayerType::FillExtrusion)) {
        assert(a.kind != b.kind);
        return false;
    }
    let pe = param_eq(&a.paint.background_color, &b.paint.background_color) && param_eq(
        &a.paint.line_color,
        &b.paint.line_color,
    ) && param_eq(&a.paint.line_opacity, &b.paint.line_opacity) && param_eq(
        &a.paint.line_width,
        &b.paint.line_width,
    ) && dash_eq(&a.paint.line_dasharray, &b.paint.line_dasharray) && param_eq(
        &a.paint.fill_antialias,
        &b.paint.fill_antialias,
    ) && param_eq(&a.paint.fill_color, &b.paint.fill_color) && param_eq(
        &a.paint.fill_opacity,
        &b.paint.fill_opacity,
    ) && param_eq(&a.paint.fill_outline_color, &b.paint.fill_outline_color) && param_eq(
        &a.paint.fill_translate,
        &b.paint.fill_translate,
    ) && param_eq(&a.paint.text_color, &b.paint.text_color) && param_eq(
        &a.paint.text_opacity,
        &b.paint.text_opacity,
    ) && param_eq(&a.paint.text_halo_blur, &b.paint.text_halo_blur) && param_eq(
        &a.paint.text_halo_color,
        &b.paint.text_halo_color,
    ) && param_eq(&a.paint.text_halo_width, &b.paint.text_halo_width);
    if pe {
        assert(a.paint@ =~= b.paint@);
        assert(a@ =~= b@);
    } else {
        assert(a@ != b@);
    }
    pe
}

/// One draw range: a paint and the index span drawn with it.
pub struct FeatureDraw {
    pub paint: FeaturePaint,
    pub elements: core::ops::Range<usize>,
}

/// Mathematical model of a [`FeatureDraw`].
#[verifier::ext_equal]
pub struct FeatureDrawModel {
    pub paint: FeaturePaintModel,
    pub start: int,
    pub end: int,
}

impl View for FeatureDraw {
    type V = FeatureDrawModel;

    open spec fn view(&self) -> FeatureDrawModel {
        FeatureDrawModel {
            paint: self.paint@,
            start: self.elements.start as int,
            end: self.elements.end as int,
        }
    }
}

/// The labels of one layer that share a resolved paint.
pub struct LayerLabelDraw {
    pub paint: FeaturePaint,
    pub labels: Vec<LabelDraw>,
}

/// Mathematical model of a [`LayerLabelDraw`].
#[verifier::ext_equal]
pub struct LayerLabelModel {
    pub paint: FeaturePaintModel,
    pub labels: Seq<LabelModel>,
}

impl View for LayerLabelDraw {
    type V = LayerLabelModel;

    open spec fn view(&self) -> LayerLabelModel {
        LayerLabelModel {
            paint: self.paint@,
            labels: self.labels@.map_values(|l: LabelDraw| l@),
        }
    }
}

/// The accumulating draw-command state of one tile.
pub struct DrawCommands {
    pub feature_draw: Vec<FeatureDraw>,
    pub labels: Vec<LayerLabelDraw>,
    pub layer_labels: Vec<LabelDraw>,
    pub last_paint: Option<FeaturePaint>,
    pub draw_range_start: usize,
}

/// Mathematical model of the batcher state.
#[verifier::ext_equal]
pub struct DrawState {
    pub feature_draw: Seq<FeatureDrawModel>,
    pub labels: Seq<LayerLabelModel>,
    pub layer_labels: Seq<LabelModel>,
    pub last_paint: Option<FeaturePaintModel>,
    pub draw_range_start: int,
}

impl View for DrawCommands {
    type V = DrawState;

    open spec fn view(&self) -> DrawState {
        DrawState {
            feature_draw: self.feature_draw@.map_values(|d: FeatureDraw| d@),
            labels: self.labels@.map_values(|l: LayerLabelDraw| l@),
            layer_labels: self.layer_labels@.map_values(|l: LabelDraw| l@),
            last_paint: match &self.last_paint {
                Some(p) => Some(p@),
                None => None,
            },
            draw_range_start: self.draw_range_start as int,
        }
    }
}

/// The batching rule, as one transition: when the resolved paint changes
/// (or ends), the previous run closes — its accumulated labels become one
/// label draw, and its index range, when non-empty, becomes one feature
/// draw — and the new paint (if any) starts the next run.
pub open spec fn spec_add_draw(
    s: DrawState,
    next: Option<FeaturePaintModel>,
    indices: int,
) -> DrawState {
    if (next is None || next != s.last_paint) && s.last_paint is Some {
        let last = s.last_paint.unwrap();
        let s1 = if s.layer_labels.len() > 0 {
            DrawState {
                labels: s.labels.push(LayerLabelModel { paint: last, labels: s.layer_labels }),
                layer_labels: Seq::empty(),
                ..s
            }
        } else {
            s
        };
        let s2 = if indices > s1.draw_range_start {
            DrawState {
                feature_draw: s1.feature_draw.push(
                    FeatureDrawModel { paint: last, start: s1.draw_range_start, end: indices },
                ),
                draw_range_start: indices,
                ..s1
            }
        } else {
            s1
        };
        DrawState { last_paint: next, ..s2 }
    } else if s.last_paint is None {
        DrawState { last_paint: next, ..s }
    } else {
        s
    }
}

impl DrawCommands {
    /// An empty batcher.
    pub fn new() -> (r: DrawCommands)
        ensures
            r@ == (DrawState {
                feature_draw: Seq::<FeatureDrawModel>::empty(),
                labels: Seq::<LayerLabelModel>::empty(),
                layer_labels: Seq::<LabelModel>::empty(),
                last_paint: None::<FeaturePaintModel>,
                draw_range_start: 0int,
            }),
    {
        let r = DrawCommands {
            feature_draw: Vec::new(),
            labels: Vec::new(),
            layer_labels: Vec::new(),
            last_paint: None,
            draw_range_start: 0,
        };
        proof {
            assert(r@ =~= DrawState {
                feature_draw: Seq::<FeatureDrawModel>::empty(),
                labels: Seq::<LayerLabelModel>::empty(),
                layer_labels: Seq::<LabelModel>::empty(),
                last_paint: None::<FeaturePaintModel>,
                draw_range_start: 0int,
            });
        }
        r
    }

    /// Forgets everything, for reuse on the next tile.
    pub fn clear(&mut self)
        ensures
            final(self)@ == (DrawState {
                feature_draw: Seq::<FeatureDrawModel>::empty(),
                labels: Seq::<LayerLabelModel>::empty(),
                layer_labels: Seq::<LabelModel>::empty(),
                last_paint: None::<FeaturePaintModel>,
                draw_range_start: 0int,
            }),
    {
        self.feature_draw.clear();
        self.labels.clear();
        self.layer_labels.clear();
        self.draw_range_start = 0;
        self.last_paint = None;
        assert(final(self)@ =~= DrawState {
            feature_draw: Seq::<FeatureDrawModel>::empty(),
            labels: Seq::<LayerLabelModel>::empty(),
            layer_labels: Seq::<LabelModel>::empty(),
            last_paint: None::<FeaturePaintModel>,
            draw_range_start: 0int,
        });
    }

    /// Feeds one batching event: the next feature's resolved paint (or none
    /// at a layer boundary) and the index count reached so far. The state
    /// changes exactly by [`spec_add_draw`].
    pub fn add_draw_cmds(&mut self, next_paint: Option<&FeaturePaint>, indices: usize)
        ensures
            final(self)@ == spec_add_draw(
                old(self)@,
                match next_paint {
                    Some(p) => Some(p@),
                    None => None,
                },
                indices as int,
            ),
    {
        let ghost s0 = self@;
        let ghost nextm: Option<FeaturePaintModel> = match next_paint {
            Some(p) => Some(p@),
            None => None,
        };
        let changed = match (&next_paint, &self.last_paint) {
            (None, _) => true,
            (Some(p), Some(l)) => !paint_eq(p, l),
            (Some(_), None) => true,
        };
        if changed && self.last_paint.is_some() {
            let taken_paint = self.last_paint.take();
            if let Some(last) = taken_paint {
                let ghost s_pre = self@;
                if self.layer_labels.len() > 0 {
                    let mut taken: Vec<LabelDraw> = Vec::new();
                    core::mem::swap(&mut taken, &mut self.layer_labels);
                    self.labels.push(LayerLabelDraw { paint: last.dup(), labels: taken });
                    proof {
                        assert(self@.labels =~= s_pre.labels.push(
                            LayerLabelModel {
                                paint: s0.last_paint.unwrap(),
                                labels: s_pre.layer_labels,
                            },
                        ));
                        assert(self@.layer_labels =~= Seq::<LabelModel>::empty());
                    }
                }
                let ghost s1 = self@;
                if indices > self.draw_range_start {
                    let start = self.draw_range_start;
                    self.feature_draw.push(
                        FeatureDraw {
                            paint: last,
                            elements: core::ops::Range { start, end: indices },
                        },
                    );
                    self.draw_range_start = indices;
                    proof {
                        assert(self@.feature_draw =~= s1.feature_draw.push(
                            FeatureDrawModel {
                                paint: s0.last_paint.unwrap(),
                                start: s1.draw_range_start,
                                end: indices as int,
                            },
                        ));
                    }
                }
            }
            self.last_paint = match next_paint {
                Some(p) => Some(p.dup()),
                None => None,
            };
            proof {
                assert(self@ =~= spec_add_draw(s0, nextm, indices as int));
            }
        } else if self.last_paint.is_none() {
            self.last_paint = match next_paint {
                Some(p) => Some(p.dup()),
                None => None,
            };
            proof {
                assert(self@ =~= spec_add_draw(s0, nextm, indices as int));
            }
        } else {
            proof {
                assert(self@ =~= spec_add_draw(s0, nextm, indices as int));
            }
        }
    }
}


/// The draw ranges of a batcher state are well-ordered: every range is
/// non-empty, consecutive ranges do not overlap and keep their order, and no
/// range reaches past the start of the currently accumulating run. This is
/// the painter's algorithm guarantee: within one tile, draw ranges follow
/// style-layer declaration order.
pub open spec fn ranges_ordered(s: DrawState) -> bool {
    &&& forall|i: int|
        0 <= i < s.feature_draw.len() ==> 0 <= (#[trigger] s.feature_draw[i]).start
            < s.feature_draw[i].end
    &&& forall|i: int|
        0 <= i < s.feature_draw.len() - 1 ==> (#[trigger] s.feature_draw[i]).end
            <= s.feature_draw[i + 1].start
    &&& (s.feature_draw.len() > 0 ==> s.feature_draw[s.feature_draw.len() - 1].end
        <= s.draw_range_start)
    &&& 0 <= s.draw_range_start
}

/// The batching rule preserves the ordering of draw ranges.
#[verifier::rlimit(100)]
#[verifier::spinoff_prover]
pub proof fn lemma_add_draw_preserves_order(
    s: DrawState,
    next: Option<FeaturePaintModel>,
    indices: int,
)
    requires
        ranges_ordered(s),
    ensures
        ranges_ordered(spec_add_draw(s, next, indices)),
{
    let r = spec_add_draw(s, next, indices);
    if (next is None || next != s.last_paint) && s.last_paint is Some {
        let last = s.last_paint.unwrap();
        let s1 = if s.layer_labels.len() > 0 {
            DrawState {
                labels: s.labels.push(LayerLabelModel { paint: last, labels: s.layer_labels }),
                layer_labels: Seq::empty(),
                ..s
            }
        } else {
            s
        };
        assert(s1.feature_draw == s.feature_draw && s1.draw_range_start == s.draw_range_start);
        if indices > s1.draw_range_start {
            let added = FeatureDrawModel { paint: last, start: s1.draw_range_start, end: indices };
            let fd = s.feature_draw.push(added);
            assert(r.feature_draw == fd && r.draw_range_start == indices);
            let n = s.feature_draw.len() as int;
            assert(fd[n] == added);
            assert forall|i: int| 0 <= i < fd.len() implies 0 <= (#[trigger] fd[i]).start
                < fd[i].end by {
                if i < n {
                    assert(fd[i] == s.feature_draw[i]);
                }
            }
            assert forall|i: int| 0 <= i < fd.len() - 1 implies (#[trigger] fd[i]).end <= fd[i
                + 1].start by {
                if i < n - 1 {
                    assert(fd[i] == s.feature_draw[i] && fd[i + 1] == s.feature_draw[i + 1]);
                } else {
                    assert(i == n - 1);
                    assert(fd[i] == s.feature_draw[i] && fd[i + 1] == added);
                }
            }
        } else {
            assert(r.feature_draw == s.feature_draw && r.draw_range_start == s.draw_range_start);
        }
    }
}

/// Running the batcher over any event sequence keeps the draw ranges ordered.
#[verifier::rlimit(100)]
pub proof fn lemma_batch_run_ordered(
    s: DrawState,
    events: Seq<(Option<FeaturePaintModel>, int)>,
)
    requires
        ranges_ordered(s),
    ensures
        ranges_ordered(spec_batch_run(s, events)),
    decreases events.len(),
{
    if events.len() > 0 {
        lemma_add_draw_preserves_order(s, events[0].0, events[0].1);
        lemma_batch_run_ordered(spec_add_draw(s, events[0].0, events[0].1), events.skip(1));
    }
}

/// Batching is a function of the event sequence alone: two batchers fed equal
/// event sequences from equal states end in equal states, so tessellating
/// the same tile twice yields index-identical draw ranges.
pub proof fn lemma_batching_deterministic(
    s1: DrawState,
    s2: DrawState,
    events: Seq<(Option<FeaturePaintModel>, int)>,
)
    requires
        s1 == s2,
    ensures
        spec_batch_run(s1, events) == spec_batch_run(s2, events),
{
}

/// Runs the batching rule over a whole event sequence.
pub open spec fn spec_batch_run(
    s: DrawState,
    events: Seq<(Option<FeaturePaintModel>, int)>,
) -> DrawState
    decreases events.len(),
{
    if events.len() == 0 {
        s
    } else {
        spec_batch_run(spec_add_draw(s, events[0].0, events[0].1), events.skip(1))
    }
}


/// What tessellation work one feature needs: a polygon fill for fill layers,
/// a stroked outline for line layers and for fill layers that declare an
/// outline color, and label layout for symbol-layer points.
#[derive(Debug, Copy, Clone, PartialEq, Eq, Structural)]
pub struct FeatureOps {
    pub fill: bool,
    pub stroke: bool,
    pub labels: bool,
}

pub fn feature_ops(kind: LayerType, shape: crate::tile::GeomType, has_outline: bool) -> (r:
    FeatureOps)
    ensures
        r.fill == (shape is Polygon && kind is Fill),
        r.stroke == ((shape is Polygon && (kind is Line || (kind is Fill && has_outline))) || (
        shape is Linestring && kind is Line)),
        r.labels == (shape is Point && kind is Symbol),
{
    let fill = matches!(shape, crate::tile::GeomType::Polygon) && matches!(kind, LayerType::Fill);
    let stroke = (matches!(shape, crate::tile::GeomType::Polygon) && (matches!(
        kind,
        LayerType::Line,
    ) || (matches!(kind, LayerType::Fill) && has_outline))) || (matches!(
        shape,
        crate::tile::GeomType::Linestring,
    ) && matches!(kind, LayerType::Line));
    let labels = matches!(shape, crate::tile::GeomType::Point) && matches!(
        kind,
        LayerType::Symbol,
    );
    FeatureOps { fill, stroke, labels }
}

} // verus!

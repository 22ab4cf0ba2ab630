//! Tile coordinates and the decoded vector-tile data model.
//!
//! A tile holds named layers; a layer holds features plus a shared key/value
//! attribute table; a feature holds a geometry command stream and tag index
//! pairs into that table.

use vstd::prelude::*;

use crate::bytes::{bytes_eq, bytes_of};

verus! {

/// A tile coordinate: zoom level plus column/row inside the zoom level's grid.
#[derive(Debug, Copy, Clone, PartialEq, Eq, Hash, Structural)]
pub struct TileId {
    pub zoom: u16,
    pub column: u32,
    pub row: u32,
}

impl TileId {
    /// The grid dimension at this tile's zoom level: `2^zoom`.
    pub open spec fn spec_limit(self) -> u32 {
        1u32 << self.zoom
    }

    /// A tile is valid when both coordinates lie inside the zoom level's grid.
    pub open spec fn spec_is_valid(self) -> bool {
        self.row < self.spec_limit() && self.column < self.spec_limit()
    }

    pub fn limit(&self) -> (r: u32)
        requires
            self.zoom < 32,
        ensures
            r == self.spec_limit(),
            r >= 1,
    {
        let z = self.zoom;
        let r = 1u32 << z;
        assert(1u32 << z >= 1 && (z < 31 ==> 1u32 << z <= 0x4000_0000)) by (bit_vector)
            requires
                z < 32,
        ;
        r
    }

    pub fn is_valid(&self) -> (r: bool)
        requires
            self.zoom < 32,
        ensures
            r == self.spec_is_valid(),
    {
        self.row < self.limit() && self.column < self.limit()
    }

    /// Builds a tile id, wrapping the column into the grid (horizontal
    /// wraparound of the map); the row is taken as is.
    pub fn normalize(zoom: u16, column: i32, row: i32) -> (r: TileId)
        requires
            zoom < 31,
            0 <= row,
        ensures
            r.zoom == zoom,
            r.row == row,
            r.column == column as int % (1u32 << zoom) as int,
    {
        let limit_tile = TileId { zoom, column: 0, row: 0 };
        let limit = limit_tile.limit();
        assert(1u32 << zoom <= 0x4000_0000) by (bit_vector)
            requires
                zoom < 31,
        ;
        let l = limit as i32;
        let m = match column.checked_rem_euclid(l) {
            Some(m) => m,
            None => 0,
        };
        assert(column as int % l as int == m);
        TileId { zoom, column: m as u32, row: row as u32 }
    }

    /// The tile one zoom level up that contains this tile; `None` at zoom 0.
    pub open spec fn spec_parent(self) -> Option<TileId> {
        if self.zoom == 0 {
            None
        } else {
            Some(
                TileId {
                    zoom: (self.zoom - 1) as u16,
                    column: self.column / 2,
                    row: self.row / 2,
                },
            )
        }
    }

    pub fn parent(&self) -> (r: Option<TileId>)
        ensures
            r == self.spec_parent(),
    {
        if self.zoom == 0 {
            None
        } else {
            Some(TileId { zoom: self.zoom - 1, column: self.column / 2, row: self.row / 2 })
        }
    }

    /// Packs the coordinate into one integer, for use as a map key.
    pub open spec fn spec_key(self) -> int {
        (self.zoom as int) * 0x100_0000_0000_0000 + (self.column as int) * 0x1000_0000 + (
        self.row as int)
    }

    pub fn key(&self) -> (r: u64)
        requires
            self.zoom < 256,
            self.column < 0x1000_0000,
            self.row < 0x1000_0000,
        ensures
            r == self.spec_key(),
    {
        (self.zoom as u64) * 0x100_0000_0000_0000 + (self.column as u64) * 0x1000_0000
            + (self.row as u64)
    }
}

/// Distinct tiles pack to distinct keys, so a map keyed by `spec_key` behaves
/// as a map keyed by the tile id itself.
pub proof fn lemma_key_injective(a: TileId, b: TileId)
    requires
        a.zoom < 256,
        a.column < 0x1000_0000,
        a.row < 0x1000_0000,
        b.zoom < 256,
        b.column < 0x1000_0000,
        b.row < 0x1000_0000,
        a.spec_key() == b.spec_key(),
    ensures
        a == b,
{
    let az = a.zoom as u64;
    let ac = a.column as u64;
    let ar = a.row as u64;
    let bz = b.zoom as u64;
    let bc = b.column as u64;
    let br = b.row as u64;
    assert(az < 256 && ac < 0x1000_0000 && ar < 0x1000_0000 && bz < 256 && bc < 0x1000_0000 && br
        < 0x1000_0000 && az * 0x100_0000_0000_0000 + ac * 0x1000_0000 + ar == bz
        * 0x100_0000_0000_0000 + bc * 0x1000_0000 + br ==> az == bz && ac == bc && ar == br)
        by (nonlinear_arith);
}

/// Geometry kind of a feature.
#[derive(Debug, Copy, Clone, PartialEq, Eq, Structural)]
pub enum GeomType {
    Unknown,
    Point,
    Linestring,
    Polygon,
}

/// An attribute value of a feature. Numbers are fixed-point (see [`crate::num`]);
/// texts are raw bytes, not necessarily UTF-8.
#[derive(Debug, Clone)]
pub enum Value {
    Text(Vec<u8>),
    Number(i64),
    Truth(bool),
}

/// Mathematical model of a [`Value`].
pub enum ValueModel {
    Text(Seq<u8>),
    Number(int),
    Truth(bool),
}

impl View for Value {
    type V = ValueModel;

    open spec fn view(&self) -> ValueModel {
        match self {
            Value::Text(s) => ValueModel::Text(s@),
            Value::Number(n) => ValueModel::Number(*n as int),
            Value::Truth(b) => ValueModel::Truth(*b),
        }
    }
}

/// Model of an optional lookup result.
pub open spec fn opt_value_model(o: Option<Value>) -> Option<ValueModel> {
    match o {
        Some(v) => Some(v@),
        None => None,
    }
}

impl Value {
    /// An owned copy of this value.
    pub fn dup(&self) -> (r: Value)
        ensures
            r@ == self@,
    {
        match self {
            Value::Text(s) => Value::Text(bytes_of(s.as_slice())),
            Value::Number(n) => Value::Number(*n),
            Value::Truth(b) => Value::Truth(*b),
        }
    }

    /// The text bytes, when this value is a text.
    pub fn as_text(&self) -> (r: Option<&Vec<u8>>)
        ensures
            match r {
                Some(s) => self@ == ValueModel::Text(s@),
                None => !(self@ is Text),
            },
    {
        match self {
            Value::Text(s) => Some(s),
            _ => None,
        }
    }
}

/// One decoded feature: geometry command stream plus attribute tag pairs.
#[derive(Debug, Clone)]
pub struct TileFeature {
    pub kind: GeomType,
    /// Pairs of indices into the owning layer's key and value tables.
    pub tags: Vec<u32>,
    /// The command/parameter stream of the feature's geometry.
    pub geometry: Vec<u32>,
}

/// One named layer of a tile.
#[derive(Debug, Clone)]
pub struct TileLayer {
    pub name: Vec<u8>,
    pub features: Vec<TileFeature>,
    pub keys: Vec<Vec<u8>>,
    pub values: Vec<Value>,
}

/// A decoded vector tile.
#[derive(Debug, Clone)]
pub struct Tile {
    pub layers: Vec<TileLayer>,
}

/// The synthetic key that reports a feature's geometry kind.
pub open spec fn type_key() -> Seq<u8> {
    seq![36u8, 116u8, 121u8, 112u8, 101u8]
}

/// The text reported for the synthetic geometry-kind key.
pub open spec fn spec_shape_name(kind: GeomType) -> Seq<u8> {
    match kind {
        GeomType::Polygon => seq![80u8, 111u8, 108u8, 121u8, 103u8, 111u8, 110u8],
        GeomType::Linestring => seq![
            76u8,
            105u8,
            110u8,
            101u8,
            83u8,
            116u8,
            114u8,
            105u8,
            110u8,
            103u8,
        ],
        GeomType::Point => seq![80u8, 111u8, 105u8, 110u8, 116u8],
        GeomType::Unknown => seq![85u8, 110u8, 107u8, 110u8, 111u8, 119u8, 110u8],
    }
}

fn shape_name(kind: GeomType) -> (r: Vec<u8>)
    ensures
        r@ == spec_shape_name(kind),
{
    let polygon: [u8; 7] = [80u8, 111u8, 108u8, 121u8, 103u8, 111u8, 110u8];
    let linestring: [u8; 10] = [76u8, 105u8, 110u8, 101u8, 83u8, 116u8, 114u8, 105u8, 110u8, 103u8];
    let point: [u8; 5] = [80u8, 111u8, 105u8, 110u8, 116u8];
    let unknown: [u8; 7] = [85u8, 110u8, 107u8, 110u8, 111u8, 119u8, 110u8];
    let r = match kind {
        GeomType::Polygon => bytes_of(polygon.as_slice()),
        GeomType::Linestring => bytes_of(linestring.as_slice()),
        GeomType::Point => bytes_of(point.as_slice()),
        GeomType::Unknown => bytes_of(unknown.as_slice()),
    };
    assert(r@ =~= spec_shape_name(kind));
    r
}

/// Looks a key up in a feature's tag pairs, first pair wins; a trailing
/// unpaired index is ignored.
pub open spec fn spec_lookup_tags(layer: TileLayer, tags: Seq<u32>, key: Seq<u8>) -> Option<
    ValueModel,
>
    decreases tags.len(),
{
    if tags.len() < 2 {
        None
    } else {
        let k = tags[0] as int;
        let v = tags[1] as int;
        if 0 <= k < layer.keys@.len() && layer.keys@[k]@ == key && 0 <= v < layer.values@.len() {
            Some(layer.values@[v]@)
        } else {
            spec_lookup_tags(layer, tags.skip(2), key)
        }
    }
}

/// What a key lookup on a feature yields: the synthetic geometry-kind key, or
/// the first matching tag pair.
pub open spec fn spec_feature_key(layer: TileLayer, feature: TileFeature, key: Seq<u8>) -> Option<
    ValueModel,
> {
    if key == type_key() {
        Some(ValueModel::Text(spec_shape_name(feature.kind)))
    } else {
        spec_lookup_tags(layer, feature.tags@, key)
    }
}

/// A read-only view of one feature together with its owning layer, or the
/// empty view, which has no attributes and an unknown geometry kind.
#[derive(Clone, Copy)]
pub enum FeatureView<'a> {
    Empty,
    Feature { layer: &'a TileLayer, feature: &'a TileFeature },
}

impl<'a> FeatureView<'a> {
    /// What a lookup through this view yields.
    pub open spec fn spec_key(self, key: Seq<u8>) -> Option<ValueModel> {
        match self {
            FeatureView::Empty => {
                if key == type_key() {
                    Some(ValueModel::Text(spec_shape_name(GeomType::Unknown)))
                } else {
                    None
                }
            },
            FeatureView::Feature { layer, feature } => spec_feature_key(*layer, *feature, key),
        }
    }

    /// The geometry kind seen through this view.
    pub open spec fn spec_shape(self) -> GeomType {
        match self {
            FeatureView::Empty => GeomType::Unknown,
            FeatureView::Feature { feature, .. } => feature.kind,
        }
    }

    /// A view of no feature at all.
    pub fn empty() -> (r: FeatureView<'static>)
        ensures
            r == FeatureView::<'static>::Empty,
    {
        FeatureView::Empty
    }

    pub fn shape(&self) -> (r: GeomType)
        ensures
            r == self.spec_shape(),
    {
        match self {
            FeatureView::Empty => GeomType::Unknown,
            FeatureView::Feature { feature, .. } => feature.kind,
        }
    }

    /// Typed attribute lookup, including the synthetic geometry-kind key.
    #[verifier::loop_isolation(false)]
    pub fn key(&self, key: &[u8]) -> (r: Option<Value>)
        ensures
            opt_value_model(r) == self.spec_key(key@),
    {
        let type_k: [u8; 5] = [36u8, 116u8, 121u8, 112u8, 101u8];
        if bytes_eq(key, type_k.as_slice()) {
            assert(type_k@ =~= type_key());
            return Some(Value::Text(shape_name(self.shape())));
        }
        assert(key@ != type_key());
        match self {
            FeatureView::Empty => None,
            FeatureView::Feature { layer, feature } => {
                let tags = &feature.tags;
                let n = tags.len();
                let mut i: usize = 0;
                assert(tags@.skip(0) =~= tags@);
                while n - i >= 2
                    invariant
                        0 <= i <= n,
                        n == tags@.len(),
                        spec_lookup_tags(**layer, tags@, key@) == spec_lookup_tags(
                            **layer,
                            tags@.skip(i as int),
                            key@,
                        ),
                    decreases n - i,
                {
                    let ghost pre = tags@.skip(i as int);
                    assert(pre.len() >= 2);
                    assert(pre[0] == tags@[i as int] && pre[1] == tags@[i as int + 1]);
                    let k = tags[i] as usize;
                    let v = tags[i + 1] as usize;
                    let mut hit = false;
                    if k < layer.keys.len() && v < layer.values.len() {
                        if bytes_eq(layer.keys[k].as_slice(), key) {
                            hit = true;
                        }
                    }
                    if hit {
                        assert(spec_lookup_tags(**layer, pre, key@) == Some(
                            layer.values@[v as int]@,
                        ));
                        return Some(layer.values[v].dup());
                    }
                    assert(spec_lookup_tags(**layer, pre, key@) == spec_lookup_tags(
                        **layer,
                        pre.skip(2),
                        key@,
                    ));
                    assert(pre.skip(2) =~= tags@.skip(i as int + 2));
                    i += 2;
                }
                assert(tags@.skip(i as int).len() < 2);
                None
            },
        }
    }
}

} // verus!

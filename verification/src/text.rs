//! Label text: glyph identities, the glyph-atlas residency protocol, font
//! selection, and multi-line label layout.
//!
//! Layout is independent of any rasterizer: the caller supplies a
//! [`FontMetrics`] table (advance, kerning and pixel bounds per character, in
//! fixed-point pixels for one font at one size) and the layout engine places
//! glyphs left to right, wraps lines, and centers shorter lines under the
//! widest one. Text is treated bytewise: each byte is one character.

use vstd::prelude::*;

use crate::num::bounded;

verus! {

/// One of the library's font faces.
#[derive(Copy, Clone, Debug, PartialEq, Eq, Hash, Structural)]
pub struct FontId(pub u8);

/// A character of a font face.
#[derive(Copy, Clone, Debug, PartialEq, Eq, Hash, Structural)]
pub struct GlyphId(pub FontId, pub char);

/// A glyph rasterized at a whole-pixel size; the atlas is keyed by these.
#[derive(Copy, Clone, Debug, PartialEq, Eq, Hash, Structural)]
pub struct GlyphKey(pub GlyphId, pub i32);

impl GlyphId {
    /// The atlas key of this glyph at a text size, which rasterizes at the
    /// size rounded down to whole pixels.
    pub fn with_size(&self, size: i64) -> (r: GlyphKey)
        requires
            0 <= size,
            bounded(size),
        ensures
            r == GlyphKey(*self, (size / 1000) as i32),
    {
        GlyphKey(*self, (size / 1000) as i32)
    }

    /// The size-independent key used for distance-field glyphs.
    pub fn _sdf(&self) -> (r: GlyphKey)
        ensures
            r == GlyphKey(*self, 0),
    {
        GlyphKey(*self, 0)
    }
}

/// The font face a list of face names selects: the first recognized name
/// wins, and the regular face stands in when none is recognized.
pub open spec fn spec_font_for(names: Seq<Seq<u8>>) -> FontId
    decreases names.len(),
{
    if names.len() == 0 {
        FontId(1)
    } else if names[0] == spec_lit_noto() || names[0] == spec_lit_noto_regular() {
        FontId(1)
    } else if names[0] == spec_lit_noto_bold() {
        FontId(2)
    } else if names[0] == spec_lit_noto_italic() {
        FontId(3)
    } else {
        spec_font_for(names.skip(1))
    }
}

pub open spec fn spec_lit_noto() -> Seq<u8> {
    seq![78u8, 111u8, 116u8, 111u8, 32u8, 83u8, 97u8, 110u8, 115u8]
}

pub open spec fn spec_lit_noto_regular() -> Seq<u8> {
    spec_lit_noto() + seq![32u8, 82u8, 101u8, 103u8, 117u8, 108u8, 97u8, 114u8]
}

pub open spec fn spec_lit_noto_bold() -> Seq<u8> {
    spec_lit_noto() + seq![32u8, 66u8, 111u8, 108u8, 100u8]
}

pub open spec fn spec_lit_noto_italic() -> Seq<u8> {
    spec_lit_noto() + seq![32u8, 73u8, 116u8, 97u8, 108u8, 105u8, 99u8]
}

/// Selects the font face for a layer's face-name list; see [`spec_font_for`].
#[verifier::loop_isolation(false)]
pub fn font_for(names: &Vec<Vec<u8>>) -> (r: FontId)
    ensures
        r == spec_font_for(names@.map_values(|v: Vec<u8>| v@)),
{
    let ghost m = names@.map_values(|v: Vec<u8>| v@);
    let noto: [u8; 9] = [78u8, 111u8, 116u8, 111u8, 32u8, 83u8, 97u8, 110u8, 115u8];
    let noto_regular: [u8; 17] = [
        78u8,
        111u8,
        116u8,
        111u8,
        32u8,
        83u8,
        97u8,
        110u8,
        115u8,
        32u8,
        82u8,
        101u8,
        103u8,
        117u8,
        108u8,
        97u8,
        114u8,
    ];
    let noto_bold: [u8; 14] = [
        78u8,
        111u8,
        116u8,
        111u8,
        32u8,
        83u8,
        97u8,
        110u8,
        115u8,
        32u8,
        66u8,
        111u8,
        108u8,
        100u8,
    ];
    let noto_italic: [u8; 16] = [
        78u8,
        111u8,
        116u8,
        111u8,
        32u8,
        83u8,
        97u8,
        110u8,
        115u8,
        32u8,
        73u8,
        116u8,
        97u8,
        108u8,
        105u8,
        99u8,
    ];
    proof {
        assert(noto@ =~= spec_lit_noto());
        assert(noto_regular@ =~= spec_lit_noto_regular());
        assert(noto_bold@ =~= spec_lit_noto_bold());
        assert(noto_italic@ =~= spec_lit_noto_italic());
    }
    let n = names.len();
    let mut i: usize = 0;
    assert(m.skip(0) =~= m);
    while i < n
        invariant
            0 <= i <= n,
            n == names@.len(),
            m.len() == n,
            spec_font_for(m) == spec_font_for(m.skip(i as int)),
        decreases n - i,
    {
        let ghost pre = m.skip(i as int);
        assert(pre[0] == m[i as int] && m[i as int] == names@[i as int]@);
        let name = names[i].as_slice();
        if crate::bytes::bytes_eq(name, noto.as_slice()) || crate::bytes::bytes_eq(
            name,
            noto_regular.as_slice(),
        ) {
            return FontId(1);
        }
        if crate::bytes::bytes_eq(name, noto_bold.as_slice()) {
            return FontId(2);
        }
        if crate::bytes::bytes_eq(name, noto_italic.as_slice()) {
            return FontId(3);
        }
        assert(pre.skip(1) =~= m.skip(i as int + 1));
        i += 1;
    }
    FontId(1)
}

/// The glyph atlas residency protocol, independent of the texture itself:
/// which glyph keys are resident (drawable now) and which are pending their
/// upload. Preparation of a missing glyph enqueues it exactly once; the
/// upload pass makes every pending glyph resident.
pub struct GlyphAtlas {
    pub resident: Vec<GlyphKey>,
    pub pending: Vec<GlyphKey>,
}

impl GlyphAtlas {
    /// The resident keys.
    pub open spec fn spec_resident(self) -> Seq<GlyphKey> {
        self.resident@
    }

    /// The keys awaiting upload.
    pub open spec fn spec_pending(self) -> Seq<GlyphKey> {
        self.pending@
    }

    /// An empty atlas.
    pub fn new() -> (r: GlyphAtlas)
        ensures
            r.spec_resident() == Seq::<GlyphKey>::empty(),
            r.spec_pending() == Seq::<GlyphKey>::empty(),
    {
        GlyphAtlas { resident: Vec::new(), pending: Vec::new() }
    }

    /// Prepares one glyph at a text size. Returns true exactly when the glyph
    /// is already resident, so a label may reference it immediately; returns
    /// false when it is pending, enqueueing it the first time and never
    /// dropping or repeating the request.
    pub fn prepare(&mut self, text_size: i64, glyph_id: GlyphId) -> (r: bool)
        requires
            0 <= text_size,
            bounded(text_size),
        ensures
            ({
                let k = GlyphKey(glyph_id, (text_size / 1000) as i32);
                &&& r == old(self).spec_resident().contains(k)
                &&& final(self).spec_resident() == old(self).spec_resident()
                &&& (r || old(self).spec_pending().contains(k) ==> final(self).spec_pending()
                    == old(self).spec_pending())
                &&& (!r && !old(self).spec_pending().contains(k) ==> final(self).spec_pending()
                    == old(self).spec_pending().push(k))
                &&& final(self).spec_pending().contains(k) == (!r || old(
                    self,
                ).spec_pending().contains(k))
            }),
    {
        let key = glyph_id.with_size(text_size);
        if contains_key(&self.resident, key) {
            return true;
        }
        if contains_key(&self.pending, key) {
            return false;
        }
        self.pending.push(key);
        assert(final(self).spec_pending().contains(GlyphKey(glyph_id, (text_size / 1000) as i32)))
            by {
            assert(self.pending@[self.pending@.len() - 1] == key);
        }
        false
    }

    /// The upload pass: every pending glyph becomes resident.
    pub fn upload(&mut self) -> (uploaded: usize)
        ensures
            final(self).spec_resident() == old(self).spec_resident() + old(self).spec_pending(),
            final(self).spec_pending() == Seq::<GlyphKey>::empty(),
            uploaded == old(self).spec_pending().len(),
    {
        let n = self.pending.len();
        let mut i: usize = 0;
        while i < n
            invariant
                0 <= i <= n,
                n == self.pending@.len(),
                self.pending@ == old(self).pending@,
                self.resident@ == old(self).resident@ + self.pending@.take(i as int),
            decreases n - i,
        {
            let k = self.pending[i];
            self.resident.push(k);
            assert(self.resident@ =~= old(self).resident@ + self.pending@.take(i + 1 as int));
            i += 1;
        }
        assert(self.pending@.take(n as int) =~= self.pending@);
        self.pending.clear();
        n
    }

    /// Capacity exhaustion: the whole atlas restarts empty, so every glyph
    /// must be prepared again.
    pub fn reset(&mut self)
        ensures
            final(self).spec_resident() == Seq::<GlyphKey>::empty(),
            final(self).spec_pending() == Seq::<GlyphKey>::empty(),
    {
        self.resident.clear();
        self.pending.clear();
    }
}

/// Whether a key list holds a key.
#[verifier::loop_isolation(false)]
fn contains_key(v: &Vec<GlyphKey>, k: GlyphKey) -> (r: bool)
    ensures
        r == v@.contains(k),
{
    let n = v.len();
    let mut i: usize = 0;
    while i < n
        invariant
            0 <= i <= n,
            n == v@.len(),
            forall|j: int| 0 <= j < i ==> v@[j] != k,
        decreases n - i,
    {
        if v[i] == k {
            assert(v@.contains(k));
            return true;
        }
        i += 1;
    }
    assert(!v@.contains(k));
    false
}

/// The atlas transition of preparing one key: resident keys report true and
/// change nothing; pending keys report false and change nothing; unknown keys
/// report false and join the pending set.
pub open spec fn spec_prepare(
    resident: Seq<GlyphKey>,
    pending: Seq<GlyphKey>,
    k: GlyphKey,
) -> (Seq<GlyphKey>, Seq<GlyphKey>, bool) {
    if resident.contains(k) {
        (resident, pending, true)
    } else if pending.contains(k) {
        (resident, pending, false)
    } else {
        (resident, pending.push(k), false)
    }
}

/// The atlas transition of the upload pass: every pending key becomes
/// resident.
pub open spec fn spec_upload(resident: Seq<GlyphKey>, pending: Seq<GlyphKey>) -> (
    Seq<GlyphKey>,
    Seq<GlyphKey>,
) {
    (resident + pending, Seq::empty())
}

/// The pending protocol as one law: preparing a glyph that is neither
/// resident nor pending reports false and enqueues it; preparing it again
/// before the upload still reports false without enqueueing it twice; after
/// the upload pass, preparing it reports true, with the atlas unchanged. The
/// request is never dropped.
pub proof fn lemma_glyph_pending_protocol(
    resident: Seq<GlyphKey>,
    pending: Seq<GlyphKey>,
    k: GlyphKey,
)
    requires
        !resident.contains(k),
        !pending.contains(k),
    ensures
        ({
            let (r1, p1, hit1) = spec_prepare(resident, pending, k);
            let (r2, p2, hit2) = spec_prepare(r1, p1, k);
            let (r3, p3) = spec_upload(r2, p2);
            let (r4, p4, hit3) = spec_prepare(r3, p3, k);
            &&& !hit1 && p1.contains(k)
            &&& !hit2 && r2 == r1 && p2 == p1
            &&& hit3 && r4 == r3 && p4 == p3
        }),
{
    let (r1, p1, hit1) = spec_prepare(resident, pending, k);
    assert(p1 == pending.push(k));
    assert(p1[p1.len() - 1] == k);
    assert(p1.contains(k));
    let (r3, p3) = spec_upload(r1, p1);
    assert(r3 == resident + p1);
    assert(r3[r3.len() - 1] == k);
    assert(r3.contains(k));
}


/// Pixel metrics of one glyph, fixed-point.
#[derive(Debug, Copy, Clone, PartialEq, Eq, Structural)]
pub struct GlyphMetrics {
    pub advance: i64,
    pub xmin: i64,
    pub ymin: i64,
    pub width: i64,
    pub height: i64,
}

/// The metrics table of one font face at one text size: per-character
/// metrics, kerning pairs, and the vertical line advance. A character absent
/// from the table has no glyph in the face.
#[derive(Debug)]
pub struct FontMetrics {
    pub font: FontId,
    pub line_advance: i64,
    pub glyphs: Vec<(u32, GlyphMetrics)>,
    pub kerns: Vec<(u32, u32, i64)>,
}

/// Metric magnitudes the layout arithmetic accepts.
pub open spec fn metrics_wf(m: GlyphMetrics) -> bool {
    &&& 0 <= m.advance <= 1_000_000
    &&& -1_000_000 <= m.xmin <= 1_000_000
    &&& -1_000_000 <= m.ymin <= 1_000_000
    &&& 0 <= m.width <= 1_000_000
    &&& 0 <= m.height <= 1_000_000
}

impl FontMetrics {
    pub open spec fn wf(self) -> bool {
        &&& 0 <= self.line_advance <= 1_000_000
        &&& forall|i: int|
            0 <= i < self.glyphs@.len() ==> metrics_wf((#[trigger] self.glyphs@[i]).1)
        &&& forall|i: int|
            0 <= i < self.kerns@.len() ==> -1_000_000 <= (#[trigger] self.kerns@[i]).2
                <= 1_000_000
    }
}

/// The metrics of a character: the first table entry for it, if any.
pub open spec fn spec_glyph_lookup(glyphs: Seq<(u32, GlyphMetrics)>, c: u32) -> Option<
    GlyphMetrics,
>
    decreases glyphs.len(),
{
    if glyphs.len() == 0 {
        None
    } else if glyphs[0].0 == c {
        Some(glyphs[0].1)
    } else {
        spec_glyph_lookup(glyphs.skip(1), c)
    }
}

/// The kerning between two characters: the first table entry for the pair,
/// if any.
pub open spec fn spec_kern_lookup(kerns: Seq<(u32, u32, i64)>, a: u32, b: u32) -> Option<i64>
    decreases kerns.len(),
{
    if kerns.len() == 0 {
        None
    } else if kerns[0].0 == a && kerns[0].1 == b {
        Some(kerns[0].2)
    } else {
        spec_kern_lookup(kerns.skip(1), a, b)
    }
}

/// A looked-up metrics entry comes from the table, so it obeys the table's
/// bounds.
pub proof fn lemma_glyph_lookup_bounded(glyphs: Seq<(u32, GlyphMetrics)>, c: u32)
    requires
        forall|i: int| 0 <= i < glyphs.len() ==> metrics_wf((#[trigger] glyphs[i]).1),
    ensures
        match spec_glyph_lookup(glyphs, c) {
            Some(m) => metrics_wf(m),
            None => true,
        },
    decreases glyphs.len(),
{
    if glyphs.len() > 0 && glyphs[0].0 != c {
        assert(forall|i: int|
            0 <= i < glyphs.skip(1).len() ==> (#[trigger] glyphs.skip(1)[i]) == glyphs[i + 1]);
        lemma_glyph_lookup_bounded(glyphs.skip(1), c);
    }
}

/// A looked-up kerning value comes from the table, so it obeys the table's
/// bounds.
pub proof fn lemma_kern_lookup_bounded(kerns: Seq<(u32, u32, i64)>, a: u32, b: u32)
    requires
        forall|i: int| 0 <= i < kerns.len() ==> -1_000_000 <= (#[trigger] kerns[i]).2 <= 1_000_000,
    ensures
        match spec_kern_lookup(kerns, a, b) {
            Some(k) => -1_000_000 <= k <= 1_000_000,
            None => true,
        },
    decreases kerns.len(),
{
    if kerns.len() > 0 && !(kerns[0].0 == a && kerns[0].1 == b) {
        assert(forall|i: int|
            0 <= i < kerns.skip(1).len() ==> (#[trigger] kerns.skip(1)[i]) == kerns[i + 1]);
        lemma_kern_lookup_bounded(kerns.skip(1), a, b);
    }
}

#[verifier::loop_isolation(false)]
fn glyph_lookup(glyphs: &Vec<(u32, GlyphMetrics)>, c: u32) -> (r: Option<GlyphMetrics>)
    ensures
        r == spec_glyph_lookup(glyphs@, c),
{
    let n = glyphs.len();
    let mut i: usize = 0;
    assert(glyphs@.skip(0) =~= glyphs@);
    while i < n
        invariant
            0 <= i <= n,
            spec_glyph_lookup(glyphs@, c) == spec_glyph_lookup(glyphs@.skip(i as int), c),
        decreases n - i,
    {
        let ghost pre = glyphs@.skip(i as int);
        assert(pre[0] == glyphs@[i as int]);
        if glyphs[i].0 == c {
            return Some(glyphs[i].1);
        }
        assert(pre.skip(1) =~= glyphs@.skip(i as int + 1));
        i += 1;
    }
    None
}

#[verifier::loop_isolation(false)]
fn kern_lookup(kerns: &Vec<(u32, u32, i64)>, a: u32, b: u32) -> (r: Option<i64>)
    ensures
        r == spec_kern_lookup(kerns@, a, b),
{
    let n = kerns.len();
    let mut i: usize = 0;
    assert(kerns@.skip(0) =~= kerns@);
    while i < n
        invariant
            0 <= i <= n,
            spec_kern_lookup(kerns@, a, b) == spec_kern_lookup(kerns@.skip(i as int), a, b),
        decreases n - i,
    {
        let ghost pre = kerns@.skip(i as int);
        assert(pre[0] == kerns@[i as int]);
        if kerns[i].0 == a && kerns[i].1 == b {
            return Some(kerns[i].2);
        }
        assert(pre.skip(1) =~= kerns@.skip(i as int + 1));
        i += 1;
    }
    None
}

/// An axis-aligned box in fixed-point pixels.
#[derive(Debug, Copy, Clone, PartialEq, Eq, Structural)]
pub struct RectI {
    pub min_x: i64,
    pub min_y: i64,
    pub max_x: i64,
    pub max_y: i64,
}

/// One placed glyph of a label.
#[derive(Debug, Copy, Clone, PartialEq, Eq, Structural)]
pub struct GlyphDraw {
    pub bounds: RectI,
    pub glyph: GlyphId,
}

/// One laid-out label line: its glyphs and its advance width.
#[derive(Debug)]
pub struct LineDraw {
    pub glyphs: Vec<GlyphDraw>,
    pub width: i64,
}

/// Mathematical model of a [`LineDraw`].
#[verifier::ext_equal]
pub struct LineModel {
    pub glyphs: Seq<GlyphDraw>,
    pub width: i64,
}

impl View for LineDraw {
    type V = LineModel;

    open spec fn view(&self) -> LineModel {
        LineModel { glyphs: self.glyphs@, width: self.width }
    }
}

/// A control character, which resets the kerning context and produces no
/// glyph.
pub open spec fn spec_is_control(b: u8) -> bool {
    b <= 0x1f || (0x7f <= b <= 0x9f)
}

/// A whitespace byte, which advances the cursor without placing a glyph.
pub open spec fn spec_is_space_byte(b: u8) -> bool {
    b == 32 || (9 <= b <= 13)
}

/// The running state of label layout.
pub struct LayoutState {
    pub h: int,
    pub v: int,
    pub last: Option<u32>,
    pub glyphs: Seq<GlyphDraw>,
    pub lines: Seq<LineModel>,
    pub widest: int,
    pub min_x: int,
    pub min_y: int,
    pub max_x: int,
    pub max_y: int,
}

/// The initial layout state: cursor at the origin, no kerning context, and
/// sentinel bounds that any glyph box displaces.
pub open spec fn layout_init() -> LayoutState {
    LayoutState {
        h: 0,
        v: 0,
        last: None,
        glyphs: Seq::empty(),
        lines: Seq::empty(),
        widest: 0,
        min_x: i64::MAX as int,
        min_y: i64::MAX as int,
        max_x: i64::MIN as int,
        max_y: i64::MIN as int,
    }
}

pub open spec fn min_int(a: int, b: int) -> int {
    if a < b {
        a
    } else {
        b
    }
}

pub open spec fn max_int(a: int, b: int) -> int {
    if a > b {
        a
    } else {
        b
    }
}

/// Label layout, one byte per step. A line wraps at a space once the line
/// exceeds the width limit, or at a newline, provided more than two
/// characters of text remain (no orphan line for the final word and change).
/// Control characters and characters without a glyph reset the kerning
/// context and are skipped. A glyph's box is its metric box at the cursor
/// plus kerning against the previous glyph; whitespace advances the cursor
/// without placing a glyph. The label bounds are the union of all glyph
/// boxes, including whitespace boxes.
pub open spec fn spec_layout(
    text: Seq<u8>,
    fm: FontMetrics,
    max_width: i64,
    i: int,
    st: LayoutState,
) -> LayoutState
    decreases text.len() - i,
{
    if i < 0 || i >= text.len() {
        st
    } else {
        let b = text[i];
        if ((st.h > max_width && b == 32) || b == 10) && text.len() > i + 2 {
            let st2 = LayoutState {
                h: 0,
                v: st.v - fm.line_advance,
                last: None,
                glyphs: Seq::empty(),
                lines: st.lines.push(LineModel { glyphs: st.glyphs, width: st.h as i64 }),
                widest: max_int(st.widest, st.h),
                ..st
            };
            spec_layout(text, fm, max_width, i + 1, st2)
        } else if spec_is_control(b) {
            spec_layout(text, fm, max_width, i + 1, LayoutState { last: None, ..st })
        } else {
            match spec_glyph_lookup(fm.glyphs@, b as u32) {
                None => spec_layout(
                    text,
                    fm,
                    max_width,
                    i + 1,
                    LayoutState { last: None, ..st },
                ),
                Some(m) => {
                    let kern = match st.last {
                        Some(p) => match spec_kern_lookup(fm.kerns@, p, b as u32) {
                            Some(k) => k as int,
                            None => 0,
                        },
                        None => 0,
                    };
                    let gx = m.xmin + st.h + kern;
                    let gy = m.ymin + st.v;
                    let bounds = RectI {
                        min_x: gx as i64,
                        min_y: gy as i64,
                        max_x: (gx + m.width) as i64,
                        max_y: (gy + m.height) as i64,
                    };
                    let glyphs2 = if !spec_is_space_byte(b) {
                        st.glyphs.push(
                            GlyphDraw { bounds, glyph: GlyphId(fm.font, b as char) },
                        )
                    } else {
                        st.glyphs
                    };
                    let st2 = LayoutState {
                        h: st.h + m.advance,
                        last: Some(b as u32),
                        glyphs: glyphs2,
                        min_x: min_int(st.min_x, gx),
                        min_y: min_int(st.min_y, gy),
                        max_x: max_int(st.max_x, gx + m.width),
                        max_y: max_int(st.max_y, gy + m.height),
                        ..st
                    };
                    spec_layout(text, fm, max_width, i + 1, st2)
                },
            }
        }
    }
}

/// The layout after the final line is closed: a non-empty trailing line joins
/// the line list and the widest width.
pub open spec fn spec_layout_done(st: LayoutState) -> LayoutState {
    if st.glyphs.len() > 0 {
        LayoutState {
            glyphs: Seq::empty(),
            lines: st.lines.push(LineModel { glyphs: st.glyphs, width: st.h as i64 }),
            widest: max_int(st.widest, st.h),
            ..st
        }
    } else {
        st
    }
}

/// The laid-out lines of one label, before centering.
pub struct LabelLines {
    pub lines: Vec<LineDraw>,
    pub bounds: RectI,
    pub widest: i64,
}

/// Lays the text out into lines; the result is exactly
/// [`spec_layout_done`] of [`spec_layout`] run over the whole text.
#[verifier::loop_isolation(false)]
#[verifier::rlimit(100)]
pub fn layout_lines(text: &[u8], fm: &FontMetrics, max_width: i64) -> (r: LabelLines)
    requires
        fm.wf(),
        0 <= max_width <= 1_000_000_000,
        text@.len() <= 100_000,
    ensures
        ({
            let fin = spec_layout_done(
                spec_layout(text@, *fm, max_width, 0, layout_init()),
            );
            &&& r.lines@.map_values(|l: LineDraw| l@) == fin.lines
            &&& r.widest == fin.widest
            &&& r.bounds.min_x == fin.min_x && r.bounds.min_y == fin.min_y && r.bounds.max_x
                == fin.max_x && r.bounds.max_y == fin.max_y
        }),
{
    let n = text.len();
    let mut h: i64 = 0;
    let mut v: i64 = 0;
    let mut last: Option<u32> = None;
    let mut glyphs: Vec<GlyphDraw> = Vec::new();
    let mut lines: Vec<LineDraw> = Vec::new();
    let mut widest: i64 = 0;
    let mut min_x: i64 = i64::MAX;
    let mut min_y: i64 = i64::MAX;
    let mut max_x: i64 = i64::MIN;
    let mut max_y: i64 = i64::MIN;
    let mut i: usize = 0;
    let ghost goal = spec_layout(text@, *fm, max_width, 0, layout_init());
    proof {
        assert(glyphs@ =~= Seq::<GlyphDraw>::empty());
        assert(lines@.map_values(|l: LineDraw| l@) =~= Seq::<LineModel>::empty());
    }
    while i < n
        invariant
            0 <= i <= n,
            n == text@.len(),
            0 <= h <= 1_000_000 * i,
            -1_000_000 * i <= v <= 0,
            0 <= widest <= 1_000_000 * i,
            goal == spec_layout(
                text@,
                *fm,
                max_width,
                i as int,
                LayoutState {
                    h: h as int,
                    v: v as int,
                    last,
                    glyphs: glyphs@,
                    lines: lines@.map_values(|l: LineDraw| l@),
                    widest: widest as int,
                    min_x: min_x as int,
                    min_y: min_y as int,
                    max_x: max_x as int,
                    max_y: max_y as int,
                },
            ),
        decreases n - i,
    {
        let ghost pre_state = LayoutState {
            h: h as int,
            v: v as int,
            last,
            glyphs: glyphs@,
            lines: lines@.map_values(|l: LineDraw| l@),
            widest: widest as int,
            min_x: min_x as int,
            min_y: min_y as int,
            max_x: max_x as int,
            max_y: max_y as int,
        };
        let b = text[i];
        if ((h > max_width && b == 32) || b == 10) && n > i + 2 {
            if h > widest {
                widest = h;
            }
            let mut taken: Vec<GlyphDraw> = Vec::new();
            core::mem::swap(&mut taken, &mut glyphs);
            lines.push(LineDraw { glyphs: taken, width: h });
            assert(lines@.map_values(|l: LineDraw| l@) =~= pre_state.lines.push(
                LineModel { glyphs: pre_state.glyphs, width: pre_state.h as i64 },
            ));
            last = None;
            h = 0;
            v = v - fm.line_advance;
        } else if b <= 0x1f || (0x7f <= b && b <= 0x9f) {
            last = None;
        } else {
            proof {
                lemma_glyph_lookup_bounded(fm.glyphs@, b as u32);
            }
            match glyph_lookup(&fm.glyphs, b as u32) {
                None => {
                    last = None;
                },
                Some(m) => {
                    let kern: i64 = match last {
                        Some(p) => {
                            proof {
                                lemma_kern_lookup_bounded(fm.kerns@, p, b as u32);
                            }
                            match kern_lookup(&fm.kerns, p, b as u32) {
                                Some(k) => k,
                                None => 0,
                            }
                        },
                        None => 0,
                    };
                    let gx = m.xmin + h + kern;
                    let gy = m.ymin + v;
                    let bounds = RectI {
                        min_x: gx,
                        min_y: gy,
                        max_x: gx + m.width,
                        max_y: gy + m.height,
                    };
                    if !(b == 32 || (9 <= b && b <= 13)) {
                        glyphs.push(GlyphDraw { bounds, glyph: GlyphId(fm.font, b as char) });
                    }
                    if gx < min_x {
                        min_x = gx;
                    }
                    if gy < min_y {
                        min_y = gy;
                    }
                    if gx + m.width > max_x {
                        max_x = gx + m.width;
                    }
                    if gy + m.height > max_y {
                        max_y = gy + m.height;
                    }
                    h = h + m.advance;
                    last = Some(b as u32);
                },
            }
        }
        i += 1;
    }
    if glyphs.len() > 0 {
        if h > widest {
            widest = h;
        }
        let ghost before_lines = lines@.map_values(|l: LineDraw| l@);
        let ghost before_glyphs = glyphs@;
        let taken = glyphs;
        lines.push(LineDraw { glyphs: taken, width: h });
        assert(lines@.map_values(|l: LineDraw| l@) =~= before_lines.push(
            LineModel { glyphs: before_glyphs, width: h },
        ));
    }
    LabelLines {
        lines,
        bounds: RectI { min_x, min_y, max_x, max_y },
        widest,
    }
}

/// The horizontal shift that centers a line of width `w` under the widest
/// line: half the width difference, rounded down.
pub open spec fn spec_center_shift(w: i64, widest: i64) -> int {
    (widest - w) / 2
}

/// A glyph box shifted right by `d`.
pub open spec fn spec_shift_glyph(g: GlyphDraw, d: int) -> GlyphDraw {
    GlyphDraw {
        bounds: RectI {
            min_x: (g.bounds.min_x + d) as i64,
            max_x: (g.bounds.max_x + d) as i64,
            ..g.bounds
        },
        ..g
    }
}

/// Centers every line under the widest one: each line's glyph boxes shift
/// right by half the width difference.
#[verifier::loop_isolation(false)]
pub fn center_lines(lines: Vec<LineDraw>, widest: i64) -> (r: Vec<LineDraw>)
    requires
        0 <= widest <= 0x1000_0000_0000,
        forall|i: int|
            0 <= i < lines@.len() ==> 0 <= (#[trigger] lines@[i]).width <= widest,
        forall|i: int, j: int|
            0 <= i < lines@.len() && 0 <= j < lines@[i].glyphs@.len() ==> {
                let g = #[trigger] lines@[i].glyphs@[j];
                -0x1000_0000_0000 <= g.bounds.min_x <= 0x1000_0000_0000
                    && -0x1000_0000_0000 <= g.bounds.max_x <= 0x1000_0000_0000
            },
    ensures
        r@.len() == lines@.len(),
        forall|i: int|
            0 <= i < lines@.len() ==> {
                let d = spec_center_shift(lines@[i].width, widest);
                &&& (#[trigger] r@[i]).width == lines@[i].width
                &&& r@[i].glyphs@ == lines@[i].glyphs@.map_values(
                    |g: GlyphDraw| spec_shift_glyph(g, d),
                )
            },
{
    let mut out: Vec<LineDraw> = Vec::new();
    let n = lines.len();
    let mut idx: usize = 0;
    while idx < n
        invariant
            0 <= idx <= n,
            n == lines@.len(),
            out@.len() == idx,
            forall|i: int|
                0 <= i < idx ==> {
                    let d = spec_center_shift(lines@[i].width, widest);
                    &&& (#[trigger] out@[i]).width == lines@[i].width
                    &&& out@[i].glyphs@ == lines@[i].glyphs@.map_values(
                        |g: GlyphDraw| spec_shift_glyph(g, d),
                    )
                },
        decreases n - idx,
    {
        let line = &lines[idx];
        let d = ((widest - line.width) as u64 / 2) as i64;
        assert(d == spec_center_shift(line.width, widest));
        let m = line.glyphs.len();
        let mut shifted: Vec<GlyphDraw> = Vec::new();
        let mut j: usize = 0;
        while j < m
            invariant
                0 <= j <= m,
                m == line.glyphs@.len(),
                line == lines@[idx as int],
                idx < n == lines@.len(),
                0 <= d <= 0x1000_0000_0000,
                shifted@ == line.glyphs@.take(j as int).map_values(
                    |g: GlyphDraw| spec_shift_glyph(g, d as int),
                ),
            decreases m - j,
        {
            let g = line.glyphs[j];
            let s = GlyphDraw {
                bounds: RectI {
                    min_x: g.bounds.min_x + d,
                    min_y: g.bounds.min_y,
                    max_x: g.bounds.max_x + d,
                    max_y: g.bounds.max_y,
                },
                glyph: g.glyph,
            };
            shifted.push(s);
            assert(shifted@ =~= line.glyphs@.take(j + 1 as int).map_values(
                |g: GlyphDraw| spec_shift_glyph(g, d as int),
            ));
            j += 1;
        }
        assert(line.glyphs@.take(m as int) =~= line.glyphs@);
        out.push(LineDraw { glyphs: shifted, width: line.width });
        idx += 1;
    }
    out
}

/// Line wrap and centering align midpoints: when the width differences are
/// even, the centered span of every line has the same horizontal midpoint as
/// the widest line (the doubled midpoint equals the widest width). An odd
/// width difference truncates the shift and may leave the midpoint half a
/// unit left of center.
pub proof fn lemma_centering_aligns_midpoints(w1: i64, w2: i64, widest: i64)
    requires
        0 <= w1 <= widest,
        0 <= w2 <= widest,
        (widest - w1) % 2 == 0,
        (widest - w2) % 2 == 0,
    ensures
        2 * spec_center_shift(w1, widest) + w1 == widest,
        2 * spec_center_shift(w2, widest) + w2 == widest,
        spec_center_shift(w1, widest) + w1 + spec_center_shift(w1, widest) == spec_center_shift(
            w2,
            widest,
        ) + w2 + spec_center_shift(w2, widest),
{
    assert(2 * ((widest - w1) / 2) == widest - w1);
    assert(2 * ((widest - w2) / 2) == widest - w2);
}


/// One label: its anchor point in raw tile units, its pre-centering bounds,
/// its laid-out lines and the text size it was laid out at.
pub struct LabelDraw {
    pub offset: crate::geometry::GeoPoint,
    pub bounds: RectI,
    pub lines: Vec<LineDraw>,
    pub text_size: i64,
}

/// Mathematical model of a [`LabelDraw`].
#[verifier::ext_equal]
pub struct LabelModel {
    pub offset: crate::geometry::GeoPoint,
    pub bounds: RectI,
    pub lines: Seq<LineModel>,
    pub text_size: i64,
}

impl View for LabelDraw {
    type V = LabelModel;

    open spec fn view(&self) -> LabelModel {
        LabelModel {
            offset: self.offset,
            bounds: self.bounds,
            lines: self.lines@.map_values(|l: LineDraw| l@),
            text_size: self.text_size,
        }
    }
}

/// An anchor point inside the unit tile square (raw units run 0..=4096).
pub open spec fn spec_anchor_valid(p: crate::geometry::GeoPoint) -> bool {
    0 <= p.x <= 4096 && 0 <= p.y <= 4096
}

/// An owned copy of a line list.
#[verifier::loop_isolation(false)]
pub fn dup_lines(lines: &Vec<LineDraw>) -> (r: Vec<LineDraw>)
    ensures
        r@.map_values(|l: LineDraw| l@) == lines@.map_values(|l: LineDraw| l@),
{
    let mut out: Vec<LineDraw> = Vec::new();
    let n = lines.len();
    let mut i: usize = 0;
    while i < n
        invariant
            0 <= i <= n,
            n == lines@.len(),
            out@.len() == i,
            forall|j: int| 0 <= j < i ==> (#[trigger] out@[j])@ == lines@[j]@,
        decreases n - i,
    {
        let src_line = &lines[i];
        let mut glyphs: Vec<GlyphDraw> = Vec::new();
        let m = src_line.glyphs.len();
        let mut j: usize = 0;
        while j < m
            invariant
                0 <= j <= m,
                m == src_line.glyphs@.len(),
                src_line == lines@[i as int],
                i < n == lines@.len(),
                glyphs@ == src_line.glyphs@.take(j as int),
            decreases m - j,
        {
            glyphs.push(src_line.glyphs[j]);
            assert(glyphs@ =~= src_line.glyphs@.take(j + 1 as int));
            j += 1;
        }
        assert(src_line.glyphs@.take(m as int) =~= src_line.glyphs@);
        let copied = LineDraw { glyphs, width: src_line.width };
        assert(copied@ =~= lines@[i as int]@);
        out.push(copied);
        i += 1;
    }
    proof {
        assert(out@.map_values(|l: LineDraw| l@) =~= lines@.map_values(|l: LineDraw| l@)) by {
            assert(forall|j: int| 0 <= j < n ==> (#[trigger] out@[j])@ == lines@[j]@);
        }
    }
    out
}

/// Builds one label per valid anchor point, sharing the laid-out lines:
/// points outside the unit tile square are discarded, order is kept.
#[verifier::loop_isolation(false)]
pub fn build_labels(
    points: &Vec<crate::geometry::GeoPoint>,
    lines: &Vec<LineDraw>,
    bounds: RectI,
    text_size: i64,
) -> (r: Vec<LabelDraw>)
    ensures
        r@.map_values(|l: LabelDraw| l@) == points@.filter(
            |p: crate::geometry::GeoPoint| spec_anchor_valid(p),
        ).map_values(
            |p: crate::geometry::GeoPoint|
                LabelModel {
                    offset: p,
                    bounds,
                    lines: lines@.map_values(|l: LineDraw| l@),
                    text_size,
                },
        ),
{
    let valid = |p: crate::geometry::GeoPoint| -> (r: bool)
        ensures
            r == spec_anchor_valid(p),
        { 0 <= p.x && p.x <= 4096 && 0 <= p.y && p.y <= 4096 };
    let mut out: Vec<LabelDraw> = Vec::new();
    let n = points.len();
    let mut i: usize = 0;
    let ghost pred = |p: crate::geometry::GeoPoint| spec_anchor_valid(p);
    proof {
        reveal(Seq::filter);
        assert(points@.take(0int) =~= Seq::<crate::geometry::GeoPoint>::empty());
        assert(points@.take(0int).filter(pred) =~= Seq::<crate::geometry::GeoPoint>::empty());
    }
    while i < n
        invariant
            0 <= i <= n,
            n == points@.len(),
            out@.len() == points@.take(i as int).filter(pred).len(),
            forall|j: int|
                0 <= j < out@.len() ==> (#[trigger] out@[j])@ == (LabelModel {
                    offset: points@.take(i as int).filter(pred)[j],
                    bounds,
                    lines: lines@.map_values(|l: LineDraw| l@),
                    text_size,
                }),
        decreases n - i,
    {
        let p = points[i];
        proof {
            reveal(Seq::filter);
            assert(points@.take(i + 1 as int).drop_last() =~= points@.take(i as int));
            assert(points@.take(i + 1 as int).last() == p);
            if pred(p) {
                assert(points@.take(i + 1 as int).filter(pred) =~= points@.take(
                    i as int,
                ).filter(pred).push(p));
            } else {
                assert(points@.take(i + 1 as int).filter(pred) =~= points@.take(
                    i as int,
                ).filter(pred));
            }
        }
        if valid(p) {
            let lbl = LabelDraw { offset: p, bounds, lines: dup_lines(lines), text_size };
            assert(lbl@ =~= LabelModel {
                offset: p,
                bounds,
                lines: lines@.map_values(|l: LineDraw| l@),
                text_size,
            });
            out.push(lbl);
        }
        i += 1;
    }
    proof {
        assert(points@.take(n as int) =~= points@);
        let f = |p: crate::geometry::GeoPoint|
            LabelModel {
                offset: p,
                bounds,
                lines: lines@.map_values(|l: LineDraw| l@),
                text_size,
            };
        assert(out@.map_values(|l: LabelDraw| l@) =~= points@.filter(pred).map_values(f)) by {
            assert(forall|j: int|
                0 <= j < out@.len() ==> (#[trigger] out@[j])@ == f(points@.filter(pred)[j]));
        }
    }
    out
}


/// Whether two boxes overlap (strictly, in both axes).
pub open spec fn spec_rects_overlap(a: RectI, b: RectI) -> bool {
    a.min_x < b.max_x && b.min_x < a.max_x && a.min_y < b.max_y && b.min_y < a.max_y
}

fn rects_overlap(a: RectI, b: RectI) -> (r: bool)
    ensures
        r == spec_rects_overlap(a, b),
{
    a.min_x < b.max_x && b.min_x < a.max_x && a.min_y < b.max_y && b.min_y < a.max_y
}

/// Overlap suppression over label boxes, first accepted wins: a label is
/// kept exactly when its box overlaps no earlier-kept box.
pub open spec fn spec_select_labels(boxes: Seq<RectI>, i: int, kept: Seq<int>) -> Seq<int>
    decreases boxes.len() - i,
{
    if i < 0 || i >= boxes.len() {
        kept
    } else {
        let clear = forall|j: int|
            0 <= j < kept.len() ==> !spec_rects_overlap(boxes[i], boxes[#[trigger] kept[j]]);
        if clear {
            spec_select_labels(boxes, i + 1, kept.push(i))
        } else {
            spec_select_labels(boxes, i + 1, kept)
        }
    }
}

/// Selects the labels to draw, in order: each label's box is tested against
/// every previously accepted box, and overlapping labels are skipped. The
/// result lists the indices of the accepted labels.
#[verifier::loop_isolation(false)]
pub fn select_labels(boxes: &Vec<RectI>) -> (r: Vec<usize>)
    ensures
        r@.map_values(|u: usize| u as int) == spec_select_labels(boxes@, 0, Seq::empty()),
        forall|j: int| 0 <= j < r@.len() ==> (#[trigger] r@[j]) < boxes@.len(),
{
    let n = boxes.len();
    let mut kept: Vec<usize> = Vec::new();
    let mut i: usize = 0;
    proof {
        assert(kept@.map_values(|u: usize| u as int) =~= Seq::<int>::empty());
    }
    while i < n
        invariant
            0 <= i <= n,
            n == boxes@.len(),
            forall|j: int| 0 <= j < kept@.len() ==> (#[trigger] kept@[j]) < i,
            spec_select_labels(boxes@, 0, Seq::empty()) == spec_select_labels(
                boxes@,
                i as int,
                kept@.map_values(|u: usize| u as int),
            ),
        decreases n - i,
    {
        let ghost keptm = kept@.map_values(|u: usize| u as int);
        let cur = boxes[i];
        let mut clear = true;
        let m = kept.len();
        let mut j: usize = 0;
        while j < m
            invariant
                0 <= j <= m,
                m == kept@.len() == keptm.len(),
                n == boxes@.len(),
                forall|k: int| 0 <= k < kept@.len() ==> (#[trigger] kept@[k]) < i <= n,
                forall|k: int| 0 <= k < keptm.len() ==> keptm[k] == kept@[k] as int,
                cur == boxes@[i as int],
                clear == forall|k: int|
                    0 <= k < j ==> !spec_rects_overlap(boxes@[i as int], boxes@[#[trigger] keptm[k]]),
            decreases m - j,
        {
            proof {
                assert(keptm[j as int] == kept@[j as int] as int);
            }
            if rects_overlap(cur, boxes[kept[j]]) {
                assert(spec_rects_overlap(boxes@[i as int], boxes@[keptm[j as int]]));
                clear = false;
            } else {
                if clear {
                    assert forall|k: int| 0 <= k < j + 1 implies !spec_rects_overlap(
                        boxes@[i as int],
                        boxes@[#[trigger] keptm[k]],
                    ) by {}
                }
            }
            j += 1;
        }
        proof {
            let spec_clear = forall|k: int|
                0 <= k < keptm.len() ==> !spec_rects_overlap(
                    boxes@[i as int],
                    boxes@[#[trigger] keptm[k]],
                );
            if clear {
                assert(spec_clear);
            } else {
                assert(!spec_clear);
            }
        }
        if clear {
            kept.push(i);
            proof {
                assert(kept@.map_values(|u: usize| u as int) =~= keptm.push(i as int));
            }
        }
        i += 1;
    }
    kept
}

} // verus!

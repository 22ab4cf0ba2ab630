//! Decoder for the tile geometry command stream.
//!
//! The stream is a sequence of `u32` words: a command word holds the command
//! in its low three bits (`MoveTo` = 1, `LineTo` = 2, `ClosePath` = 7) and a
//! repeat count in the remaining bits; `MoveTo` and `LineTo` each consume one
//! pair of zigzag-encoded coordinate deltas, accumulated into a cursor.
//!
//! Decoding is a lazy state machine: [`PathDecoder::next`] produces one
//! [`PathEvent`] at a time. Its contract ties every call to the mathematical
//! event sequence [`events_from`]. Three consumption modes exist: polygons
//! (rings closed by `ClosePath` or end of stream), line strings (`MoveTo`
//! while a subpath is open first ends it un-closed; `ClosePath` is ignored),
//! and points (each `MoveTo` pair yields one point).
//!
//! Truncated coordinate pairs end the feature's path early and silently; a
//! cursor overflow wraps around (`i64` wrapping addition).

use vstd::prelude::*;

verus! {

/// Zigzag decoding of one coordinate delta: even words are nonnegative,
/// odd words negative.
pub open spec fn spec_zigzag(n: u32) -> i64 {
    if n % 2 == 0 {
        (n / 2) as i64
    } else {
        (-((n / 2) as i64) - 1) as i64
    }
}

/// Zigzag encoding of a delta that fits in 32 bits.
pub open spec fn spec_zigzag_encode(v: i64) -> u32
    recommends
        -0x8000_0000 <= v <= 0x7FFF_FFFF,
{
    if v >= 0 {
        (2 * v) as u32
    } else {
        (-2 * v - 1) as u32
    }
}

/// Encoding then decoding a delta gives the delta back.
pub proof fn lemma_zigzag_roundtrip(v: i64)
    requires
        -0x8000_0000 <= v <= 0x7FFF_FFFF,
    ensures
        spec_zigzag(spec_zigzag_encode(v)) == v,
{
    if v >= 0 {
        let n = (2 * v) as u32;
        assert(n % 2 == 0 && n / 2 == v);
    } else {
        let n = (-2 * v - 1) as u32;
        assert(n % 2 == 1 && n / 2 == -v - 1);
    }
}

pub fn zigzag_decode(n: u32) -> (r: i64)
    ensures
        r == spec_zigzag(n),
{
    if n % 2 == 0 {
        (n / 2) as i64
    } else {
        -((n / 2) as i64) - 1
    }
}

pub fn zigzag_encode(v: i64) -> (r: u32)
    requires
        -0x8000_0000 <= v <= 0x7FFF_FFFF,
    ensures
        r == spec_zigzag_encode(v),
        spec_zigzag(r) == v,
{
    proof {
        lemma_zigzag_roundtrip(v);
    }
    if v >= 0 {
        (2 * v) as u32
    } else {
        (-2 * v - 1) as u32
    }
}

/// A geometry command extracted from the low three bits of a command word.
#[derive(Debug, Copy, Clone, PartialEq, Eq, Structural)]
pub enum GeoCommand {
    MoveTo,
    LineTo,
    ClosePath,
    Unknown,
}

/// The command of a command word.
pub open spec fn spec_command(w: u32) -> GeoCommand {
    if w % 8 == 1 {
        GeoCommand::MoveTo
    } else if w % 8 == 2 {
        GeoCommand::LineTo
    } else if w % 8 == 7 {
        GeoCommand::ClosePath
    } else {
        GeoCommand::Unknown
    }
}

/// The repeat count of a command word.
pub open spec fn spec_count(w: u32) -> u32 {
    w / 8
}

pub fn command_of(w: u32) -> (r: GeoCommand)
    ensures
        r == spec_command(w),
{
    match w % 8 {
        1 => GeoCommand::MoveTo,
        2 => GeoCommand::LineTo,
        7 => GeoCommand::ClosePath,
        _ => GeoCommand::Unknown,
    }
}

/// Builds a command word from a command and a repeat count.
pub fn command_word(cmd: GeoCommand, count: u32) -> (r: u32)
    requires
        count < 0x2000_0000,
        !(cmd is Unknown),
    ensures
        spec_command(r) == cmd,
        spec_count(r) == count,
{
    let c: u32 = match cmd {
        GeoCommand::MoveTo => 1,
        GeoCommand::LineTo => 2,
        GeoCommand::ClosePath => 7,
        GeoCommand::Unknown => 0,
    };
    count * 8 + c
}

/// How a command stream is consumed: as polygon rings, as line strings, or as
/// bare points.
#[derive(Debug, Copy, Clone, PartialEq, Eq, Structural)]
pub enum DecodeMode {
    Polygon,
    LineString,
    Point,
}

/// A cursor position in raw tile units (1/4096 of a tile edge).
#[derive(Debug, Copy, Clone, PartialEq, Eq, Structural)]
pub struct GeoPoint {
    pub x: i64,
    pub y: i64,
}

/// One path event produced by the decoder. In point mode only `Begin` events
/// occur, one per decoded point.
#[derive(Debug, Copy, Clone, PartialEq, Eq, Structural)]
pub enum PathEvent {
    Begin { at: GeoPoint },
    Line { from: GeoPoint, to: GeoPoint },
    End { last: GeoPoint, first: GeoPoint, close: bool },
}

/// The decoder state: position in the stream, current command and remaining
/// repeat count, coordinate cursor, and the open subpath if any.
#[derive(Debug, Copy, Clone, PartialEq, Eq, Structural)]
pub struct PathDecoder {
    pub mode: DecodeMode,
    pub pos: usize,
    pub command: GeoCommand,
    pub count: u32,
    pub x: i64,
    pub y: i64,
    pub begin: GeoPoint,
    pub prev: GeoPoint,
    pub open: bool,
}

/// The exact sequence of events the decoder emits from state `st` onward when
/// reading `data`.
pub open spec fn events_from(data: Seq<u32>, st: PathDecoder) -> Seq<PathEvent>
    decreases data.len() - st.pos, (if st.open {
        1int
    } else {
        0int
    }), st.count when st.pos <= data.len() && data.len() <= usize::MAX
{
    if st.count == 0 {
        if st.pos < data.len() {
            let w = data[st.pos as int];
            let st2 = PathDecoder {
                pos: (st.pos + 1) as usize,
                command: spec_command(w),
                count: spec_count(w),
                ..st
            };
            events_from(data, st2)
        } else {
            // End of stream: an open subpath is force-ended, closed in
            // polygon mode, un-closed in line-string mode.
            if st.open {
                let e = PathEvent::End {
                    last: st.prev,
                    first: st.begin,
                    close: st.mode is Polygon,
                };
                seq![e] + events_from(data, PathDecoder { open: false, ..st })
            } else {
                Seq::empty()
            }
        }
    } else {
        match st.command {
            GeoCommand::MoveTo => {
                if st.mode is LineString && st.open {
                    // Re-opening a line string first ends the previous
                    // subpath; the pending MoveTo is not consumed.
                    let e = PathEvent::End { last: st.prev, first: st.begin, close: false };
                    seq![e] + events_from(data, PathDecoder { open: false, ..st })
                } else if st.pos + 2 <= data.len() {
                    let x2 = st.x.wrapping_add(spec_zigzag(data[st.pos as int]));
                    let y2 = st.y.wrapping_add(spec_zigzag(data[st.pos as int + 1]));
                    let at = GeoPoint { x: x2, y: y2 };
                    let st2 = PathDecoder {
                        pos: (st.pos + 2) as usize,
                        count: (st.count - 1) as u32,
                        x: x2,
                        y: y2,
                        begin: at,
                        prev: at,
                        open: !(st.mode is Point),
                        ..st
                    };
                    seq![PathEvent::Begin { at }] + events_from(data, st2)
                } else {
                    // Truncated coordinate pair: the path ends silently.
                    events_from(data, PathDecoder { pos: data.len() as usize, count: 0, ..st })
                }
            },
            GeoCommand::LineTo => {
                if !(st.mode is Point) && st.pos + 2 <= data.len() {
                    let x2 = st.x.wrapping_add(spec_zigzag(data[st.pos as int]));
                    let y2 = st.y.wrapping_add(spec_zigzag(data[st.pos as int + 1]));
                    let to = GeoPoint { x: x2, y: y2 };
                    let st2 = PathDecoder {
                        pos: (st.pos + 2) as usize,
                        count: (st.count - 1) as u32,
                        x: x2,
                        y: y2,
                        prev: to,
                        ..st
                    };
                    seq![PathEvent::Line { from: st.prev, to }] + events_from(data, st2)
                } else if st.mode is Point {
                    // Point mode ignores LineTo commands.
                    events_from(data, PathDecoder { count: (st.count - 1) as u32, ..st })
                } else {
                    events_from(data, PathDecoder { pos: data.len() as usize, count: 0, ..st })
                }
            },
            GeoCommand::ClosePath => {
                if st.mode is Polygon {
                    let e = PathEvent::End { last: st.prev, first: st.begin, close: true };
                    seq![e] + events_from(
                        data,
                        PathDecoder { count: (st.count - 1) as u32, open: false, ..st },
                    )
                } else {
                    // Line strings are never closed; point mode ignores it.
                    events_from(data, PathDecoder { count: (st.count - 1) as u32, ..st })
                }
            },
            GeoCommand::Unknown => events_from(
                data,
                PathDecoder { count: (st.count - 1) as u32, ..st },
            ),
        }
    }
}

impl PathDecoder {
    /// The decoder start state for one feature's command stream.
    pub open spec fn spec_new(mode: DecodeMode) -> PathDecoder {
        PathDecoder {
            mode,
            pos: 0,
            command: GeoCommand::Unknown,
            count: 0,
            x: 0,
            y: 0,
            begin: GeoPoint { x: 0, y: 0 },
            prev: GeoPoint { x: 0, y: 0 },
            open: false,
        }
    }

    pub fn new(mode: DecodeMode) -> (r: PathDecoder)
        ensures
            r == PathDecoder::spec_new(mode),
    {
        PathDecoder {
            mode,
            pos: 0,
            command: GeoCommand::Unknown,
            count: 0,
            x: 0,
            y: 0,
            begin: GeoPoint { x: 0, y: 0 },
            prev: GeoPoint { x: 0, y: 0 },
            open: false,
        }
    }

    /// Produces the next path event, or `None` once the stream is exhausted.
    /// The events of successive calls are exactly [`events_from`] of the
    /// state the decoder was in.
    #[verifier::loop_isolation(false)]
    pub fn next(&mut self, data: &[u32]) -> (r: Option<PathEvent>)
        requires
            old(self).pos <= data@.len(),
        ensures
            final(self).pos <= data@.len(),
            final(self).mode == old(self).mode,
            events_from(data@, *old(self)).len() > 0 ==> r == Some(
                events_from(data@, *old(self))[0],
            ) && events_from(data@, *final(self)) == events_from(data@, *old(self)).skip(1),
            events_from(data@, *old(self)).len() == 0 ==> r is None && events_from(
                data@,
                *final(self),
            ).len() == 0,
    {
        let slice_len: usize = data.len();
        assert(slice_len as int == data@.len() && data@.len() <= usize::MAX);
        loop
            invariant
                data@.len() <= usize::MAX,
                self.pos <= data@.len(),
                self.mode == old(self).mode,
                events_from(data@, *self) == events_from(data@, *old(self)),
            decreases
                    data@.len() - self.pos,
                    (if self.open {
                        1int
                    } else {
                        0int
                    }),
                    self.count,
        {
            let ghost pre = *self;
            if self.count == 0 {
                if self.pos < data.len() {
                    let w = data[self.pos];
                    self.command = command_of(w);
                    self.count = w >> 3;
                    self.pos = self.pos + 1;
                    assert(w >> 3 == w / 8) by (bit_vector);
                    assert(events_from(data@, *self) == events_from(data@, pre));
                } else {
                    if self.open {
                        self.open = false;
                        let e = PathEvent::End {
                            last: self.prev,
                            first: self.begin,
                            close: matches!(self.mode, DecodeMode::Polygon),
                        };
                        assert(events_from(data@, pre) =~= seq![e] + events_from(data@, *self));
                        return Some(e);
                    } else {
                        assert(events_from(data@, pre).len() == 0);
                        return None;
                    }
                }
            } else {
                match self.command {
                    GeoCommand::MoveTo => {
                        if matches!(self.mode, DecodeMode::LineString) && self.open {
                            self.open = false;
                            let e = PathEvent::End {
                                last: self.prev,
                                first: self.begin,
                                close: false,
                            };
                            assert(events_from(data@, pre) =~= seq![e] + events_from(
                                data@,
                                *self,
                            ));
                            return Some(e);
                        } else if data.len() - self.pos >= 2 {
                            let dx = zigzag_decode(data[self.pos]);
                            let dy = zigzag_decode(data[self.pos + 1]);
                            self.x = self.x.wrapping_add(dx);
                            self.y = self.y.wrapping_add(dy);
                            self.pos = self.pos + 2;
                            self.count = self.count - 1;
                            let at = GeoPoint { x: self.x, y: self.y };
                            self.begin = at;
                            self.prev = at;
                            self.open = !matches!(self.mode, DecodeMode::Point);
                            let e = PathEvent::Begin { at };
                            assert(events_from(data@, pre) =~= seq![e] + events_from(
                                data@,
                                *self,
                            ));
                            return Some(e);
                        } else {
                            self.pos = data.len();
                            self.count = 0;
                            assert(events_from(data@, *self) == events_from(data@, pre));
                        }
                    },
                    GeoCommand::LineTo => {
                        if matches!(self.mode, DecodeMode::Point) {
                            self.count = self.count - 1;
                            assert(events_from(data@, *self) == events_from(data@, pre));
                        } else if data.len() - self.pos >= 2 {
                            let dx = zigzag_decode(data[self.pos]);
                            let dy = zigzag_decode(data[self.pos + 1]);
                            let from = self.prev;
                            self.x = self.x.wrapping_add(dx);
                            self.y = self.y.wrapping_add(dy);
                            self.pos = self.pos + 2;
                            self.count = self.count - 1;
                            let to = GeoPoint { x: self.x, y: self.y };
                            self.prev = to;
                            let e = PathEvent::Line { from, to };
                            assert(events_from(data@, pre) =~= seq![e] + events_from(
                                data@,
                                *self,
                            ));
                            return Some(e);
                        } else {
                            self.pos = data.len();
                            self.count = 0;
                            assert(events_from(data@, *self) == events_from(data@, pre));
                        }
                    },
                    GeoCommand::ClosePath => {
                        self.count = self.count - 1;
                        if matches!(self.mode, DecodeMode::Polygon) {
                            self.open = false;
                            let e = PathEvent::End {
                                last: self.prev,
                                first: self.begin,
                                close: true,
                            };
                            assert(events_from(data@, pre) =~= seq![e] + events_from(
                                data@,
                                *self,
                            ));
                            return Some(e);
                        } else {
                            assert(events_from(data@, *self) == events_from(data@, pre));
                        }
                    },
                    GeoCommand::Unknown => {
                        self.count = self.count - 1;
                        assert(events_from(data@, *self) == events_from(data@, pre));
                    },
                }
            }
        }
    }

    /// Decodes a whole command stream into its event sequence.
    #[verifier::loop_isolation(false)]
    pub fn decode_all(mode: DecodeMode, data: &[u32]) -> (r: Vec<PathEvent>)
        ensures
            r@ == events_from(data@, PathDecoder::spec_new(mode)),
    {
        let mut dec = PathDecoder::new(mode);
        let mut out: Vec<PathEvent> = Vec::new();
        let ghost all = events_from(data@, PathDecoder::spec_new(mode));
        loop
            invariant
                dec.pos <= data@.len(),
                out@ + events_from(data@, dec) == all,
            decreases events_from(data@, dec).len(),
        {
            let ghost before = events_from(data@, dec);
            match dec.next(data) {
                Some(e) => {
                    out.push(e);
                    assert(out@ + events_from(data@, dec) =~= all);
                },
                None => {
                    assert(out@ =~= all);
                    return out;
                },
            }
        }
    }
}


/// A coordinate small enough that encoding deltas between such coordinates
/// cannot overflow.
pub open spec fn pt_small(p: GeoPoint) -> bool {
    -0x2000_0000 <= p.x <= 0x2000_0000 && -0x2000_0000 <= p.y <= 0x2000_0000
}

/// The line-string encoding of a position sequence: one `MoveTo` to the first
/// position, then one `LineTo` run over the remaining positions, every
/// coordinate as a zigzag-encoded delta from its predecessor.
pub open spec fn spec_encode_line(points: Seq<GeoPoint>) -> Seq<u32>
    recommends
        points.len() >= 1,
{
    let head = seq![
        9u32,
        spec_zigzag_encode(points[0].x),
        spec_zigzag_encode(points[0].y),
    ];
    if points.len() == 1 {
        head
    } else {
        head + seq![(((points.len() - 1) * 8) + 2) as u32] + delta_words(points)
    }
}

/// The zigzag-encoded coordinate deltas between consecutive positions,
/// interleaved x then y.
pub open spec fn delta_words(points: Seq<GeoPoint>) -> Seq<u32>
    recommends
        points.len() >= 1,
{
    Seq::new(
        2 * (points.len() - 1) as nat,
        |j: int|
            if j % 2 == 0 {
                spec_zigzag_encode((points[j / 2 + 1].x - points[j / 2].x) as i64)
            } else {
                spec_zigzag_encode((points[j / 2 + 1].y - points[j / 2].y) as i64)
            },
    )
}

/// The events a decoded line string consists of, after its opening `Begin`:
/// one `Line` per remaining position, then the un-closed `End`.
pub open spec fn line_tail(begin: GeoPoint, prev: GeoPoint, pts: Seq<GeoPoint>) -> Seq<PathEvent>
    decreases pts.len(),
{
    if pts.len() == 0 {
        seq![PathEvent::End { last: prev, first: begin, close: false }]
    } else {
        seq![PathEvent::Line { from: prev, to: pts[0] }] + line_tail(begin, pts[0], pts.skip(1))
    }
}

/// The full event sequence of a line string through the given positions.
pub open spec fn spec_line_events(points: Seq<GeoPoint>) -> Seq<PathEvent>
    recommends
        points.len() >= 1,
{
    seq![PathEvent::Begin { at: points[0] }] + line_tail(points[0], points[0], points.skip(1))
}

/// Decoding a pending `LineTo` run whose deltas encode the positions `pts`
/// yields exactly one `Line` event per position and the final un-closed `End`.
proof fn lemma_decode_lines(data: Seq<u32>, st: PathDecoder, pts: Seq<GeoPoint>)
    requires
        st.mode is LineString,
        st.open,
        st.command is LineTo,
        st.prev == (GeoPoint { x: st.x, y: st.y }),
        pt_small(st.prev),
        st.count == pts.len(),
        data.len() <= usize::MAX,
        data.len() == st.pos + 2 * pts.len(),
        forall|i: int| 0 <= i < pts.len() ==> pt_small(#[trigger] pts[i]),
        forall|i: int|
            0 <= i < pts.len() ==> #[trigger] data[st.pos + 2 * i] == spec_zigzag_encode(
                (pts[i].x - (if i == 0 {
                    st.x as int
                } else {
                    pts[i - 1].x as int
                })) as i64,
            ),
        forall|i: int|
            0 <= i < pts.len() ==> #[trigger] data[st.pos + 2 * i + 1] == spec_zigzag_encode(
                (pts[i].y - (if i == 0 {
                    st.y as int
                } else {
                    pts[i - 1].y as int
                })) as i64,
            ),
    ensures
        events_from(data, st) == line_tail(st.begin, st.prev, pts),
    decreases pts.len(),
{
    if pts.len() == 0 {
        let st2 = PathDecoder { open: false, ..st };
        assert(events_from(data, st2) =~= Seq::empty());
        assert(events_from(data, st) =~= line_tail(st.begin, st.prev, pts));
    } else {
        let dx = (pts[0].x - st.x) as i64;
        let dy = (pts[0].y - st.y) as i64;
        lemma_zigzag_roundtrip(dx);
        lemma_zigzag_roundtrip(dy);
        assert(data[st.pos + 2 * 0] == spec_zigzag_encode((pts[0].x - st.x as int) as i64));
        assert(data[st.pos + 2 * 0 + 1] == spec_zigzag_encode((pts[0].y - st.y as int) as i64));
        assert(data[st.pos as int] == spec_zigzag_encode(dx));
        assert(data[st.pos as int + 1] == spec_zigzag_encode(dy));
        let x2 = st.x.wrapping_add(spec_zigzag(data[st.pos as int]));
        let y2 = st.y.wrapping_add(spec_zigzag(data[st.pos as int + 1]));
        assert(x2 == pts[0].x && y2 == pts[0].y);
        let to = GeoPoint { x: x2, y: y2 };
        let st2 = PathDecoder {
            pos: (st.pos + 2) as usize,
            count: (st.count - 1) as u32,
            x: x2,
            y: y2,
            prev: to,
            ..st
        };
        let rest = pts.skip(1);
        assert forall|i: int| 0 <= i < rest.len() implies #[trigger] data[st2.pos + 2 * i]
            == spec_zigzag_encode(
            (rest[i].x - (if i == 0 {
                st2.x as int
            } else {
                rest[i - 1].x as int
            })) as i64,
        ) by {
            assert(rest[i] == pts[i + 1]);
            assert(data[st.pos + 2 * (i + 1)] == spec_zigzag_encode(
                (pts[i + 1].x - pts[i].x) as i64,
            ));
            if i > 0 {
                assert(rest[i - 1] == pts[i]);
            }
        }
        assert forall|i: int| 0 <= i < rest.len() implies #[trigger] data[st2.pos + 2 * i + 1]
            == spec_zigzag_encode(
            (rest[i].y - (if i == 0 {
                st2.y as int
            } else {
                rest[i - 1].y as int
            })) as i64,
        ) by {
            assert(rest[i] == pts[i + 1]);
            assert(data[st.pos + 2 * (i + 1) + 1] == spec_zigzag_encode(
                (pts[i + 1].y - pts[i].y) as i64,
            ));
            if i > 0 {
                assert(rest[i - 1] == pts[i]);
            }
        }
        lemma_decode_lines(data, st2, rest);
        assert(events_from(data, st) =~= seq![PathEvent::Line { from: st.prev, to }] + events_from(
            data,
            st2,
        ));
        assert(line_tail(st.begin, st.prev, pts) =~= seq![PathEvent::Line { from: st.prev, to }]
            + line_tail(st.begin, pts[0], rest));
    }
}

/// Delta-zigzag round trip over a whole line string: decoding the encoding of
/// any position sequence reproduces exactly those cumulative positions, as a
/// `Begin` at the first position, a `Line` to each further position, and the
/// final un-closed `End`.
pub proof fn lemma_line_roundtrip(points: Seq<GeoPoint>)
    requires
        1 <= points.len() <= 0x1000_0000,
        forall|i: int| 0 <= i < points.len() ==> pt_small(#[trigger] points[i]),
    ensures
        events_from(spec_encode_line(points), PathDecoder::spec_new(DecodeMode::LineString))
            == spec_line_events(points),
{
    let data = spec_encode_line(points);
    let st0 = PathDecoder::spec_new(DecodeMode::LineString);
    let p0 = points[0];
    lemma_zigzag_roundtrip(p0.x);
    lemma_zigzag_roundtrip(p0.y);
    // Fetch the MoveTo command word.
    let st1 = PathDecoder { pos: 1, command: spec_command(9), count: spec_count(9), ..st0 };
    assert(spec_command(9) is MoveTo && spec_count(9) == 1);
    assert(events_from(data, st0) == events_from(data, st1));
    // Consume the first coordinate pair.
    let x1 = st1.x.wrapping_add(spec_zigzag(data[1]));
    let y1 = st1.y.wrapping_add(spec_zigzag(data[2]));
    assert(x1 == p0.x && y1 == p0.y);
    let at = GeoPoint { x: x1, y: y1 };
    let st2 = PathDecoder {
        pos: 3,
        count: 0,
        x: x1,
        y: y1,
        begin: at,
        prev: at,
        open: true,
        ..st1
    };
    assert(events_from(data, st1) =~= seq![PathEvent::Begin { at }] + events_from(data, st2));
    if points.len() == 1 {
        let st3 = PathDecoder { open: false, ..st2 };
        assert(events_from(data, st3) =~= Seq::empty());
        assert(events_from(data, st2) =~= line_tail(at, at, points.skip(1)));
    } else {
        // Fetch the LineTo command word.
        let n = points.len();
        let w = (((n - 1) * 8) + 2) as u32;
        assert(data[3] == w);
        assert(w % 8 == 2 && w / 8 == n - 1) by (nonlinear_arith)
            requires
                w == (n - 1) * 8 + 2,
                1 <= n <= 0x1000_0000,
        ;
        let st3 = PathDecoder { pos: 4, command: spec_command(w), count: spec_count(w), ..st2 };
        assert(events_from(data, st2) == events_from(data, st3));
        let rest = points.skip(1);
        assert forall|i: int| 0 <= i < rest.len() implies #[trigger] data[st3.pos + 2 * i]
            == spec_zigzag_encode(
            (rest[i].x - (if i == 0 {
                st3.x as int
            } else {
                rest[i - 1].x as int
            })) as i64,
        ) by {
            assert(data[st3.pos + 2 * i] == delta_words(points)[2 * i]);
            assert(rest[i] == points[i + 1]);
            if i > 0 {
                assert(rest[i - 1] == points[i]);
            }
        }
        assert forall|i: int| 0 <= i < rest.len() implies #[trigger] data[st3.pos + 2 * i + 1]
            == spec_zigzag_encode(
            (rest[i].y - (if i == 0 {
                st3.y as int
            } else {
                rest[i - 1].y as int
            })) as i64,
        ) by {
            assert(data[st3.pos + 2 * i + 1] == delta_words(points)[2 * i + 1]);
            assert(rest[i] == points[i + 1]);
            if i > 0 {
                assert(rest[i - 1] == points[i]);
            }
        }
        lemma_decode_lines(data, st3, rest);
    }
    assert(events_from(data, st0) =~= spec_line_events(points));
}

/// Encodes a position sequence as a line-string command stream. Decoding the
/// result reproduces the positions exactly (see [`lemma_line_roundtrip`]).
#[verifier::loop_isolation(false)]
pub fn encode_line_string(points: &Vec<GeoPoint>) -> (r: Vec<u32>)
    requires
        1 <= points@.len() <= 0x1000_0000,
        forall|i: int| 0 <= i < points@.len() ==> pt_small(#[trigger] points@[i]),
    ensures
        r@ == spec_encode_line(points@),
        events_from(r@, PathDecoder::spec_new(DecodeMode::LineString)) == spec_line_events(
            points@,
        ),
{
    proof {
        lemma_line_roundtrip(points@);
    }
    let n = points.len();
    let mut r: Vec<u32> = Vec::new();
    r.push(9u32);
    r.push(zigzag_encode(points[0].x));
    r.push(zigzag_encode(points[0].y));
    if n == 1 {
        assert(r@ =~= spec_encode_line(points@));
        return r;
    }
    let line_word: u32 = (((n - 1) * 8) + 2) as u32;
    r.push(line_word);
    let ghost head = r@;
    let mut i: usize = 1;
    while i < n
        invariant
            1 <= i <= n,
            n == points@.len(),
            r@ == head + delta_words(points@).take(2 * (i - 1)),
        decreases n - i,
    {
        let dx = points[i].x - points[i - 1].x;
        let dy = points[i].y - points[i - 1].y;
        r.push(zigzag_encode(dx));
        r.push(zigzag_encode(dy));
        proof {
            let j = 2 * (i - 1);
            assert(delta_words(points@)[j] == spec_zigzag_encode(dx));
            assert(delta_words(points@)[j + 1] == spec_zigzag_encode(dy));
            assert(head + delta_words(points@).take(2 * (i - 1)) + seq![
                spec_zigzag_encode(dx),
                spec_zigzag_encode(dy),
            ] =~= head + delta_words(points@).take(2 * i));
        }
        i += 1;
    }
    proof {
        assert(delta_words(points@).take(2 * (n - 1)) =~= delta_words(points@));
        assert(r@ =~= spec_encode_line(points@));
    }
    r
}

} // verus!

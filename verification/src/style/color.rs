//! Colors of the style document.
//!
//! Channels are fixed-point with three decimal places (`1000` is full
//! intensity, see [`crate::num`]). A color keeps the representation it was
//! declared in — RGB or HSL — because interpolation works channelwise in the
//! native representation.
//!
//! [`color_parse`] reads the textual color forms of a style document:
//! `#rgb`, `#rrggbb`, `rgb(..)`, `rgba(..)`, `hsl(..)`, `hsla(..)`. Number
//! reading is permissive, as the grammar of the original documents is: bytes
//! other than digits and the decimal point are skipped, a missing component
//! reads as zero, fraction digits past the third are dropped, and a repeated
//! decimal point restarts the fraction.

use vstd::prelude::*;

use crate::num::{bounded, lerp, spec_lerp};

verus! {

/// A color in one of its two native representations.
#[derive(Debug, Copy, Clone, PartialEq, Eq, Structural)]
pub enum Color {
    Rgba(Rgba),
    Hsla(Hsla),
}

/// Red, green, blue, alpha; each channel `0..=1000`.
#[derive(Debug, Copy, Clone, PartialEq, Eq, Structural)]
pub struct Rgba {
    pub r: i64,
    pub g: i64,
    pub b: i64,
    pub a: i64,
}

/// Hue as a fraction of a full turn (`0..=1000`), saturation, lightness,
/// alpha.
#[derive(Debug, Copy, Clone, PartialEq, Eq, Structural)]
pub struct Hsla {
    pub h: i64,
    pub s: i64,
    pub l: i64,
    pub a: i64,
}

/// Channels that interpolation arithmetic accepts.
pub open spec fn rgba_bounded(c: Rgba) -> bool {
    bounded(c.r) && bounded(c.g) && bounded(c.b) && bounded(c.a)
}

pub open spec fn hsla_bounded(c: Hsla) -> bool {
    bounded(c.h) && bounded(c.s) && bounded(c.l) && bounded(c.a)
}

pub open spec fn color_bounded(c: Color) -> bool {
    match c {
        Color::Rgba(v) => rgba_bounded(v),
        Color::Hsla(v) => hsla_bounded(v),
    }
}

/// Clamps to one fixed-point unit.
pub open spec fn unit(v: i64) -> int {
    if v < 0 {
        0
    } else if v > 1000 {
        1000
    } else {
        v as int
    }
}

/// The RGB equivalent of an HSL color: hue sector decomposition, exact in
/// fixed-point (fractions rounded toward zero).
pub open spec fn spec_hsl_to_rgba(hsla: Hsla) -> Rgba {
    let h6 = unit(hsla.h) * 6;
    let s = unit(hsla.s);
    let l = unit(hsla.l);
    let c = (1000 - abs_int(2 * l - 1000)) * s / 1000;
    let x = c * (1000 - abs_int((h6 % 2000) - 1000)) / 1000;
    let sector = if h6 == 6000 {
        5int
    } else {
        h6 / 1000
    };
    let m = l - c / 2;
    let rgb = if sector == 0 {
        (c, x, 0int)
    } else if sector == 1 {
        (x, c, 0int)
    } else if sector == 2 {
        (0int, c, x)
    } else if sector == 3 {
        (0int, x, c)
    } else if sector == 4 {
        (x, 0int, c)
    } else {
        (c, 0int, x)
    };
    Rgba { r: (rgb.0 + m) as i64, g: (rgb.1 + m) as i64, b: (rgb.2 + m) as i64, a: hsla.a }
}

pub open spec fn abs_int(v: int) -> int {
    if v < 0 {
        -v
    } else {
        v
    }
}

fn clamp_unit(v: i64) -> (r: i64)
    ensures
        r == unit(v),
{
    if v < 0 {
        0
    } else if v > 1000 {
        1000
    } else {
        v
    }
}

fn abs_i64(v: i64) -> (r: i64)
    requires
        v > i64::MIN,
    ensures
        r == abs_int(v as int),
{
    if v < 0 {
        -v
    } else {
        v
    }
}

impl Hsla {
    /// Converts to RGB; see [`spec_hsl_to_rgba`].
    pub fn to_rgba(&self) -> (r: Rgba)
        ensures
            r == spec_hsl_to_rgba(*self),
    {
        let h6 = clamp_unit(self.h) * 6;
        let s = clamp_unit(self.s);
        let l = clamp_unit(self.l);
        let t1 = 1000 - abs_i64(2 * l - 1000);
        assert(0 <= t1 * s <= 1_000_000) by (nonlinear_arith)
            requires
                0 <= t1 <= 1000,
                0 <= s <= 1000,
        ;
        let c = t1 * s / 1000;
        let t2 = 1000 - abs_i64((h6 % 2000) - 1000);
        assert(0 <= c * t2 <= 1_000_000) by (nonlinear_arith)
            requires
                0 <= c <= 1000,
                0 <= t2 <= 1000,
        ;
        let x = c * t2 / 1000;
        let sector = if h6 == 6000 {
            5
        } else {
            h6 / 1000
        };
        let m = l - c / 2;
        let (r, g, b) = if sector == 0 {
            (c, x, 0)
        } else if sector == 1 {
            (x, c, 0)
        } else if sector == 2 {
            (0, c, x)
        } else if sector == 3 {
            (0, x, c)
        } else if sector == 4 {
            (x, 0, c)
        } else {
            (c, 0, x)
        };
        Rgba { r: r + m, g: g + m, b: b + m, a: self.a }
    }
}

impl Color {
    /// The RGB form of this color.
    pub fn to_rgba(&self) -> (r: Rgba)
        ensures
            r == self.spec_to_rgba(),
    {
        match self {
            Color::Rgba(c) => *c,
            Color::Hsla(c) => c.to_rgba(),
        }
    }

    pub open spec fn spec_to_rgba(self) -> Rgba {
        match self {
            Color::Rgba(c) => c,
            Color::Hsla(c) => spec_hsl_to_rgba(c),
        }
    }

    /// The same color with its alpha channel replaced.
    pub fn with_alpha(&self, alpha: i64) -> (r: Color)
        ensures
            r == self.spec_with_alpha(alpha),
    {
        match self {
            Color::Rgba(c) => Color::Rgba(Rgba { a: alpha, ..*c }),
            Color::Hsla(c) => Color::Hsla(Hsla { a: alpha, ..*c }),
        }
    }

    pub open spec fn spec_with_alpha(self, alpha: i64) -> Color {
        match self {
            Color::Rgba(c) => Color::Rgba(Rgba { a: alpha, ..c }),
            Color::Hsla(c) => Color::Hsla(Hsla { a: alpha, ..c }),
        }
    }

    /// The declared alpha channel.
    pub fn alpha(&self) -> (r: i64)
        ensures
            r == self.spec_alpha(),
    {
        match self {
            Color::Rgba(c) => c.a,
            Color::Hsla(c) => c.a,
        }
    }

    pub open spec fn spec_alpha(self) -> i64 {
        match self {
            Color::Rgba(c) => c.a,
            Color::Hsla(c) => c.a,
        }
    }
}

impl Default for Color {
    /// Opaque black.
    fn default() -> (r: Color)
        ensures
            r == Color::Rgba(Rgba { r: 0, g: 0, b: 0, a: 1000 }),
    {
        Color::Rgba(Rgba { r: 0, g: 0, b: 0, a: 1000 })
    }
}

/// Interpolation between two colors works channelwise in the native
/// representation when both sides share it; otherwise both sides convert to
/// RGB first.
pub open spec fn spec_color_lerp(a: Color, b: Color, num: int, den: int) -> Color {
    match (a, b) {
        (Color::Rgba(l), Color::Rgba(r)) => Color::Rgba(spec_rgba_lerp(l, r, num, den)),
        (Color::Hsla(l), Color::Hsla(r)) => Color::Hsla(spec_hsla_lerp(l, r, num, den)),
        (Color::Rgba(l), Color::Hsla(r)) => Color::Rgba(
            spec_rgba_lerp(l, spec_hsl_to_rgba(r), num, den),
        ),
        (Color::Hsla(l), Color::Rgba(r)) => Color::Rgba(
            spec_rgba_lerp(spec_hsl_to_rgba(l), r, num, den),
        ),
    }
}

pub open spec fn spec_rgba_lerp(a: Rgba, b: Rgba, num: int, den: int) -> Rgba {
    Rgba {
        r: spec_lerp(a.r as int, b.r as int, num, den) as i64,
        g: spec_lerp(a.g as int, b.g as int, num, den) as i64,
        b: spec_lerp(a.b as int, b.b as int, num, den) as i64,
        a: spec_lerp(a.a as int, b.a as int, num, den) as i64,
    }
}

pub open spec fn spec_hsla_lerp(a: Hsla, b: Hsla, num: int, den: int) -> Hsla {
    Hsla {
        h: spec_lerp(a.h as int, b.h as int, num, den) as i64,
        s: spec_lerp(a.s as int, b.s as int, num, den) as i64,
        l: spec_lerp(a.l as int, b.l as int, num, den) as i64,
        a: spec_lerp(a.a as int, b.a as int, num, den) as i64,
    }
}

pub fn rgba_lerp(a: Rgba, b: Rgba, num: i64, den: i64) -> (r: Rgba)
    requires
        rgba_bounded(a),
        rgba_bounded(b),
        0 < den <= 2_000_000_000,
        0 <= num <= den,
    ensures
        r == spec_rgba_lerp(a, b, num as int, den as int),
        rgba_bounded(r),
{
    Rgba {
        r: lerp(a.r, b.r, num, den),
        g: lerp(a.g, b.g, num, den),
        b: lerp(a.b, b.b, num, den),
        a: lerp(a.a, b.a, num, den),
    }
}

pub fn hsla_lerp(a: Hsla, b: Hsla, num: i64, den: i64) -> (r: Hsla)
    requires
        hsla_bounded(a),
        hsla_bounded(b),
        0 < den <= 2_000_000_000,
        0 <= num <= den,
    ensures
        r == spec_hsla_lerp(a, b, num as int, den as int),
        hsla_bounded(r),
{
    Hsla {
        h: lerp(a.h, b.h, num, den),
        s: lerp(a.s, b.s, num, den),
        l: lerp(a.l, b.l, num, den),
        a: lerp(a.a, b.a, num, den),
    }
}

/// Converting HSL to RGB keeps channels inside interpolation bounds.
pub proof fn lemma_hsl_to_rgba_bounded(c: Hsla)
    requires
        hsla_bounded(c),
    ensures
        rgba_bounded(spec_hsl_to_rgba(c)),
{
    let h6 = unit(c.h) * 6;
    let s = unit(c.s);
    let l = unit(c.l);
    let cc = (1000 - abs_int(2 * l - 1000)) * s / 1000;
    assert(0 <= cc <= 1000 * 1000 / 1000) by (nonlinear_arith)
        requires
            cc == (1000 - abs_int(2 * l - 1000)) * s / 1000,
            0 <= 1000 - abs_int(2 * l - 1000) <= 1000,
            0 <= s <= 1000,
    ;
    let x = cc * (1000 - abs_int((h6 % 2000) - 1000)) / 1000;
    assert(0 <= x <= 1000 * 1000 / 1000) by (nonlinear_arith)
        requires
            x == cc * (1000 - abs_int((h6 % 2000) - 1000)) / 1000,
            0 <= cc <= 1000,
            0 <= 1000 - abs_int((h6 % 2000) - 1000) <= 1000,
    ;
}

pub fn color_lerp(a: Color, b: Color, num: i64, den: i64) -> (r: Color)
    requires
        color_bounded(a),
        color_bounded(b),
        0 < den <= 2_000_000_000,
        0 <= num <= den,
    ensures
        r == spec_color_lerp(a, b, num as int, den as int),
        color_bounded(r),
{
    match (a, b) {
        (Color::Rgba(l), Color::Rgba(rr)) => Color::Rgba(rgba_lerp(l, rr, num, den)),
        (Color::Hsla(l), Color::Hsla(rr)) => Color::Hsla(hsla_lerp(l, rr, num, den)),
        (Color::Rgba(l), Color::Hsla(rr)) => {
            proof {
                lemma_hsl_to_rgba_bounded(rr);
            }
            let rc = rr.to_rgba();
            Color::Rgba(rgba_lerp(l, rc, num, den))
        },
        (Color::Hsla(l), Color::Rgba(rr)) => {
            proof {
                lemma_hsl_to_rgba_bounded(l);
            }
            let lc = l.to_rgba();
            Color::Rgba(rgba_lerp(lc, rr, num, den))
        },
    }
}


/// A decimal digit.
pub open spec fn is_digit(c: u8) -> bool {
    48 <= c <= 57
}

/// Permissive fixed-point number reading over `s[i..hi)`: digits accumulate
/// into the integer part (capped once it is absurdly large), a decimal point
/// starts (or restarts) the fraction, of which three digits count, and any
/// other byte is skipped.
pub open spec fn milli_from(
    s: Seq<u8>,
    i: int,
    hi: int,
    whole: int,
    in_frac: bool,
    fcount: int,
    frac: int,
) -> int
    decreases hi - i,
{
    if i < 0 || i >= hi || hi > s.len() {
        whole * 1000 + frac
    } else {
        let c = s[i];
        if is_digit(c) {
            let d = c - 48;
            if in_frac {
                let frac2 = if fcount == 0 {
                    frac + d * 100
                } else if fcount == 1 {
                    frac + d * 10
                } else if fcount == 2 {
                    frac + d
                } else {
                    frac
                };
                milli_from(
                    s,
                    i + 1,
                    hi,
                    whole,
                    true,
                    if fcount < 4 {
                        fcount + 1
                    } else {
                        fcount
                    },
                    frac2,
                )
            } else {
                let w2 = if whole >= 10_000_000 {
                    whole
                } else {
                    whole * 10 + d
                };
                milli_from(s, i + 1, hi, w2, false, fcount, frac)
            }
        } else if c == 46 {
            milli_from(s, i + 1, hi, whole, true, fcount, 0)
        } else {
            milli_from(s, i + 1, hi, whole, in_frac, fcount, frac)
        }
    }
}

/// The fixed-point number read from `s[lo..hi)`.
pub open spec fn milli_range(s: Seq<u8>, lo: int, hi: int) -> int {
    milli_from(s, lo, hi, 0, false, 0, 0)
}

/// The first position of `b` in `s[lo..hi)`, or `hi` when absent.
pub open spec fn find_in(s: Seq<u8>, lo: int, hi: int, b: u8) -> int
    decreases hi - lo,
{
    if lo < 0 || lo >= hi || hi > s.len() {
        hi
    } else if s[lo] == b {
        lo
    } else {
        find_in(s, lo + 1, hi, b)
    }
}

/// The bounds of the `n`-th comma-separated component of `s[lo..hi)`; a
/// missing component is the empty range at `hi`.
pub open spec fn part_range(s: Seq<u8>, lo: int, hi: int, n: int) -> (int, int)
    decreases n,
{
    let e = find_in(s, lo, hi, 44);
    if n <= 0 {
        (lo, e)
    } else {
        part_range(
            s,
            if e < hi {
                e + 1
            } else {
                hi
            },
            hi,
            n - 1,
        )
    }
}

/// The `n`-th component of `s[lo..hi)`, read as a fixed-point number.
pub open spec fn part_milli(s: Seq<u8>, lo: int, hi: int, n: int) -> int {
    let (a, b) = part_range(s, lo, hi, n);
    milli_range(s, a, b)
}

/// The value of a hexadecimal digit; other bytes read as zero.
pub open spec fn hexv(c: u8) -> int {
    if 48 <= c <= 57 {
        c - 48
    } else if 97 <= c <= 102 {
        c - 87
    } else if 65 <= c <= 70 {
        c - 55
    } else {
        0
    }
}

/// Caps a component at the interpolation bound.
pub open spec fn capb(v: int) -> i64 {
    if v > 1_000_000_000 {
        1_000_000_000i64
    } else if v < -1_000_000_000 {
        (-1_000_000_000) as i64
    } else {
        v as i64
    }
}

/// One byte-channel (`0..=255`) as a fixed-point unit fraction.
pub open spec fn byte_channel(v: int) -> i64 {
    capb(1000 * v / 255)
}

/// Whether `s` starts with the given prefix.
pub open spec fn has_prefix(s: Seq<u8>, p: Seq<u8>) -> bool {
    s.len() >= p.len() && s.take(p.len() as int) == p
}

pub open spec fn lit_rgba() -> Seq<u8> {
    seq![114u8, 103u8, 98u8, 97u8, 40u8]
}

pub open spec fn lit_rgb() -> Seq<u8> {
    seq![114u8, 103u8, 98u8, 40u8]
}

pub open spec fn lit_hsla() -> Seq<u8> {
    seq![104u8, 115u8, 108u8, 97u8, 40u8]
}

pub open spec fn lit_hsl() -> Seq<u8> {
    seq![104u8, 115u8, 108u8, 40u8]
}

/// The color a textual form denotes, if any: `#rgb` and `#rrggbb` hex forms,
/// and the `rgb(..)`, `rgba(..)`, `hsl(..)`, `hsla(..)` function forms, whose
/// components run to the first closing parenthesis (required) and separate on
/// commas. RGB components are byte-valued, hue is in degrees, saturation and
/// lightness in percent, alpha a unit fraction.
pub open spec fn spec_color(s: Seq<u8>) -> Option<Color> {
    if s.len() == 4 && s[0] == 35 {
        Some(
            Color::Rgba(
                Rgba {
                    r: byte_channel(hexv(s[1]) * 16),
                    g: byte_channel(hexv(s[2]) * 16),
                    b: byte_channel(hexv(s[3]) * 16),
                    a: 1000,
                },
            ),
        )
    } else if s.len() == 7 && s[0] == 35 {
        Some(
            Color::Rgba(
                Rgba {
                    r: byte_channel(hexv(s[1]) * 16 + hexv(s[2])),
                    g: byte_channel(hexv(s[3]) * 16 + hexv(s[4])),
                    b: byte_channel(hexv(s[5]) * 16 + hexv(s[6])),
                    a: 1000,
                },
            ),
        )
    } else if has_prefix(s, lit_rgba()) {
        let e = find_in(s, 5, s.len() as int, 41);
        if e == s.len() {
            None
        } else {
            Some(
                Color::Rgba(
                    Rgba {
                        r: capb(part_milli(s, 5, e, 0) / 255),
                        g: capb(part_milli(s, 5, e, 1) / 255),
                        b: capb(part_milli(s, 5, e, 2) / 255),
                        a: capb(part_milli(s, 5, e, 3)),
                    },
                ),
            )
        }
    } else if has_prefix(s, lit_rgb()) {
        let e = find_in(s, 4, s.len() as int, 41);
        if e == s.len() {
            None
        } else {
            Some(
                Color::Rgba(
                    Rgba {
                        r: capb(part_milli(s, 4, e, 0) / 255),
                        g: capb(part_milli(s, 4, e, 1) / 255),
                        b: capb(part_milli(s, 4, e, 2) / 255),
                        a: 1000,
                    },
                ),
            )
        }
    } else if has_prefix(s, lit_hsla()) {
        let e = find_in(s, 5, s.len() as int, 41);
        if e == s.len() {
            None
        } else {
            Some(
                Color::Hsla(
                    Hsla {
                        h: capb(part_milli(s, 5, e, 0) / 360),
                        s: capb(part_milli(s, 5, e, 1) / 100),
                        l: capb(part_milli(s, 5, e, 2) / 100),
                        a: capb(part_milli(s, 5, e, 3)),
                    },
                ),
            )
        }
    } else if has_prefix(s, lit_hsl()) {
        let e = find_in(s, 4, s.len() as int, 41);
        if e == s.len() {
            None
        } else {
            Some(
                Color::Hsla(
                    Hsla {
                        h: capb(part_milli(s, 4, e, 0) / 360),
                        s: capb(part_milli(s, 4, e, 1) / 100),
                        l: capb(part_milli(s, 4, e, 2) / 100),
                        a: 1000,
                    },
                ),
            )
        }
    } else {
        None
    }
}

/// Every component a parse yields lies inside the interpolation bounds.
pub proof fn lemma_parsed_color_bounded(s: Seq<u8>)
    ensures
        match spec_color(s) {
            Some(c) => color_bounded(c),
            None => true,
        },
{
}

#[verifier::loop_isolation(false)]
fn find_byte(s: &[u8], lo: usize, hi: usize, b: u8) -> (r: usize)
    requires
        lo <= hi <= s@.len(),
    ensures
        r == find_in(s@, lo as int, hi as int, b),
        lo <= r <= hi,
        r < hi ==> s@[r as int] == b,
{
    let mut i = lo;
    while i < hi
        invariant
            lo <= i <= hi,
            find_in(s@, lo as int, hi as int, b) == find_in(s@, i as int, hi as int, b),
        decreases hi - i,
    {
        if s[i] == b {
            return i;
        }
        i += 1;
    }
    hi
}

#[verifier::loop_isolation(false)]
fn parse_milli(s: &[u8], lo: usize, hi: usize) -> (r: i64)
    requires
        lo <= hi <= s@.len(),
    ensures
        r == milli_range(s@, lo as int, hi as int),
        0 <= r <= 200_000_000_000,
{
    let mut i = lo;
    let mut whole: i64 = 0;
    let mut in_frac = false;
    let mut fcount: u32 = 0;
    let mut frac: i64 = 0;
    while i < hi
        invariant
            lo <= i <= hi,
            0 <= whole <= 100_000_008,
            0 <= frac <= 999,
            fcount == 0 ==> frac == 0,
            fcount == 1 ==> frac <= 900,
            fcount == 2 ==> frac <= 990,
            milli_range(s@, lo as int, hi as int) == milli_from(
                s@,
                i as int,
                hi as int,
                whole as int,
                in_frac,
                fcount as int,
                frac as int,
            ),
        decreases hi - i,
    {
        let c = s[i];
        if 48 <= c && c <= 57 {
            let d = (c - 48) as i64;
            if in_frac {
                if fcount == 0 {
                    frac = frac + d * 100;
                } else if fcount == 1 {
                    frac = frac + d * 10;
                } else if fcount == 2 {
                    frac = frac + d;
                }
                if fcount < 4 {
                    fcount = fcount + 1;
                }
            } else {
                if whole < 10_000_000 {
                    whole = whole * 10 + d;
                }
            }
        } else if c == 46 {
            in_frac = true;
            frac = 0;
        }
        i += 1;
    }
    whole * 1000 + frac
}

/// Reads a textual color; see [`spec_color`] for the accepted forms.
pub fn color_parse(s: &[u8]) -> (r: Option<Color>)
    ensures
        r == spec_color(s@),
        match r {
            Some(c) => color_bounded(c),
            None => true,
        },
{
    proof {
        lemma_parsed_color_bounded(s@);
    }
    let n = s.len();
    if n == 4 && s[0] == 35 {
        return Some(
            Color::Rgba(
                Rgba {
                    r: byte_channel_x(hex_val(s[1]) * 16),
                    g: byte_channel_x(hex_val(s[2]) * 16),
                    b: byte_channel_x(hex_val(s[3]) * 16),
                    a: 1000,
                },
            ),
        );
    }
    if n == 7 && s[0] == 35 {
        return Some(
            Color::Rgba(
                Rgba {
                    r: byte_channel_x(hex_val(s[1]) * 16 + hex_val(s[2])),
                    g: byte_channel_x(hex_val(s[3]) * 16 + hex_val(s[4])),
                    b: byte_channel_x(hex_val(s[5]) * 16 + hex_val(s[6])),
                    a: 1000,
                },
            ),
        );
    }
    let rgba_lit: [u8; 5] = [114u8, 103u8, 98u8, 97u8, 40u8];
    let rgb_lit: [u8; 4] = [114u8, 103u8, 98u8, 40u8];
    let hsla_lit: [u8; 5] = [104u8, 115u8, 108u8, 97u8, 40u8];
    let hsl_lit: [u8; 4] = [104u8, 115u8, 108u8, 40u8];
    if starts_with(s, rgba_lit.as_slice()) {
        assert(rgba_lit@ =~= lit_rgba());
        let e = find_byte(s, 5, n, 41);
        if e == n {
            return None;
        }
        let (v0, v1, v2, v3) = four_parts(s, 5, e);
        return Some(
            Color::Rgba(
                Rgba {
                    r: cap_bound(v0 / 255),
                    g: cap_bound(v1 / 255),
                    b: cap_bound(v2 / 255),
                    a: cap_bound(v3),
                },
            ),
        );
    }
    if starts_with(s, rgb_lit.as_slice()) {
        assert(rgb_lit@ =~= lit_rgb());
        assert(!has_prefix(s@, lit_rgba()));
        let e = find_byte(s, 4, n, 41);
        if e == n {
            return None;
        }
        let (v0, v1, v2, _v3) = four_parts(s, 4, e);
        return Some(
            Color::Rgba(
                Rgba { r: cap_bound(v0 / 255), g: cap_bound(v1 / 255), b: cap_bound(v2 / 255), a: 1000 },
            ),
        );
    }
    if starts_with(s, hsla_lit.as_slice()) {
        assert(hsla_lit@ =~= lit_hsla());
        assert(!has_prefix(s@, lit_rgba()) && !has_prefix(s@, lit_rgb()));
        let e = find_byte(s, 5, n, 41);
        if e == n {
            return None;
        }
        let (v0, v1, v2, v3) = four_parts(s, 5, e);
        return Some(
            Color::Hsla(
                Hsla {
                    h: cap_bound(v0 / 360),
                    s: cap_bound(v1 / 100),
                    l: cap_bound(v2 / 100),
                    a: cap_bound(v3),
                },
            ),
        );
    }
    if starts_with(s, hsl_lit.as_slice()) {
        assert(hsl_lit@ =~= lit_hsl());
        let e = find_byte(s, 4, n, 41);
        if e == n {
            return None;
        }
        let (v0, v1, v2, _v3) = four_parts(s, 4, e);
        return Some(
            Color::Hsla(
                Hsla { h: cap_bound(v0 / 360), s: cap_bound(v1 / 100), l: cap_bound(v2 / 100), a: 1000 },
            ),
        );
    }
    None
}

/// The four comma-separated components of `s[lo..hi)` as fixed-point numbers;
/// missing components read as zero.
fn four_parts(s: &[u8], lo: usize, hi: usize) -> (r: (i64, i64, i64, i64))
    requires
        lo <= hi <= s@.len(),
    ensures
        r.0 == part_milli(s@, lo as int, hi as int, 0),
        r.1 == part_milli(s@, lo as int, hi as int, 1),
        r.2 == part_milli(s@, lo as int, hi as int, 2),
        r.3 == part_milli(s@, lo as int, hi as int, 3),
        0 <= r.0 <= 200_000_000_000 && 0 <= r.1 <= 200_000_000_000 && 0 <= r.2
            <= 200_000_000_000 && 0 <= r.3 <= 200_000_000_000,
{
    let e0 = find_byte(s, lo, hi, 44);
    let v0 = parse_milli(s, lo, e0);
    let c1 = if e0 < hi {
        e0 + 1
    } else {
        hi
    };
    let e1 = find_byte(s, c1, hi, 44);
    let v1 = parse_milli(s, c1, e1);
    let c2 = if e1 < hi {
        e1 + 1
    } else {
        hi
    };
    let e2 = find_byte(s, c2, hi, 44);
    let v2 = parse_milli(s, c2, e2);
    let c3 = if e2 < hi {
        e2 + 1
    } else {
        hi
    };
    let e3 = find_byte(s, c3, hi, 44);
    let v3 = parse_milli(s, c3, e3);
    proof {
        let sq = s@;
        let loi = lo as int;
        let hii = hi as int;
        assert(part_range(sq, loi, hii, 0) == (loi, e0 as int));
        assert(part_range(sq, loi, hii, 1) == part_range(sq, c1 as int, hii, 0));
        assert(part_range(sq, loi, hii, 2) == part_range(sq, c1 as int, hii, 1));
        assert(part_range(sq, c1 as int, hii, 1) == part_range(sq, c2 as int, hii, 0));
        assert(part_range(sq, loi, hii, 3) == part_range(sq, c1 as int, hii, 2));
        assert(part_range(sq, c1 as int, hii, 2) == part_range(sq, c2 as int, hii, 1));
        assert(part_range(sq, c2 as int, hii, 1) == part_range(sq, c3 as int, hii, 0));
    }
    (v0, v1, v2, v3)
}

fn hex_val(c: u8) -> (r: i64)
    ensures
        r == hexv(c),
        0 <= r <= 15,
{
    if 48 <= c && c <= 57 {
        (c - 48) as i64
    } else if 97 <= c && c <= 102 {
        (c - 87) as i64
    } else if 65 <= c && c <= 70 {
        (c - 55) as i64
    } else {
        0
    }
}

fn byte_channel_x(v: i64) -> (r: i64)
    requires
        0 <= v <= 255,
    ensures
        r == byte_channel(v as int),
{
    1000 * v / 255
}

fn cap_bound(v: i64) -> (r: i64)
    ensures
        r == capb(v as int),
{
    if v > 1_000_000_000 {
        1_000_000_000
    } else if v < -1_000_000_000 {
        -1_000_000_000
    } else {
        v
    }
}

/// Whether the slice starts with the given prefix bytes.
#[verifier::loop_isolation(false)]
pub fn starts_with(s: &[u8], p: &[u8]) -> (r: bool)
    ensures
        r == has_prefix(s@, p@),
{
    if s.len() < p.len() {
        assert(!has_prefix(s@, p@));
        return false;
    }
    let mut i: usize = 0;
    while i < p.len()
        invariant
            0 <= i <= p@.len() <= s@.len(),
            forall|j: int| 0 <= j < i ==> s@[j] == p@[j],
        decreases p@.len() - i,
    {
        if s[i] != p[i] {
            assert(s@.take(p@.len() as int)[i as int] != p@[i as int]);
            return false;
        }
        i += 1;
    }
    assert(s@.take(p@.len() as int) =~= p@);
    true
}

} // verus!

//! The color model and its wire codec.
//!
//! A color travels as one bare string: a `#`-prefixed hex color, or any other
//! string taken verbatim as a preset name. The preset vocabulary is open on
//! purpose: unknown names must not fail decoding.

use vstd::prelude::*;

use crate::error::{ParseError, ParseErrorV};
use crate::text::{chars_to_string, str_to_chars};

verus! {

/// A 24-bit color with an alpha channel, as parsed from a hex color string.
#[derive(Debug, Clone, Copy, PartialEq, Eq, Structural)]
pub struct HexColor {
    pub r: u8,
    pub g: u8,
    pub b: u8,
    pub a: u8,
}

/// Ghost mirror of [`Color`].
#[verifier::ext_equal]
pub enum ColorV {
    Preset(Seq<char>),
    Hex(HexColor),
}

/// A color value: a named preset or a hex color. On the wire both are one
/// bare string, told apart by the `#` prefix.
#[derive(Debug)]
pub enum Color {
    Preset(String),
    Color(HexColor),
}

impl View for Color {
    type V = ColorV;

    open spec fn view(&self) -> ColorV {
        match self {
            Color::Preset(s) => ColorV::Preset(s@),
            Color::Color(h) => ColorV::Hex(*h),
        }
    }
}

impl PartialEq for Color {
    fn eq(&self, other: &Color) -> (r: bool) {
        match (self, other) {
            (Color::Preset(a), Color::Preset(b)) => *a == *b,
            (Color::Color(a), Color::Color(b)) => {
                let same = a.r == b.r && a.g == b.g && a.b == b.b && a.a == b.a;
                proof {
                    if same {
                        assert(*a == *b);
                    }
                }
                same
            },
            _ => false,
        }
    }
}

impl Eq for Color {}

impl vstd::std_specs::cmp::PartialEqSpecImpl for Color {
    open spec fn obeys_eq_spec() -> bool {
        true
    }

    open spec fn eq_spec(&self, other: &Color) -> bool {
        self@ == other@
    }
}

/// The view of an optional color.
pub open spec fn opt_color_view(c: Option<Color>) -> Option<ColorV> {
    match c {
        Some(x) => Some(x@),
        None => None,
    }
}

/// The value of one hex digit, either case; `None` for any other character.
pub open spec fn hex_digit_val(c: char) -> Option<u8> {
    let u = c as u32;
    if 48 <= u <= 57 {
        Some((u - 48) as u8)
    } else if 97 <= u <= 102 {
        Some((u - 97 + 10) as u8)
    } else if 65 <= u <= 70 {
        Some((u - 65 + 10) as u8)
    } else {
        None
    }
}

/// The upper-case hex digit for a value below 16 (also the decimal digit for
/// a value below 10).
pub open spec fn hex_digit_upper(n: nat) -> char {
    if n < 10 {
        (n + 48) as char
    } else {
        (n + 55) as char
    }
}

/// Two upper-case hex digits for one byte.
pub open spec fn hex_pair(n: u8) -> Seq<char> {
    seq![hex_digit_upper((n / 16) as nat), hex_digit_upper((n % 16) as nat)]
}

/// The canonical text of a hex color: six upper-case digits, eight when the
/// alpha channel is not fully opaque.
pub open spec fn hex_text(h: HexColor) -> Seq<char> {
    if h.a == 255 {
        seq!['#'] + hex_pair(h.r) + hex_pair(h.g) + hex_pair(h.b)
    } else {
        seq!['#'] + hex_pair(h.r) + hex_pair(h.g) + hex_pair(h.b) + hex_pair(h.a)
    }
}

/// The wire text of a color: the preset name verbatim, or the hex text.
pub open spec fn color_text(c: ColorV) -> Seq<char> {
    match c {
        ColorV::Preset(s) => s,
        ColorV::Hex(h) => hex_text(h),
    }
}

/// The byte at two hex digits of `b`, starting at `i`.
pub open spec fn pair_val(b: Seq<char>, i: int) -> Option<u8> {
    match (hex_digit_val(b[i]), hex_digit_val(b[i + 1])) {
        (Some(h), Some(l)) => Some((16 * h + l) as u8),
        _ => None,
    }
}

/// Decodes the digits after the `#`: 3 or 4 digits are doubled shorthand,
/// 6 or 8 digits are full pairs; alpha defaults to fully opaque.
pub open spec fn hex_body_value(b: Seq<char>) -> Option<HexColor> {
    if b.len() == 3 {
        match (hex_digit_val(b[0]), hex_digit_val(b[1]), hex_digit_val(b[2])) {
            (Some(r), Some(g), Some(bl)) => Some(
                HexColor { r: (17 * r) as u8, g: (17 * g) as u8, b: (17 * bl) as u8, a: 255 },
            ),
            _ => None,
        }
    } else if b.len() == 4 {
        match (
            hex_digit_val(b[0]),
            hex_digit_val(b[1]),
            hex_digit_val(b[2]),
            hex_digit_val(b[3]),
        ) {
            (Some(r), Some(g), Some(bl), Some(a)) => Some(
                HexColor {
                    r: (17 * r) as u8,
                    g: (17 * g) as u8,
                    b: (17 * bl) as u8,
                    a: (17 * a) as u8,
                },
            ),
            _ => None,
        }
    } else if b.len() == 6 {
        match (pair_val(b, 0), pair_val(b, 2), pair_val(b, 4)) {
            (Some(r), Some(g), Some(bl)) => Some(HexColor { r, g, b: bl, a: 255 }),
            _ => None,
        }
    } else if b.len() == 8 {
        match (pair_val(b, 0), pair_val(b, 2), pair_val(b, 4), pair_val(b, 6)) {
            (Some(r), Some(g), Some(bl), Some(a)) => Some(HexColor { r, g, b: bl, a }),
            _ => None,
        }
    } else {
        None
    }
}

/// Decodes a `#`-prefixed hex color string.
pub open spec fn hex_from_text(s: Seq<char>) -> Result<HexColor, ParseErrorV> {
    if s.len() > 0 && s[0] == '#' {
        match hex_body_value(s.skip(1)) {
            Some(h) => Ok(h),
            None => Err(ParseErrorV::InvalidHex(s)),
        }
    } else {
        Err(ParseErrorV::InvalidHex(s))
    }
}

/// Decodes a color wire string: `#`-prefixed means hex, anything else is a
/// preset name taken verbatim, with no vocabulary check.
pub open spec fn color_from_text(s: Seq<char>) -> Result<ColorV, ParseErrorV> {
    if s.len() > 0 && s[0] == '#' {
        match hex_from_text(s) {
            Ok(h) => Ok(ColorV::Hex(h)),
            Err(e) => Err(e),
        }
    } else {
        Ok(ColorV::Preset(s))
    }
}

/// A well-formed color: a preset name never starts with `#`, so that its wire
/// text decodes back to a preset.
pub open spec fn color_wf(c: ColorV) -> bool {
    match c {
        ColorV::Preset(s) => s.len() == 0 || s[0] != '#',
        ColorV::Hex(_) => true,
    }
}

pub(crate) fn hex_val_char(c: char) -> (r: Option<u8>)
    ensures
        r == hex_digit_val(c),
{
    let u = c as u32;
    if 48 <= u && u <= 57 {
        Some((u - 48) as u8)
    } else if 97 <= u && u <= 102 {
        Some((u - 97 + 10) as u8)
    } else if 65 <= u && u <= 70 {
        Some((u - 65 + 10) as u8)
    } else {
        None
    }
}

pub(crate) fn hex_digit_char(n: u8) -> (c: char)
    requires
        n < 16,
    ensures
        c == hex_digit_upper(n as nat),
{
    if n < 10 {
        (n + 48) as char
    } else {
        (n + 55) as char
    }
}

fn read_pair(cs: &Vec<char>, i: usize) -> (r: Option<u8>)
    requires
        i + 2 <= cs@.len(),
    ensures
        r == pair_val(cs@, i as int),
{
    let _len: usize = cs.len();
    match (hex_val_char(cs[i]), hex_val_char(cs[i + 1])) {
        (Some(h), Some(l)) => Some(16 * h + l),
        _ => None,
    }
}

impl HexColor {
    pub fn new(r: u8, g: u8, b: u8, a: u8) -> (c: HexColor)
        ensures
            c == (HexColor { r, g, b, a }),
    {
        HexColor { r, g, b, a }
    }

    /// A fully opaque color.
    pub fn rgb(r: u8, g: u8, b: u8) -> (c: HexColor)
        ensures
            c == (HexColor { r, g, b, a: 255 }),
    {
        HexColor { r, g, b, a: 255 }
    }

    /// Parses a `#`-prefixed hex color string: `#RGB`, `#RGBA`, `#RRGGBB` or
    /// `#RRGGBBAA`, digits in either case.
    pub fn parse(s: &str) -> (res: Result<HexColor, ParseError>)
        ensures
            match res {
                Ok(h) => hex_from_text(s@) == Ok::<HexColor, ParseErrorV>(h),
                Err(e) => hex_from_text(s@) == Err::<HexColor, ParseErrorV>(e@),
            },
    {
        let cs = str_to_chars(s);
        if cs.len() == 0 || cs[0] != '#' {
            return Err(ParseError::InvalidHex(String::from_str(s)));
        }
        let n = cs.len() - 1;
        proof {
            assert(cs@.skip(1).len() == n);
            assert(forall|k: int| 0 <= k < n ==> cs@.skip(1)[k] == cs@[k + 1]);
        }
        let v: Option<HexColor> = if n == 3 {
            match (hex_val_char(cs[1]), hex_val_char(cs[2]), hex_val_char(cs[3])) {
                (Some(r), Some(g), Some(b)) => Some(
                    HexColor { r: 17 * r, g: 17 * g, b: 17 * b, a: 255 },
                ),
                _ => None,
            }
        } else if n == 4 {
            match (
                hex_val_char(cs[1]),
                hex_val_char(cs[2]),
                hex_val_char(cs[3]),
                hex_val_char(cs[4]),
            ) {
                (Some(r), Some(g), Some(b), Some(a)) => Some(
                    HexColor { r: 17 * r, g: 17 * g, b: 17 * b, a: 17 * a },
                ),
                _ => None,
            }
        } else if n == 6 {
            match (read_pair(&cs, 1), read_pair(&cs, 3), read_pair(&cs, 5)) {
                (Some(r), Some(g), Some(b)) => Some(HexColor { r, g, b, a: 255 }),
                _ => None,
            }
        } else if n == 8 {
            match (read_pair(&cs, 1), read_pair(&cs, 3), read_pair(&cs, 5), read_pair(&cs, 7)) {
                (Some(r), Some(g), Some(b), Some(a)) => Some(HexColor { r, g, b, a }),
                _ => None,
            }
        } else {
            None
        };
        proof {
            if n >= 2 {
                assert(pair_val(cs@.skip(1), 0) == pair_val(cs@, 1));
            }
            if n >= 4 {
                assert(pair_val(cs@.skip(1), 2) == pair_val(cs@, 3));
            }
            if n >= 6 {
                assert(pair_val(cs@.skip(1), 4) == pair_val(cs@, 5));
            }
            if n >= 8 {
                assert(pair_val(cs@.skip(1), 6) == pair_val(cs@, 7));
            }
        }
        match v {
            Some(h) => Ok(h),
            None => Err(ParseError::InvalidHex(String::from_str(s))),
        }
    }
}

impl Color {
    /// The wire text of this color: the preset name verbatim, or the hex
    /// form, six or eight upper-case digits after `#`.
    pub fn encode(&self) -> (r: String)
        ensures
            r@ == color_text(self@),
    {
        match self {
            Color::Preset(s) => s.clone(),
            Color::Color(h) => {
                let mut v: Vec<char> = Vec::new();
                v.push('#');
                v.push(hex_digit_char(h.r / 16));
                v.push(hex_digit_char(h.r % 16));
                v.push(hex_digit_char(h.g / 16));
                v.push(hex_digit_char(h.g % 16));
                v.push(hex_digit_char(h.b / 16));
                v.push(hex_digit_char(h.b % 16));
                if h.a != 255 {
                    v.push(hex_digit_char(h.a / 16));
                    v.push(hex_digit_char(h.a % 16));
                    proof {
                        assert(v@ =~= hex_text(*h));
                    }
                } else {
                    proof {
                        assert(v@ =~= hex_text(*h));
                    }
                }
                chars_to_string(&v)
            },
        }
    }

    /// Decodes one color wire string, per [`color_from_text`].
    pub fn decode(s: &str) -> (res: Result<Color, ParseError>)
        ensures
            match res {
                Ok(c) => color_from_text(s@) == Ok::<ColorV, ParseErrorV>(c@),
                Err(e) => color_from_text(s@) == Err::<ColorV, ParseErrorV>(e@),
            },
    {
        let cs = str_to_chars(s);
        if cs.len() == 0 || cs[0] != '#' {
            Ok(Color::Preset(String::from_str(s)))
        } else {
            match HexColor::parse(s) {
                Ok(h) => Ok(Color::Color(h)),
                Err(e) => Err(e),
            }
        }
    }
}

/// One hex digit survives the round trip through its upper-case text.
pub proof fn lemma_hex_digit_round(n: u8)
    requires
        n < 16,
    ensures
        hex_digit_val(hex_digit_upper(n as nat)) == Some(n),
{
}

/// One byte survives the round trip through its two-digit hex text.
proof fn lemma_hex_pair_round(b: Seq<char>, i: int, n: u8)
    requires
        0 <= i,
        i + 2 <= b.len(),
        b[i] == hex_digit_upper((n / 16) as nat),
        b[i + 1] == hex_digit_upper((n % 16) as nat),
    ensures
        pair_val(b, i) == Some(n),
{
    lemma_hex_digit_round(n / 16);
    lemma_hex_digit_round(n % 16);
}

/// Color round trip: every well-formed color value decodes back from its own
/// wire text — a hex color from its `#`-digits form, a preset name from the
/// name itself.
pub proof fn lemma_color_round_trip(c: ColorV)
    requires
        color_wf(c),
    ensures
        color_from_text(color_text(c)) == Ok::<ColorV, ParseErrorV>(c),
{
    match c {
        ColorV::Preset(s) => {},
        ColorV::Hex(h) => {
            let t = hex_text(h);
            assert(t[0] == '#');
            let b = t.skip(1);
            if h.a == 255 {
                assert(b =~= hex_pair(h.r) + hex_pair(h.g) + hex_pair(h.b));
                assert(b.len() == 6);
                lemma_hex_pair_round(b, 0, h.r);
                lemma_hex_pair_round(b, 2, h.g);
                lemma_hex_pair_round(b, 4, h.b);
                assert(hex_body_value(b) == Some(h));
            } else {
                assert(b =~= hex_pair(h.r) + hex_pair(h.g) + hex_pair(h.b) + hex_pair(h.a));
                assert(b.len() == 8);
                lemma_hex_pair_round(b, 0, h.r);
                lemma_hex_pair_round(b, 2, h.g);
                lemma_hex_pair_round(b, 4, h.b);
                lemma_hex_pair_round(b, 6, h.a);
                assert(hex_body_value(b) == Some(h));
            }
        },
    }
}

} // verus!

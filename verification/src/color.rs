use vstd::prelude::*;
use crate::text::{
    chars_equal, chars_of, hex_u8_spec, hex_value, is_hex_digit, lowercase, parse_hex_u8, parse_u8_decimal, slice_chars,
    split_chars, split_seq, starts_with, string_from, texts, trim_chars, trim_seq,
    u8_decimal_spec, unicode_lowercase,
};

verus! {

/// Why a colour string was refused; each variant carries the text that was
/// examined.
#[derive(Debug, Clone, PartialEq, Eq)]
pub enum ColorError {
    InvalidHex(String),
    InvalidRgb(String),
    UnknownName(String),
}

impl ColorError {
    /// The text carried by the error.
    pub open spec fn text(self) -> Seq<char> {
        match self {
            ColorError::InvalidHex(t) => t@,
            ColorError::InvalidRgb(t) => t@,
            ColorError::UnknownName(t) => t@,
        }
    }
}

/// A colour given by 8-bit red, green, blue and alpha components.
#[derive(Debug, Clone, Copy, PartialEq, Eq, Structural)]
pub struct Rgba8 {
    pub r: u8,
    pub g: u8,
    pub b: u8,
    pub a: u8,
}

/// The colours that can be named.
#[derive(Debug, Clone, Copy, PartialEq, Eq, Structural)]
pub enum NamedColor {
    Black,
    White,
    Red,
    Green,
    Blue,
    Yellow,
    Cyan,
    Magenta,
    Transparent,
    Gray,
    DarkGray,
    LightGray,
}

/// A parsed colour: 8-bit components, components with an alpha given as
/// decimal text (of `rgba(..)`, in the range 0.0-1.0), or a named colour.
#[derive(Debug, Clone, PartialEq)]
pub enum ColorValue {
    Rgba(Rgba8),
    RgbAlphaText { r: u8, g: u8, b: u8, alpha: String },
    Named(NamedColor),
}

/// `s` without its leading `#` characters.
pub open spec fn strip_hashes(s: Seq<char>) -> Seq<char>
    decreases s.len(),
{
    if s.len() > 0 && s[0] == '#' {
        strip_hashes(s.drop_first())
    } else {
        s
    }
}

/// Every character of `t` is an ASCII hexadecimal digit.
pub open spec fn all_hex_digits(t: Seq<char>) -> bool {
    forall|i: int| 0 <= i < t.len() ==> is_hex_digit(#[trigger] t[i])
}

/// The colour of hexadecimal text without its `#`: exactly 3, 6 or 8 ASCII
/// hexadecimal digits, read as `RGB` (each digit repeated), `RRGGBB`
/// (opaque) or `RRGGBBAA`; anything else is no colour.
pub open spec fn hex_color_spec(t: Seq<char>) -> Option<Rgba8> {
    if !all_hex_digits(t) {
        None
    } else if t.len() == 3 {
        match (
            hex_u8_spec(t.subrange(0, 1)),
            hex_u8_spec(t.subrange(1, 2)),
            hex_u8_spec(t.subrange(2, 3)),
        ) {
            (Some(r), Some(g), Some(b)) => Some(
                Rgba8 { r: (r * 17) as u8, g: (g * 17) as u8, b: (b * 17) as u8, a: 255 },
            ),
            _ => None,
        }
    } else if t.len() == 6 {
        match (
            hex_u8_spec(t.subrange(0, 2)),
            hex_u8_spec(t.subrange(2, 4)),
            hex_u8_spec(t.subrange(4, 6)),
        ) {
            (Some(r), Some(g), Some(b)) => Some(Rgba8 { r, g, b, a: 255 }),
            _ => None,
        }
    } else if t.len() == 8 {
        match (
            hex_u8_spec(t.subrange(0, 2)),
            hex_u8_spec(t.subrange(2, 4)),
            hex_u8_spec(t.subrange(4, 6)),
            hex_u8_spec(t.subrange(6, 8)),
        ) {
            (Some(r), Some(g), Some(b), Some(a)) => Some(Rgba8 { r, g, b, a }),
            _ => None,
        }
    } else {
        None
    }
}

proof fn lemma_strip_hashes_step(s: Seq<char>, i: int)
    requires
        0 <= i < s.len(),
        s[i] == '#',
    ensures
        strip_hashes(s.subrange(i, s.len() as int)) == strip_hashes(
            s.subrange(i + 1, s.len() as int),
        ),
{
    assert(s.subrange(i, s.len() as int).drop_first() =~= s.subrange(i + 1, s.len() as int));
}

/// Parse one hexadecimal component `t[from..to]` (one or two characters).
fn hex_component(t: &Vec<char>, from: usize, to: usize) -> (r: Option<u8>)
    requires
        from <= to <= t.len(),
        to - from <= 2,
    ensures
        r == hex_u8_spec(t@.subrange(from as int, to as int)),
{
    let part = slice_chars(t, from, to);
    parse_hex_u8(&part)
}

/// Whether every character is an ASCII hexadecimal digit.
fn hex_digits_only(t: &Vec<char>) -> (b: bool)
    ensures
        b == all_hex_digits(t@),
{
    let mut i: usize = 0;
    while i < t.len()
        invariant
            i <= t.len(),
            forall|j: int| 0 <= j < i ==> is_hex_digit(#[trigger] t@[j]),
        decreases t.len() - i,
    {
        let c = t[i];
        if !(('0' <= c && c <= '9') || ('a' <= c && c <= 'f') || ('A' <= c && c <= 'F')) {
            return false;
        }
        i += 1;
    }
    true
}

impl Rgba8 {
    /// Parse a hex colour: `#RGB`, `#RRGGBB`, `#RRGGBBAA` of ASCII
    /// hexadecimal digits only (any number of leading `#`, including none). The error carries the text after the
    /// leading `#` characters.
    pub fn from_hex(s: &str) -> (r: Result<Rgba8, ColorError>)
        ensures
            match hex_color_spec(strip_hashes(s@)) {
                Some(c) => r == Ok::<Rgba8, ColorError>(c),
                None => r matches Err(e) && e is InvalidHex && e.text() == strip_hashes(s@),
            },
    {
        let v = chars_of(s);
        let n = v.len();
        let mut i: usize = 0;
        assert(v@.subrange(0, n as int) =~= v@);
        while i < n && v[i] == '#'
            invariant
                i <= n == v.len(),
                strip_hashes(v@.subrange(i as int, n as int)) == strip_hashes(v@),
            decreases n - i,
        {
            proof {
                lemma_strip_hashes_step(v@, i as int);
            }
            i += 1;
        }
        let t = slice_chars(&v, i, n);
        assert(strip_hashes(t@) == t@);
        if !hex_digits_only(&t) {
            return Err(ColorError::InvalidHex(string_from(&t)));
        }
        if t.len() == 3 {
            let r = hex_component(&t, 0, 1);
            let g = hex_component(&t, 1, 2);
            let b = hex_component(&t, 2, 3);
            match (r, g, b) {
                (Some(r), Some(g), Some(b)) => {
                    return Ok(Rgba8 { r: r * 17, g: g * 17, b: b * 17, a: 255 });
                },
                _ => {},
            }
        } else if t.len() == 6 {
            let r = hex_component(&t, 0, 2);
            let g = hex_component(&t, 2, 4);
            let b = hex_component(&t, 4, 6);
            match (r, g, b) {
                (Some(r), Some(g), Some(b)) => {
                    return Ok(Rgba8 { r, g, b, a: 255 });
                },
                _ => {},
            }
        } else if t.len() == 8 {
            let r = hex_component(&t, 0, 2);
            let g = hex_component(&t, 2, 4);
            let b = hex_component(&t, 4, 6);
            let a = hex_component(&t, 6, 8);
            match (r, g, b, a) {
                (Some(r), Some(g), Some(b), Some(a)) => {
                    return Ok(Rgba8 { r, g, b, a });
                },
                _ => {},
            }
        }
        Err(ColorError::InvalidHex(string_from(&t)))
    }
}

/// `t` has the shape `rgba(...)`.
pub open spec fn rgba_form(t: Seq<char>) -> bool {
    t.len() >= 6 && t.subrange(0, 5) == "rgba("@ && t.last() == ')'
}

/// `t` has the shape `rgb(...)`.
pub open spec fn rgb_form(t: Seq<char>) -> bool {
    t.len() >= 5 && t.subrange(0, 4) == "rgb("@ && t.last() == ')'
}

/// The red, green and blue components of the comma-separated `parts`, each
/// trimmed and read as a decimal `u8`.
pub open spec fn rgb_triple(parts: Seq<Seq<char>>) -> Option<(u8, u8, u8)> {
    match (
        u8_decimal_spec(trim_seq(parts[0])),
        u8_decimal_spec(trim_seq(parts[1])),
        u8_decimal_spec(trim_seq(parts[2])),
    ) {
        (Some(r), Some(g), Some(b)) => Some((r, g, b)),
        _ => None,
    }
}

/// The meaning of trimmed text `t` in the functional notations
/// `rgb(r, g, b)` and `rgba(r, g, b, a)`: the three 8-bit components and,
/// for `rgba`, the trimmed alpha text.
pub open spec fn rgb_spec(t: Seq<char>) -> Option<(u8, u8, u8, Option<Seq<char>>)> {
    if rgba_form(t) {
        let parts = split_seq(t.subrange(5, t.len() - 1), ',');
        if parts.len() == 4 {
            match rgb_triple(parts) {
                Some((r, g, b)) => Some((r, g, b, Some(trim_seq(parts[3])))),
                None => None,
            }
        } else {
            None
        }
    } else if rgb_form(t) {
        let parts = split_seq(t.subrange(4, t.len() - 1), ',');
        if parts.len() == 3 {
            match rgb_triple(parts) {
                Some((r, g, b)) => Some((r, g, b, None)),
                None => None,
            }
        } else {
            None
        }
    } else {
        None
    }
}

/// What a parse in functional notation yields, given `rgb_spec`'s meaning.
pub open spec fn rgb_result_matches(
    res: Result<ColorValue, ColorError>,
    meaning: Option<(u8, u8, u8, Option<Seq<char>>)>,
    text: Seq<char>,
) -> bool {
    match meaning {
        Some((r, g, b, None)) => res == Ok::<ColorValue, ColorError>(
            ColorValue::Rgba(Rgba8 { r, g, b, a: 255 }),
        ),
        Some((r, g, b, Some(alpha))) => res matches Ok(ColorValue::RgbAlphaText {
            r: r2,
            g: g2,
            b: b2,
            alpha: a2,
        }) && r2 == r && g2 == g && b2 == b && a2@ == alpha,
        None => res matches Err(e) && e is InvalidRgb && e.text() == text,
    }
}

/// Parse the three components `parts[0..3]`, each trimmed.
fn rgb_triple_of(parts: &Vec<Vec<char>>) -> (r: Option<(u8, u8, u8)>)
    requires
        parts.len() >= 3,
    ensures
        r == rgb_triple(texts(parts@)),
{
    let r = parse_u8_decimal(&trim_chars(&parts[0]));
    let g = parse_u8_decimal(&trim_chars(&parts[1]));
    let b = parse_u8_decimal(&trim_chars(&parts[2]));
    match (r, g, b) {
        (Some(r), Some(g), Some(b)) => Some((r, g, b)),
        _ => None,
    }
}

/// The meaning of `t` in functional notation, as a value.
fn rgb_of_trimmed(t: &Vec<char>) -> (res: Result<ColorValue, ColorError>)
    ensures
        rgb_result_matches(res, rgb_spec(t@), t@),
{
    proof {
        reveal_strlit("rgba(");
        reveal_strlit("rgb(");
    }
    let n = t.len();
    if n >= 6 && starts_with(t, "rgba(") && t[n - 1] == ')' {
        assert(rgba_form(t@));
        let inner = slice_chars(t, 5, n - 1);
        let parts = split_chars(&inner, ',');
        if parts.len() == 4 {
            match rgb_triple_of(&parts) {
                Some((r, g, b)) => {
                    let alpha = trim_chars(&parts[3]);
                    return Ok(ColorValue::RgbAlphaText { r, g, b, alpha: string_from(&alpha) });
                },
                None => {},
            }
        }
    } else if n >= 5 && starts_with(t, "rgb(") && t[n - 1] == ')' {
        assert(!rgba_form(t@)) by {
            if rgba_form(t@) {
                assert(t@[3] == 'a');
            }
        }
        assert(rgb_form(t@));
        let inner = slice_chars(t, 4, n - 1);
        let parts = split_chars(&inner, ',');
        if parts.len() == 3 {
            match rgb_triple_of(&parts) {
                Some((r, g, b)) => {
                    return Ok(ColorValue::Rgba(Rgba8 { r, g, b, a: 255 }));
                },
                None => {},
            }
        }
    } else {
        assert(!rgba_form(t@)) by {
            if rgba_form(t@) {
                assert(t@.subrange(0, 4) =~= "rgb("@);
            }
        }
    }
    Err(ColorError::InvalidRgb(string_from(t)))
}

impl ColorValue {
    /// Parse `rgb(r, g, b)` or `rgba(r, g, b, a)` (surrounding whitespace
    /// ignored, components separated by commas and trimmed). The alpha of
    /// `rgba` is returned as its text; the error carries the trimmed input.
    pub fn from_rgb_str(s: &str) -> (res: Result<ColorValue, ColorError>)
        ensures
            rgb_result_matches(res, rgb_spec(trim_seq(s@)), trim_seq(s@)),
    {
        let v = chars_of(s);
        let t = trim_chars(&v);
        rgb_of_trimmed(&t)
    }

    /// Parse any colour notation: text starting with `#` as hex, text
    /// starting with `rgb` in functional notation, anything else as a
    /// colour name. Surrounding whitespace is ignored.
    pub fn parse(s: &str) -> (res: Result<ColorValue, ColorError>)
        ensures
            ({
                let t = trim_seq(s@);
                if t.len() > 0 && t[0] == '#' {
                    match hex_color_spec(strip_hashes(t)) {
                        Some(c) => res == Ok::<ColorValue, ColorError>(ColorValue::Rgba(c)),
                        None => res matches Err(e) && e is InvalidHex && e.text() == strip_hashes(
                            t,
                        ),
                    }
                } else if t.len() >= 3 && t.subrange(0, 3) == "rgb"@ {
                    rgb_result_matches(res, rgb_spec(t), t)
                } else {
                    match named_color_spec(unicode_lowercase(t)) {
                        Some(c) => res == Ok::<ColorValue, ColorError>(ColorValue::Named(c)),
                        None => res matches Err(e) && e is UnknownName && e.text() == t,
                    }
                }
            }),
    {
        let v = chars_of(s);
        let t = trim_chars(&v);
        if t.len() > 0 && t[0] == '#' {
            let text = string_from(&t);
            match Rgba8::from_hex(text.as_str()) {
                Ok(c) => Ok(ColorValue::Rgba(c)),
                Err(e) => Err(e),
            }
        } else if starts_with(&t, "rgb") {
            proof {
                reveal_strlit("rgb");
            }
            rgb_of_trimmed(&t)
        } else {
            proof {
                reveal_strlit("rgb");
            }
            let text = string_from(&t);
            match NamedColor::from_name(text.as_str()) {
                Ok(c) => Ok(ColorValue::Named(c)),
                Err(e) => Err(e),
            }
        }
    }
}

/// The colour that a lowercase name denotes.
pub open spec fn named_color_spec(l: Seq<char>) -> Option<NamedColor> {
    if l == "black"@ {
        Some(NamedColor::Black)
    } else if l == "white"@ {
        Some(NamedColor::White)
    } else if l == "red"@ {
        Some(NamedColor::Red)
    } else if l == "green"@ {
        Some(NamedColor::Green)
    } else if l == "blue"@ {
        Some(NamedColor::Blue)
    } else if l == "yellow"@ {
        Some(NamedColor::Yellow)
    } else if l == "cyan"@ {
        Some(NamedColor::Cyan)
    } else if l == "magenta"@ {
        Some(NamedColor::Magenta)
    } else if l == "transparent"@ {
        Some(NamedColor::Transparent)
    } else if l == "gray"@ || l == "grey"@ {
        Some(NamedColor::Gray)
    } else if l == "darkgray"@ || l == "darkgrey"@ {
        Some(NamedColor::DarkGray)
    } else if l == "lightgray"@ || l == "lightgrey"@ {
        Some(NamedColor::LightGray)
    } else {
        None
    }
}

impl NamedColor {
    /// The colour of a name, compared after Unicode lowercasing; the error
    /// carries the name as given.
    pub fn from_name(name: &str) -> (res: Result<NamedColor, ColorError>)
        ensures
            match named_color_spec(unicode_lowercase(name@)) {
                Some(c) => res == Ok::<NamedColor, ColorError>(c),
                None => res matches Err(e) && e is UnknownName && e.text() == name@,
            },
    {
        let lower = lowercase(name);
        let l = chars_of(lower.as_str());
        let c = if chars_equal(&l, "black") {
            NamedColor::Black
        } else if chars_equal(&l, "white") {
            NamedColor::White
        } else if chars_equal(&l, "red") {
            NamedColor::Red
        } else if chars_equal(&l, "green") {
            NamedColor::Green
        } else if chars_equal(&l, "blue") {
            NamedColor::Blue
        } else if chars_equal(&l, "yellow") {
            NamedColor::Yellow
        } else if chars_equal(&l, "cyan") {
            NamedColor::Cyan
        } else if chars_equal(&l, "magenta") {
            NamedColor::Magenta
        } else if chars_equal(&l, "transparent") {
            NamedColor::Transparent
        } else if chars_equal(&l, "gray") || chars_equal(&l, "grey") {
            NamedColor::Gray
        } else if chars_equal(&l, "darkgray") || chars_equal(&l, "darkgrey") {
            NamedColor::DarkGray
        } else if chars_equal(&l, "lightgray") || chars_equal(&l, "lightgrey") {
            NamedColor::LightGray
        } else {
            let v = chars_of(name);
            return Err(ColorError::UnknownName(string_from(&v)));
        };
        Ok(c)
    }
}

/// The value of the two hexadecimal digits `t[i]`, `t[i + 1]`.
pub open spec fn pair_value(t: Seq<char>, i: int) -> int {
    16 * hex_value(t[i]) + hex_value(t[i + 1])
}

proof fn lemma_pair(t: Seq<char>, i: int)
    requires
        all_hex_digits(t),
        0 <= i,
        i + 2 <= t.len(),
    ensures
        hex_u8_spec(t.subrange(i, i + 2)) == Some(pair_value(t, i) as u8),
        0 <= pair_value(t, i) <= 255,
{
    let p = t.subrange(i, i + 2);
    assert(p[0] == t[i] && p[1] == t[i + 1]);
    assert(is_hex_digit(t[i]) && is_hex_digit(t[i + 1]));
}

proof fn lemma_single(t: Seq<char>, i: int)
    requires
        all_hex_digits(t),
        0 <= i < t.len(),
    ensures
        hex_u8_spec(t.subrange(i, i + 1)) == Some(hex_value(t[i]) as u8),
        0 <= hex_value(t[i]) <= 15,
{
    let p = t.subrange(i, i + 1);
    assert(p[0] == t[i]);
    assert(is_hex_digit(t[i]));
}

/// Hex colours are read digit by digit: in `RRGGBB` and `RRGGBBAA` the first
/// two digits give red, the next two green, the next two blue and the last
/// two alpha (255, opaque, when absent); in `RGB` each digit `d` gives the
/// component `17 * d`, the digit repeated. Text that is not 3, 6 or 8
/// hexadecimal digits is no colour.
pub proof fn law_hex_components(t: Seq<char>)
    ensures
        all_hex_digits(t) && (t.len() == 6 || t.len() == 8) ==> (hex_color_spec(t) matches Some(c)
            && c.r == pair_value(t, 0) && c.g == pair_value(t, 2) && c.b == pair_value(t, 4) && c.a
            == (if t.len() == 8 {
            pair_value(t, 6)
        } else {
            255
        })),
        all_hex_digits(t) && t.len() == 3 ==> (hex_color_spec(t) matches Some(c) && c.r == 17
            * hex_value(t[0]) && c.g == 17 * hex_value(t[1]) && c.b == 17 * hex_value(t[2]) && c.a
            == 255),
        !(all_hex_digits(t) && (t.len() == 3 || t.len() == 6 || t.len() == 8)) ==> hex_color_spec(
            t,
        ) is None,
{
    if all_hex_digits(t) {
        if t.len() == 6 || t.len() == 8 {
            lemma_pair(t, 0);
            lemma_pair(t, 2);
            lemma_pair(t, 4);
            if t.len() == 8 {
                lemma_pair(t, 6);
            }
        } else if t.len() == 3 {
            lemma_single(t, 0);
            lemma_single(t, 1);
            lemma_single(t, 2);
        }
    }
}

/// An alpha pair does not change the colour: `#RRGGBBAA` has the red,
/// green and blue of `#RRGGBB`, and `#RRGGBB` is opaque.
pub proof fn law_alpha_keeps_colour(t: Seq<char>)
    requires
        all_hex_digits(t),
        t.len() == 8,
    ensures
        hex_color_spec(t) matches Some(c) && hex_color_spec(t.subrange(0, 6)) matches Some(d) && c.r
            == d.r && c.g == d.g && c.b == d.b && d.a == 255,
{
    let u = t.subrange(0, 6);
    assert(all_hex_digits(u)) by {
        assert forall|i: int| 0 <= i < u.len() implies is_hex_digit(#[trigger] u[i]) by {
            assert(u[i] == t[i]);
        }
    }
    law_hex_components(t);
    law_hex_components(u);
    assert(u[0] == t[0] && u[1] == t[1] && u[2] == t[2] && u[3] == t[3] && u[4] == t[4] && u[5]
        == t[5]);
}

} // verus!

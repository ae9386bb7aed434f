//! Named theme colours and the `#rrggbb` notation they are written in.

use vstd::prelude::*;
use crate::text::string_push;
use vstd::string::{StringSliceAdditionalSpecFns, StringExecFns};

verus! {

/// An RGB colour, written as a `#rrggbb` hex string.
#[derive(Debug, Clone, Copy, PartialEq, Eq, Structural)]
pub struct Color {
    pub r: u8,
    pub g: u8,
    pub b: u8,
}

/// A string that is not a `#rrggbb` colour; it keeps the rejected input.
#[derive(Debug)]
pub struct ColorParseError(String);

impl ColorParseError {
    pub closed spec fn input_spec(&self) -> Seq<char> {
        self.0@
    }

    /// The text that failed to parse.
    pub fn input(&self) -> (r: &str)
        ensures
            r@ == self.input_spec(),
    {
        self.0.as_str()
    }
}

/// The value of one hexadecimal digit byte, in either case.
pub open spec fn hex_digit_value(b: u8) -> Option<u8> {
    if 0x30 <= b && b <= 0x39 {
        Some((b - 0x30) as u8)
    } else if 0x61 <= b && b <= 0x66 {
        Some((b - 0x61 + 10) as u8)
    } else if 0x41 <= b && b <= 0x46 {
        Some((b - 0x41 + 10) as u8)
    } else {
        None
    }
}

/// A two-byte field read as two hex digits, high digit first.
pub open spec fn hex_pair_value(hi: u8, lo: u8) -> Option<u8> {
    match (hex_digit_value(hi), hex_digit_value(lo)) {
        (Some(h), Some(l)) => Some((16 * h + l) as u8),
        _ => None,
    }
}

/// The bytes after one leading `#`, if there is one.
pub open spec fn hex_body(bytes: Seq<u8>) -> Seq<u8> {
    if bytes.len() > 0 && bytes[0] == 0x23 {
        bytes.skip(1)
    } else {
        bytes
    }
}

/// The colour that a UTF-8 string denotes: an optional `#`, then exactly six bytes that
/// form three base-16 fields.
pub open spec fn parse_color_bytes(bytes: Seq<u8>) -> Option<Color> {
    let h = hex_body(bytes);
    if h.len() != 6 {
        None
    } else {
        match (hex_pair_value(h[0], h[1]), hex_pair_value(h[2], h[3]), hex_pair_value(h[4], h[5])) {
            (Some(r), Some(g), Some(b)) => Some(Color { r, g, b }),
            _ => None,
        }
    }
}

/// The lower-case hex digit for a value below 16.
pub open spec fn hex_digit_char(n: u8) -> char {
    if n < 10 {
        ((48 + n) as u32) as char
    } else {
        ((87 + n) as u32) as char
    }
}

/// Two lower-case hex digits for a byte.
pub open spec fn hex_byte_chars(x: u8) -> Seq<char> {
    seq![hex_digit_char(x / 16), hex_digit_char(x % 16)]
}

/// `#rrggbb` in lower case.
pub open spec fn color_hex_chars(c: Color) -> Seq<char> {
    seq!['#'] + hex_byte_chars(c.r) + hex_byte_chars(c.g) + hex_byte_chars(c.b)
}

impl Color {
    pub fn new(r: u8, g: u8, b: u8) -> (c: Self)
        ensures
            c == (Color { r, g, b }),
    {
        Color { r, g, b }
    }

    /// Parses `#rrggbb`: an optional `#`, then exactly six ASCII hex digits in either case.
    /// Anything else, non-ASCII text included, is an error that keeps the input.
    pub fn parse_hex(s: &str) -> (res: Result<Color, ColorParseError>)
        ensures
            match res {
                Ok(c) => parse_color_bytes(s.spec_bytes()) == Some(c),
                Err(e) => parse_color_bytes(s.spec_bytes()) is None && e.input_spec() == s@,
            },
    {
        let bytes = s.as_bytes();
        let n = bytes.len();
        let start: usize = if n > 0 && bytes[0] == 0x23u8 { 1 } else { 0 };
        proof {
            assert(hex_body(bytes@) =~= bytes@.skip(start as int));
        }
        if n - start != 6 {
            return Err(ColorParseError(s.to_owned()));
        }
        let r = hex_pair(bytes[start], bytes[start + 1]);
        let g = hex_pair(bytes[start + 2], bytes[start + 3]);
        let b = hex_pair(bytes[start + 4], bytes[start + 5]);
        match (r, g, b) {
            (Some(r), Some(g), Some(b)) => Ok(Color { r, g, b }),
            _ => Err(ColorParseError(s.to_owned())),
        }
    }

    /// `#rrggbb` in lower case.
    pub fn to_hex_string(&self) -> (s: String)
        ensures
            s@ == color_hex_chars(*self),
    {
        let mut s = String::new();
        string_push(&mut s, '#');
        push_hex_byte(&mut s, self.r);
        push_hex_byte(&mut s, self.g);
        push_hex_byte(&mut s, self.b);
        proof {
            assert(s@ =~= color_hex_chars(*self));
        }
        s
    }
}

impl std::str::FromStr for Color {
    type Err = ColorParseError;

    fn from_str(s: &str) -> (res: Result<Color, ColorParseError>)
        ensures
            match res {
                Ok(c) => parse_color_bytes(s.spec_bytes()) == Some(c),
                Err(e) => parse_color_bytes(s.spec_bytes()) is None && e.input_spec() == s@,
            },
    {
        Color::parse_hex(s)
    }
}

fn hex_digit(b: u8) -> (r: Option<u8>)
    ensures
        r == hex_digit_value(b),
{
    if 0x30 <= b && b <= 0x39 {
        Some(b - 0x30)
    } else if 0x61 <= b && b <= 0x66 {
        Some(b - 0x61 + 10)
    } else if 0x41 <= b && b <= 0x46 {
        Some(b - 0x41 + 10)
    } else {
        None
    }
}

fn hex_pair(hi: u8, lo: u8) -> (r: Option<u8>)
    ensures
        r == hex_pair_value(hi, lo),
{
    match (hex_digit(hi), hex_digit(lo)) {
        (Some(h), Some(l)) => Some(16 * h + l),
        _ => None,
    }
}

fn hex_digit_to_char(n: u8) -> (c: char)
    requires
        n < 16,
    ensures
        c == hex_digit_char(n),
{
    let code: u8 = if n < 10 { 48 + n } else { 87 + n };
    code as char
}

fn push_hex_byte(s: &mut String, x: u8)
    ensures
        final(s)@ == old(s)@ + hex_byte_chars(x),
{
    string_push(s, hex_digit_to_char(x / 16));
    string_push(s, hex_digit_to_char(x % 16));
    proof {
        assert(final(s)@ =~= old(s)@ + hex_byte_chars(x));
    }
}

/// A colour written as `#rrggbb` reads back as the same colour.
pub proof fn lemma_hex_round_trip(c: Color)
    ensures
        parse_color_bytes(vstd::utf8::encode_utf8(color_hex_chars(c))) == Some(c),
{
    let chars = color_hex_chars(c);
    assert(vstd::utf8::is_ascii_chars(chars));
    vstd::utf8::is_ascii_chars_encode_utf8(chars);
    let bytes = vstd::utf8::encode_utf8(chars);
    lemma_hex_byte_round_trip(c.r);
    lemma_hex_byte_round_trip(c.g);
    lemma_hex_byte_round_trip(c.b);
    assert(bytes[0] == 0x23);
    let h = hex_body(bytes);
    assert(h.len() == 6);
    assert(h[0] == chars[1] as u8);
    assert(h[1] == chars[2] as u8);
    assert(h[2] == chars[3] as u8);
    assert(h[3] == chars[4] as u8);
    assert(h[4] == chars[5] as u8);
    assert(h[5] == chars[6] as u8);
}

proof fn lemma_hex_byte_round_trip(x: u8)
    ensures
        hex_pair_value(hex_digit_char(x / 16) as u8, hex_digit_char(x % 16) as u8) == Some(x),
        hex_digit_char(x / 16) as u32 <= 0x7f,
        hex_digit_char(x % 16) as u32 <= 0x7f,
{
    let hi = x / 16;
    let lo = x % 16;
    assert(hex_digit_value(hex_digit_char(hi) as u8) == Some(hi));
    assert(hex_digit_value(hex_digit_char(lo) as u8) == Some(lo));
    assert(16 * hi + lo == x);
}

/// A named colour theme: background, window and text, plus the eight ANSI-style names.
#[derive(Debug, Clone)]
pub struct Theme {
    pub name: String,
    pub background: Color,
    pub window: Color,
    pub text: Color,
    pub black: Color,
    pub red: Color,
    pub green: Color,
    pub yellow: Color,
    pub blue: Color,
    pub magenta: Color,
    pub cyan: Color,
    pub white: Color,
    pub gray: Color,
}

impl Theme {
    /// The colours of the default theme.
    pub open spec fn is_default_palette(&self) -> bool {
        &&& self.background == Color { r: 0x12, g: 0x13, b: 0x17 }
        &&& self.window == Color { r: 0x1e, g: 0x21, b: 0x2b }
        &&& self.text == Color { r: 0xe2, g: 0xe2, b: 0xe2 }
        &&& self.black == Color { r: 0x16, g: 0x16, b: 0x1e }
        &&& self.red == Color { r: 0xec, g: 0x61, b: 0x83 }
        &&& self.green == Color { r: 0x2e, g: 0xd8, b: 0xa2 }
        &&& self.yellow == Color { r: 0xe8, g: 0xb1, b: 0x95 }
        &&& self.blue == Color { r: 0x2b, g: 0xc3, b: 0xde }
        &&& self.magenta == Color { r: 0xe0, g: 0x69, b: 0xaa }
        &&& self.cyan == Color { r: 0x62, g: 0xe0, b: 0xe2 }
        &&& self.white == Color { r: 0xe2, g: 0xe2, b: 0xe2 }
        &&& self.gray == Color { r: 0x97, g: 0x98, b: 0x9d }
    }
}

impl Default for Theme {
    /// The theme named `Default`.
    fn default() -> (t: Self)
        ensures
            t.name@ == "Default"@,
            t.is_default_palette(),
    {
        Theme {
            name: String::from_str("Default"),
            background: Color::new(0x12, 0x13, 0x17),
            window: Color::new(0x1e, 0x21, 0x2b),
            text: Color::new(0xe2, 0xe2, 0xe2),
            black: Color::new(0x16, 0x16, 0x1e),
            red: Color::new(0xec, 0x61, 0x83),
            green: Color::new(0x2e, 0xd8, 0xa2),
            yellow: Color::new(0xe8, 0xb1, 0x95),
            blue: Color::new(0x2b, 0xc3, 0xde),
            magenta: Color::new(0xe0, 0x69, 0xaa),
            cyan: Color::new(0x62, 0xe0, 0xe2),
            white: Color::new(0xe2, 0xe2, 0xe2),
            gray: Color::new(0x97, 0x98, 0x9d),
        }
    }
}

} // verus!

//! Colours as 8-bit sRGB.
//!
//! Every backend keeps colours its own way; [`Color`] is the common form that
//! they convert to and from.
use vstd::prelude::*;

use crate::ascii::{ascii_is_hex_digit, hex_char, hex_digit_of, hex_to_char, hex_value, is_hex_digit, is_whitespace};
use crate::lexical::{chars_of, push_char, trim, trim_end, trim_range, trim_start};

verus! {

/// An sRGB colour; each channel is 0..=255. There is no alpha.
#[derive(Debug, Clone, Copy, PartialEq, Eq, Structural, Hash)]
pub struct Color {
    pub r: u8,
    pub g: u8,
    pub b: u8,
}

pub open spec fn all_hex(s: Seq<char>) -> bool {
    forall|i: int| 0 <= i < s.len() ==> is_hex_digit(#[trigger] s[i])
}

/// The text left once whitespace is trimmed and one leading `#` dropped.
pub open spec fn hex_body(text: Seq<char>) -> Seq<char> {
    let t = trim(text);
    if t.len() > 0 && t[0] == '#' {
        t.drop_first()
    } else {
        t
    }
}

/// What [`Color::from_hex`] reads: three hex digits (each doubled) or six.
pub open spec fn color_from_hex(text: Seq<char>) -> Option<Color> {
    let b = hex_body(text);
    if !all_hex(b) {
        None
    } else if b.len() == 3 {
        Some(
            Color {
                r: (hex_value(b[0]) * 17) as u8,
                g: (hex_value(b[1]) * 17) as u8,
                b: (hex_value(b[2]) * 17) as u8,
            },
        )
    } else if b.len() == 6 {
        Some(
            Color {
                r: (hex_value(b[0]) * 16 + hex_value(b[1])) as u8,
                g: (hex_value(b[2]) * 16 + hex_value(b[3])) as u8,
                b: (hex_value(b[4]) * 16 + hex_value(b[5])) as u8,
            },
        )
    } else {
        None
    }
}

/// Two lower-case hex digits.
pub open spec fn hex2(v: u8) -> Seq<char> {
    seq![hex_char((v / 16) as nat), hex_char((v % 16) as nat)]
}

/// `#rrggbb` in lower case.
pub open spec fn hex_text(c: Color) -> Seq<char> {
    seq!['#'] + hex2(c.r) + hex2(c.g) + hex2(c.b)
}

impl Color {
    /// Black (`#000000`), also the first value of a colour picker.
    pub fn black() -> (c: Color)
        ensures
            c == (Color { r: 0, g: 0, b: 0 }),
    {
        Color { r: 0, g: 0, b: 0 }
    }

    /// White (`#ffffff`).
    pub fn white() -> (c: Color)
        ensures
            c == (Color { r: 255, g: 255, b: 255 }),
    {
        Color { r: 255, g: 255, b: 255 }
    }

    pub fn rgb(r: u8, g: u8, b: u8) -> (c: Self)
        ensures
            c == (Color { r, g, b }),
    {
        Color { r, g, b }
    }

    /// Reads hex notation. The `#` may be left out and the three-digit short
    /// form is accepted; surrounding whitespace is ignored. Any other text
    /// (another length, a non-hex character) gives `None`.
    pub fn from_hex(text: &str) -> (r: Option<Color>)
        ensures
            r == color_from_hex(text@),
    {
        let cs = chars_of(text);
        let (a0, b0) = trim_range(&cs);
        let a = if a0 < b0 && cs[a0] == '#' {
            a0 + 1
        } else {
            a0
        };
        let ghost t = trim(text@);
        let ghost body = cs@.subrange(a as int, b0 as int);
        assert(body =~= hex_body(text@));
        let mut i = a;
        while i < b0
            invariant
                a <= i <= b0 <= cs@.len(),
                body == cs@.subrange(a as int, b0 as int),
                body == hex_body(text@),
                forall|j: int| 0 <= j < i - a ==> is_hex_digit(#[trigger] body[j]),
            decreases b0 - i,
        {
            if !ascii_is_hex_digit(cs[i]) {
                assert(!is_hex_digit(body[i - a]));
                return None;
            }
            i += 1;
        }
        let len = b0 - a;
        if len == 3 {
            let r = hex_digit_of(cs[a]);
            let g = hex_digit_of(cs[a + 1]);
            let b = hex_digit_of(cs[a + 2]);
            Some(Color { r: r * 17, g: g * 17, b: b * 17 })
        } else if len == 6 {
            let r1 = hex_digit_of(cs[a]);
            let r2 = hex_digit_of(cs[a + 1]);
            let g1 = hex_digit_of(cs[a + 2]);
            let g2 = hex_digit_of(cs[a + 3]);
            let b1 = hex_digit_of(cs[a + 4]);
            let b2 = hex_digit_of(cs[a + 5]);
            Some(Color { r: r1 * 16 + r2, g: g1 * 16 + g2, b: b1 * 16 + b2 })
        } else {
            None
        }
    }

    /// `#rrggbb` in lower case, the form `<input type="color">` uses.
    pub fn to_hex(self) -> (r: String)
        ensures
            r@ == hex_text(self),
    {
        let mut out = String::new();
        push_char(&mut out, '#');
        push_hex2(&mut out, self.r);
        push_hex2(&mut out, self.g);
        push_hex2(&mut out, self.b);
        assert(out@ =~= hex_text(self));
        out
    }

    /// The `Display` text, the same as [`to_hex`](Self::to_hex).
    pub fn to_string(&self) -> (r: String)
        ensures
            r@ == hex_text(*self),
    {
        self.to_hex()
    }
}

fn push_hex2(s: &mut String, v: u8)
    ensures
        final(s)@ == old(s)@ + hex2(v),
{
    push_char(s, hex_to_char(v / 16));
    push_char(s, hex_to_char(v % 16));
    assert(final(s)@ =~= old(s)@ + hex2(v));
}

impl Default for Color {
    /// Black.
    fn default() -> (r: Self)
        ensures
            r == (Color { r: 0, g: 0, b: 0 }),
    {
        Color { r: 0, g: 0, b: 0 }
    }
}

proof fn lemma_trim_keeps(s: Seq<char>)
    requires
        s.len() > 0,
        !is_whitespace(s[0]),
        !is_whitespace(s.last()),
    ensures
        trim(s) == s,
{
    assert(trim_start(s) == s);
}

/// Reading back [`Color::to_hex`] gives the same colour.
pub proof fn lemma_hex_round_trip(c: Color)
    ensures
        color_from_hex(hex_text(c)) == Some(c),
{
    let t = hex_text(c);
    assert(t.len() == 7);
    assert(t[0] == '#');
    assert(!is_whitespace(t.last())) by {
        assert(t.last() == hex_char((c.b % 16) as nat));
    }
    lemma_trim_keeps(t);
    let body = t.drop_first();
    assert(body =~= hex2(c.r) + hex2(c.g) + hex2(c.b));
    assert(all_hex(body));
}

} // verus!

//! Hex colour parsing and printing for the landing-page palette.
//!
//! The palette itself is derived in floating point by the application; this
//! module holds the exact part: reading a brand colour written `#RGB` or
//! `#RRGGBB` (surrounding whitespace allowed) and printing a colour back as
//! lowercase `#rrggbb`.

use vstd::prelude::*;
use crate::text::{chars_of, trim, trim_str, push_char, char_from_ascii};
use crate::public_id::{hex_lower, hex_digit_char};

verus! {

/// The value of a hex digit of either case.
pub open spec fn hex_digit_value(c: char) -> u8 {
    if '0' <= c && c <= '9' {
        ((c as u32) - 48) as u8
    } else if 'a' <= c && c <= 'f' {
        ((c as u32) - 87) as u8
    } else {
        ((c as u32) - 55) as u8
    }
}

/// A hex digit of either case (`char::to_digit(16)` succeeds).
pub open spec fn is_hex_char(c: char) -> bool {
    ('0' <= c && c <= '9') || ('a' <= c && c <= 'f') || ('A' <= c && c <= 'F')
}

/// Every character of `s` is a hex digit.
pub open spec fn all_hex(s: Seq<char>) -> bool {
    forall|i: int| 0 <= i < s.len() ==> is_hex_char(#[trigger] s[i])
}

/// A short-form channel: the digit repeated (`f` → `ff`).
pub open spec fn short_channel(c: char) -> u8 {
    (hex_digit_value(c) * 17) as u8
}

/// A long-form channel from two digits.
pub open spec fn long_channel(hi: char, lo: char) -> u8 {
    (hex_digit_value(hi) * 16 + hex_digit_value(lo)) as u8
}

/// The colour written in `s`: after trimming, `#` and three or six hex digits.
pub open spec fn hex_color_of(s: Seq<char>) -> Option<(u8, u8, u8)> {
    let t = trim(s);
    if t.len() == 4 && t[0] == '#' && all_hex(t.drop_first()) {
        Some((short_channel(t[1]), short_channel(t[2]), short_channel(t[3])))
    } else if t.len() == 7 && t[0] == '#' && all_hex(t.drop_first()) {
        Some((long_channel(t[1], t[2]), long_channel(t[3], t[4]), long_channel(t[5], t[6])))
    } else {
        None
    }
}

/// The `#rrggbb` spelling of a colour.
pub open spec fn hex_color_text(rgb: (u8, u8, u8)) -> Seq<char> {
    seq!['#'] + hex_lower(seq![rgb.0, rgb.1, rgb.2])
}

fn digit_value(c: char) -> (d: u8)
    requires
        is_hex_char(c),
    ensures
        d == hex_digit_value(c),
        d < 16,
{
    if '0' <= c && c <= '9' {
        ((c as u32) - 48) as u8
    } else if 'a' <= c && c <= 'f' {
        ((c as u32) - 87) as u8
    } else {
        ((c as u32) - 55) as u8
    }
}

fn is_hex(c: char) -> (r: bool)
    ensures
        r == is_hex_char(c),
{
    ('0' <= c && c <= '9') || ('a' <= c && c <= 'f') || ('A' <= c && c <= 'F')
}

/// Parse `#RGB` or `#RRGGBB`, with surrounding whitespace, into an
/// `(r, g, b)` triple; digits of either case.
pub fn parse_hex(s: &str) -> (r: Option<(u8, u8, u8)>)
    ensures
        r == hex_color_of(s@),
{
    let t = trim_str(s);
    let v = chars_of(t.as_str());
    let n = v.len();
    if !(n == 4 || n == 7) || v[0] != '#' {
        return None;
    }
    let mut i: usize = 1;
    while i < n
        invariant
            1 <= i <= n,
            n == v@.len(),
            v@ == trim(s@),
            v@[0] == '#',
            forall|k: int| 1 <= k < i ==> is_hex_char(#[trigger] v@[k]),
        decreases n - i,
    {
        if !is_hex(v[i]) {
            assert(!is_hex_char(v@.drop_first()[i - 1]));
            return None;
        }
        i = i + 1;
    }
    assert(all_hex(v@.drop_first())) by {
        assert forall|k: int| 0 <= k < v@.drop_first().len() implies is_hex_char(
            #[trigger] v@.drop_first()[k],
        ) by {
            assert(v@.drop_first()[k] == v@[k + 1]);
        }
    }
    if n == 4 {
        let r = digit_value(v[1]) * 17;
        let g = digit_value(v[2]) * 17;
        let b = digit_value(v[3]) * 17;
        Some((r, g, b))
    } else {
        let r = digit_value(v[1]) * 16 + digit_value(v[2]);
        let g = digit_value(v[3]) * 16 + digit_value(v[4]);
        let b = digit_value(v[5]) * 16 + digit_value(v[6]);
        Some((r, g, b))
    }
}

fn hex_char(d: u8) -> (c: char)
    requires
        d < 16,
    ensures
        c == hex_digit_char(d),
{
    if d < 10 {
        char_from_ascii((d + 48) as u32)
    } else {
        char_from_ascii((d + 87) as u32)
    }
}

/// `#rrggbb`, lowercase, two digits per channel.
pub fn to_hex(rgb: (u8, u8, u8)) -> (r: String)
    ensures
        r@ == hex_color_text(rgb),
{
    let (red, green, blue) = rgb;
    let mut out = String::new();
    push_char(&mut out, '#');
    push_char(&mut out, hex_char(red / 16));
    push_char(&mut out, hex_char(red % 16));
    push_char(&mut out, hex_char(green / 16));
    push_char(&mut out, hex_char(green % 16));
    push_char(&mut out, hex_char(blue / 16));
    push_char(&mut out, hex_char(blue % 16));
    proof {
        let b3 = seq![red, green, blue];
        assert(b3.drop_last() =~= seq![red, green]);
        assert(b3.drop_last().drop_last() =~= seq![red]);
        assert(b3.drop_last().drop_last().drop_last() =~= Seq::<u8>::empty());
        reveal_with_fuel(hex_lower, 4);
        assert(out@ =~= hex_color_text(rgb));
    }
    out
}

/// Printing a parsed colour and parsing it again gives the same colour.
pub proof fn lemma_hex_round_trip(rgb: (u8, u8, u8))
    ensures
        hex_color_of(hex_color_text(rgb)) == Some(rgb),
{
    let b3 = seq![rgb.0, rgb.1, rgb.2];
    assert(b3.drop_last() =~= seq![rgb.0, rgb.1]);
    assert(b3.drop_last().drop_last() =~= seq![rgb.0]);
    assert(b3.drop_last().drop_last().drop_last() =~= Seq::<u8>::empty());
    reveal_with_fuel(hex_lower, 4);
    let t = hex_color_text(rgb);
    assert(t.len() == 7);
    assert(!crate::text::is_whitespace(t[0]));
    assert(!crate::text::is_whitespace(t[6])) by {
        assert(t[6] == hex_digit_char(rgb.2 % 16));
    }
    assert(crate::text::trim_start(t) == t);
    assert(crate::text::trim_end(t) == t);
    assert(all_hex(t.drop_first())) by {
        assert forall|k: int| 0 <= k < 6 implies is_hex_char(#[trigger] t.drop_first()[k]) by {
            assert(t.drop_first()[k] == t[k + 1]);
        }
    }
    assert(long_channel(t[1], t[2]) == rgb.0) by {
        assert(hex_digit_value(hex_digit_char(rgb.0 / 16)) == rgb.0 / 16);
        assert(hex_digit_value(hex_digit_char(rgb.0 % 16)) == rgb.0 % 16);
    }
    assert(long_channel(t[3], t[4]) == rgb.1) by {
        assert(hex_digit_value(hex_digit_char(rgb.1 / 16)) == rgb.1 / 16);
        assert(hex_digit_value(hex_digit_char(rgb.1 % 16)) == rgb.1 % 16);
    }
    assert(long_channel(t[5], t[6]) == rgb.2) by {
        assert(hex_digit_value(hex_digit_char(rgb.2 / 16)) == rgb.2 / 16);
        assert(hex_digit_value(hex_digit_char(rgb.2 % 16)) == rgb.2 % 16);
    }
}

} // verus!

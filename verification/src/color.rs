//! The colour model: value types for terminal colours, their
//! cross-encoding equivalence relation, and their canonical names.

use vstd::prelude::*;

use crate::strutil::push_char;

verus! {

/// A terminal colour: one of the eight base hues, an index into the
/// 256-entry palette, or a 24-bit red/green/blue triple.
///
/// Every `RGB` value is constructed with its components already checked
/// into range by the SGR interpreter, so no invalid colour value exists.
#[derive(Clone, Copy, Debug, PartialEq, Eq, Structural)]
pub enum Color {
    Black,
    Red,
    Green,
    Yellow,
    Blue,
    Purple,
    Cyan,
    White,
    Fixed(u8),
    RGB(u8, u8, u8),
}

/// One direction of the basic-colour aliasing table: a palette index
/// `Fixed(0..=7)` denotes the same visual colour as the correspondingly
/// named base colour. No other cross-encoding pair is aliased.
pub open spec fn sixteen_color_alias(a: Color, b: Color) -> bool {
    ||| (a == Color::Fixed(0u8) && b == Color::Black)
    ||| (a == Color::Fixed(1u8) && b == Color::Red)
    ||| (a == Color::Fixed(2u8) && b == Color::Green)
    ||| (a == Color::Fixed(3u8) && b == Color::Yellow)
    ||| (a == Color::Fixed(4u8) && b == Color::Blue)
    ||| (a == Color::Fixed(5u8) && b == Color::Purple)
    ||| (a == Color::Fixed(6u8) && b == Color::Cyan)
    ||| (a == Color::Fixed(7u8) && b == Color::White)
}

/// Equivalence of two optional colours: both absent, or both present and
/// either identical or related by the basic-colour aliasing table in one
/// direction or the other.
pub open spec fn color_equivalent(a: Option<Color>, b: Option<Color>) -> bool {
    match (a, b) {
        (None, None) => true,
        (Some(x), Some(y)) => x == y || sixteen_color_alias(x, y) || sixteen_color_alias(y, x),
        _ => false,
    }
}

/// The explicit lookup table behind `sixteen_color_alias`, one direction.
pub fn ansi_term_16_color_equality(a: Color, b: Color) -> (r: bool)
    ensures
        r == sixteen_color_alias(a, b),
{
    match (a, b) {
        (Color::Fixed(0), Color::Black) => true,
        (Color::Fixed(1), Color::Red) => true,
        (Color::Fixed(2), Color::Green) => true,
        (Color::Fixed(3), Color::Yellow) => true,
        (Color::Fixed(4), Color::Blue) => true,
        (Color::Fixed(5), Color::Purple) => true,
        (Color::Fixed(6), Color::Cyan) => true,
        (Color::Fixed(7), Color::White) => true,
        _ => false,
    }
}

/// Whether two optional colours denote the same visual colour.
pub fn ansi_term_color_equality(a: Option<Color>, b: Option<Color>) -> (r: bool)
    ensures
        r == color_equivalent(a, b),
{
    match (a, b) {
        (None, None) => true,
        (None, Some(_)) => false,
        (Some(_), None) => false,
        (Some(x), Some(y)) => {
            if x == y {
                true
            } else {
                ansi_term_16_color_equality(x, y) || ansi_term_16_color_equality(y, x)
            }
        },
    }
}

/// The decimal digit character for a value below ten.
pub open spec fn dec_digit(d: u8) -> char
    recommends
        d < 10,
{
    ((d + 48) as u8) as char
}

/// The lower-case hexadecimal digit character for a value below sixteen.
pub open spec fn hex_digit(d: u8) -> char
    recommends
        d < 16,
{
    if d < 10 {
        ((d + 48) as u8) as char
    } else {
        ((d + 87) as u8) as char
    }
}

/// The decimal notation of a byte, without leading zeros.
pub open spec fn dec_u8(n: u8) -> Seq<char> {
    if n < 10 {
        seq![dec_digit(n)]
    } else if n < 100 {
        seq![dec_digit(n / 10), dec_digit(n % 10)]
    } else {
        seq![dec_digit(n / 100), dec_digit((n / 10) % 10), dec_digit(n % 10)]
    }
}

/// The two-digit hexadecimal notation of a byte.
pub open spec fn hex_u8(n: u8) -> Seq<char> {
    seq![hex_digit(n / 16), hex_digit(n % 16)]
}

/// The canonical name of a colour: the lower-case word for a base hue, the
/// decimal palette index for a fixed colour, and `#rrggbb` for a triple.
pub open spec fn color_description(c: Color) -> Seq<char> {
    match c {
        Color::Black => "black"@,
        Color::Red => "red"@,
        Color::Green => "green"@,
        Color::Yellow => "yellow"@,
        Color::Blue => "blue"@,
        Color::Purple => "purple"@,
        Color::Cyan => "cyan"@,
        Color::White => "white"@,
        Color::Fixed(n) => dec_u8(n),
        Color::RGB(r, g, b) => seq!['#'] + hex_u8(r) + hex_u8(g) + hex_u8(b),
    }
}

/// Appends the decimal notation of `n` to `out`.
fn push_dec_u8(out: &mut String, n: u8)
    ensures
        final(out)@ == old(out)@ + dec_u8(n),
{
    if n < 10 {
        push_char(out, (n + 48) as char);
        assert(out@ =~= old(out)@ + dec_u8(n));
    } else if n < 100 {
        push_char(out, (n / 10 + 48) as char);
        push_char(out, (n % 10 + 48) as char);
        assert(out@ =~= old(out)@ + dec_u8(n));
    } else {
        push_char(out, (n / 100 + 48) as char);
        push_char(out, ((n / 10) % 10 + 48) as char);
        push_char(out, (n % 10 + 48) as char);
        assert(out@ =~= old(out)@ + dec_u8(n));
    }
}

/// Appends the two-digit hexadecimal notation of `n` to `out`.
fn push_hex_u8(out: &mut String, n: u8)
    ensures
        final(out)@ == old(out)@ + hex_u8(n),
{
    let hi = n / 16;
    let lo = n % 16;
    if hi < 10 {
        push_char(out, (hi + 48) as char);
    } else {
        push_char(out, (hi + 87) as char);
    }
    if lo < 10 {
        push_char(out, (lo + 48) as char);
    } else {
        push_char(out, (lo + 87) as char);
    }
    assert(out@ =~= old(out)@ + hex_u8(n));
}

/// The canonical name of a colour, as used by the style formatter.
pub fn color_to_string(color: Color) -> (r: String)
    ensures
        r@ == color_description(color),
{
    match color {
        Color::Black => "black".to_owned(),
        Color::Red => "red".to_owned(),
        Color::Green => "green".to_owned(),
        Color::Yellow => "yellow".to_owned(),
        Color::Blue => "blue".to_owned(),
        Color::Purple => "purple".to_owned(),
        Color::Cyan => "cyan".to_owned(),
        Color::White => "white".to_owned(),
        Color::Fixed(n) => {
            let mut s = String::new();
            push_dec_u8(&mut s, n);
            assert(s@ =~= dec_u8(n));
            s
        },
        Color::RGB(r, g, b) => {
            let mut s = String::new();
            push_char(&mut s, '#');
            push_hex_u8(&mut s, r);
            push_hex_u8(&mut s, g);
            push_hex_u8(&mut s, b);
            assert(s@ =~= color_description(Color::RGB(r, g, b)));
            s
        },
    }
}

} // verus!

//! The SGR interpreter: decodes the integer parameter list of an
//! `m`-terminated control sequence into an attribute record.

use vstd::prelude::*;

use crate::color::Color;

verus! {

/// The rendition attributes a run of text can carry: eight boolean flags
/// and an optional foreground and background colour. The default value —
/// every flag off, no colours — stands for the terminal's own rendition.
#[derive(Clone, Copy, Debug, PartialEq, Eq, Structural)]
pub struct AttributeSet {
    pub foreground: Option<Color>,
    pub background: Option<Color>,
    pub is_bold: bool,
    pub is_dimmed: bool,
    pub is_italic: bool,
    pub is_underline: bool,
    pub is_blink: bool,
    pub is_reverse: bool,
    pub is_hidden: bool,
    pub is_strikethrough: bool,
}

/// The attribute set with every flag off and no colours.
pub open spec fn default_attributes() -> AttributeSet {
    AttributeSet {
        foreground: None,
        background: None,
        is_bold: false,
        is_dimmed: false,
        is_italic: false,
        is_underline: false,
        is_blink: false,
        is_reverse: false,
        is_hidden: false,
        is_strikethrough: false,
    }
}

impl AttributeSet {
    /// An attribute set with no properties set.
    pub fn new() -> (r: AttributeSet)
        ensures
            r == default_attributes(),
    {
        AttributeSet {
            foreground: None,
            background: None,
            is_bold: false,
            is_dimmed: false,
            is_italic: false,
            is_underline: false,
            is_blink: false,
            is_reverse: false,
            is_hidden: false,
            is_strikethrough: false,
        }
    }
}

/// The base hue selected by a parameter offset `n` in `0..=7`, in the
/// order fixed by the SGR mapping table.
pub open spec fn base_color(n: i64) -> Color {
    if n == 0 {
        Color::Black
    } else if n == 1 {
        Color::Red
    } else if n == 2 {
        Color::Green
    } else if n == 3 {
        Color::Yellow
    } else if n == 4 {
        Color::Blue
    } else if n == 5 {
        Color::Purple
    } else if n == 6 {
        Color::Cyan
    } else {
        Color::White
    }
}

/// The effect of a single SGR parameter that consumes no sub-parameters:
/// a flag, a named colour, or a bright colour expressed as a palette
/// index. Unrecognised codes leave the record unchanged.
pub open spec fn apply_simple_code(st: AttributeSet, code: i64) -> AttributeSet {
    if code == 1 {
        AttributeSet { is_bold: true, ..st }
    } else if code == 2 {
        AttributeSet { is_dimmed: true, ..st }
    } else if code == 3 {
        AttributeSet { is_italic: true, ..st }
    } else if code == 5 || code == 6 {
        AttributeSet { is_blink: true, ..st }
    } else if code == 4 {
        AttributeSet { is_underline: true, ..st }
    } else if code == 7 {
        AttributeSet { is_reverse: true, ..st }
    } else if code == 8 {
        AttributeSet { is_hidden: true, ..st }
    } else if code == 9 {
        AttributeSet { is_strikethrough: true, ..st }
    } else if 30 <= code && code <= 37 {
        AttributeSet { foreground: Some(base_color((code - 30) as i64)), ..st }
    } else if 40 <= code && code <= 47 {
        AttributeSet { background: Some(base_color((code - 40) as i64)), ..st }
    } else if 90 <= code && code <= 97 {
        AttributeSet { foreground: Some(Color::Fixed((code - 82) as u8)), ..st }
    } else if 100 <= code && code <= 107 {
        AttributeSet { background: Some(Color::Fixed((code - 92) as u8)), ..st }
    } else {
        st
    }
}

/// The extended-colour sub-grammar behind codes 38 and 48, on the
/// parameter tail that starts with the 38 or 48 itself. The result is the
/// selected colour, if any, and how many extra parameters the caller
/// skips over beyond the introducing code; a malformed or out-of-range
/// directive selects nothing and skips nothing, so its sub-parameters are
/// read again as ordinary codes.
pub open spec fn sgr_color_spec(attrs: Seq<i64>) -> (Option<Color>, int) {
    if attrs.len() < 2 {
        (None::<Color>, 0int)
    } else if attrs[1] == 2 {
        if attrs.len() < 5 {
            (None::<Color>, 0int)
        } else if 0 <= attrs[2] && attrs[2] < 256 && 0 <= attrs[3] && attrs[3] < 256 && 0
            <= attrs[4] && attrs[4] < 256 {
            (Some(Color::RGB(attrs[2] as u8, attrs[3] as u8, attrs[4] as u8)), 4int)
        } else {
            (None::<Color>, 0int)
        }
    } else if attrs[1] == 5 {
        if attrs.len() < 3 {
            (None::<Color>, 0int)
        } else if 0 <= attrs[2] && attrs[2] < 256 {
            (Some(Color::Fixed(attrs[2] as u8)), 2int)
        } else {
            (None::<Color>, 0int)
        }
    } else {
        (None::<Color>, 0int)
    }
}

/// The attribute record reached from `st` by interpreting `params` from
/// position `i` to the end, left to right.
pub open spec fn sgr_attributes_from(params: Seq<i64>, i: int, st: AttributeSet) -> AttributeSet
    decreases params.len() - i,
{
    if i < 0 || i >= params.len() {
        st
    } else if params[i] == 38 {
        let (c, adv) = sgr_color_spec(params.skip(i));
        if c is Some {
            sgr_attributes_from(params, i + adv + 1, AttributeSet { foreground: c, ..st })
        } else {
            sgr_attributes_from(params, i + 1, st)
        }
    } else if params[i] == 48 {
        let (c, adv) = sgr_color_spec(params.skip(i));
        if c is Some {
            sgr_attributes_from(params, i + adv + 1, AttributeSet { background: c, ..st })
        } else {
            sgr_attributes_from(params, i + 1, st)
        }
    } else {
        sgr_attributes_from(params, i + 1, apply_simple_code(st, params[i]))
    }
}

/// The attribute record denoted by a complete SGR parameter list. An
/// empty list yields the default record.
pub open spec fn sgr_interpret(params: Seq<i64>) -> AttributeSet {
    sgr_attributes_from(params, 0, default_attributes())
}

/// An SGR dispatch with an empty parameter list denotes an explicit
/// reset: it is interpreted as the default record, never dropped.
pub proof fn lemma_empty_sgr_is_reset()
    ensures
        sgr_interpret(Seq::<i64>::empty()) == default_attributes(),
{
}

/// Decodes an extended-colour directive. `params[i]` is the introducing
/// code (38 or 48); the result is the selected colour, if the directive
/// is well formed and in range, and the number of extra parameters to
/// skip beyond the introducing code.
pub fn parse_sgr_color(params: &Vec<i64>, i: usize) -> (r: (Option<Color>, usize))
    requires
        i < params@.len(),
    ensures
        (r.0, r.1 as int) == sgr_color_spec(params@.skip(i as int)),
        i + r.1 < params@.len(),
{
    let len = params.len();
    if len - i < 2 {
        (None, 0)
    } else if params[i + 1] == 2 {
        if len - i < 5 {
            (None, 0)
        } else {
            let r = params[i + 2];
            let g = params[i + 3];
            let b = params[i + 4];
            if 0 <= r && r < 256 && 0 <= g && g < 256 && 0 <= b && b < 256 {
                (Some(Color::RGB(r as u8, g as u8, b as u8)), 4)
            } else {
                (None, 0)
            }
        }
    } else if params[i + 1] == 5 {
        if len - i < 3 {
            (None, 0)
        } else {
            let idx = params[i + 2];
            if 0 <= idx && idx < 256 {
                (Some(Color::Fixed(idx as u8)), 2)
            } else {
                (None, 0)
            }
        }
    } else {
        (None, 0)
    }
}

/// Interprets a complete SGR parameter list, left to right, into an
/// attribute record. Each parameter sets a flag or a colour; codes 38 and
/// 48 consume their extended-colour sub-parameters; unrecognised codes
/// are ignored.
pub fn ansi_term_style_from_sgr_parameters(parameters: &Vec<i64>) -> (r: AttributeSet)
    ensures
        r == sgr_interpret(parameters@),
{
    let mut i: usize = 0;
    let mut style = AttributeSet::new();
    while i < parameters.len()
        invariant
            i <= parameters@.len(),
            sgr_interpret(parameters@) == sgr_attributes_from(parameters@, i as int, style),
        decreases parameters@.len() - i,
    {
        let code = parameters[i];
        if code == 38 {
            let (color, advance) = parse_sgr_color(parameters, i);
            if let Some(color) = color {
                i += advance;
                style.foreground = Some(color);
            }
        } else if code == 48 {
            let (color, advance) = parse_sgr_color(parameters, i);
            if let Some(color) = color {
                i += advance;
                style.background = Some(color);
            }
        } else if code == 1 {
            style.is_bold = true;
        } else if code == 2 {
            style.is_dimmed = true;
        } else if code == 3 {
            style.is_italic = true;
        } else if code == 4 {
            style.is_underline = true;
        } else if code == 5 || code == 6 {
            style.is_blink = true;
        } else if code == 7 {
            style.is_reverse = true;
        } else if code == 8 {
            style.is_hidden = true;
        } else if code == 9 {
            style.is_strikethrough = true;
        } else if 30 <= code && code <= 37 {
            style.foreground = Some(named_color_for_offset((code - 30) as u8));
        } else if 40 <= code && code <= 47 {
            style.background = Some(named_color_for_offset((code - 40) as u8));
        } else if 90 <= code && code <= 97 {
            style.foreground = Some(Color::Fixed((code - 82) as u8));
        } else if 100 <= code && code <= 107 {
            style.background = Some(Color::Fixed((code - 92) as u8));
        }
        i += 1;
    }
    style
}

/// The base hue for a parameter offset in `0..=7`.
fn named_color_for_offset(n: u8) -> (r: Color)
    requires
        n < 8,
    ensures
        r == base_color(n as i64),
{
    if n == 0 {
        Color::Black
    } else if n == 1 {
        Color::Red
    } else if n == 2 {
        Color::Green
    } else if n == 3 {
        Color::Yellow
    } else if n == 4 {
        Color::Blue
    } else if n == 5 {
        Color::Purple
    } else if n == 6 {
        Color::Cyan
    } else {
        Color::White
    }
}

} // verus!

//! The style model: a semantic style record with an equivalence
//! predicate against raw escaped text, and a human-readable formatter.

use vstd::prelude::*;
use vstd::string::StringExecFns;

use crate::color::color_description;
use crate::color::ansi_term_color_equality;
use crate::color::color_equivalent;
use crate::color::color_to_string;
use crate::color::Color;
use crate::parse::first_style_model;
use crate::parse::parse_first_style;
use crate::parse::starts_with_escape;
use crate::parse::string_starts_with_ansi_escape_sequence;
use crate::sgr::default_attributes;
use crate::sgr::AttributeSet;

verus! {

/// A border, underline or overline treatment drawn around or below a
/// styled region; pure data, not painted by this crate. Every variant
/// but `NoDecoration` carries the rendition of the decoration itself.
#[derive(Clone, Copy, Debug, PartialEq, Eq, Structural)]
pub enum DecorationStyle {
    Box(AttributeSet),
    Underline(AttributeSet),
    Overline(AttributeSet),
    UnderOverline(AttributeSet),
    BoxWithUnderline(AttributeSet),
    BoxWithOverline(AttributeSet),
    BoxWithUnderOverline(AttributeSet),
    NoDecoration,
}

/// A composite style: rendition attributes, four orthogonal semantic
/// flags, and a decoration. A value type: constructed, copied and
/// compared, never mutated.
#[derive(Clone, Copy, Debug, PartialEq, Eq, Structural)]
pub struct Style {
    pub ansi_term_style: AttributeSet,
    /// An emphasis marker for intra-line highlighting.
    pub is_emph: bool,
    /// The content this style stands for was elided.
    pub is_omitted: bool,
    /// The content is passed through; the attributes are irrelevant.
    pub is_raw: bool,
    /// The colour comes from a syntax highlighter, not a fixed choice.
    pub is_syntax_highlighted: bool,
    pub decoration_style: DecorationStyle,
}

/// The style with default attributes, no semantic flags and no
/// decoration.
pub open spec fn default_style() -> Style {
    Style {
        ansi_term_style: default_attributes(),
        is_emph: false,
        is_omitted: false,
        is_raw: false,
        is_syntax_highlighted: false,
        decoration_style: DecorationStyle::NoDecoration,
    }
}

/// Equivalence of two attribute records: every flag matches exactly and
/// the colours on each side are colour-equivalent. Weaker than equality:
/// a palette index below eight matches the correspondingly named colour.
pub open spec fn attrs_equivalent(a: AttributeSet, b: AttributeSet) -> bool {
    &&& a.is_bold == b.is_bold
    &&& a.is_dimmed == b.is_dimmed
    &&& a.is_italic == b.is_italic
    &&& a.is_underline == b.is_underline
    &&& a.is_blink == b.is_blink
    &&& a.is_reverse == b.is_reverse
    &&& a.is_hidden == b.is_hidden
    &&& a.is_strikethrough == b.is_strikethrough
    &&& color_equivalent(a.foreground, b.foreground)
    &&& color_equivalent(a.background, b.background)
}

/// Whether two attribute records are equivalent: flags exactly, colours
/// up to cross-encoding aliasing.
pub fn ansi_term_style_equality(a: AttributeSet, b: AttributeSet) -> (r: bool)
    ensures
        r == attrs_equivalent(a, b),
{
    let flags_equal = a.is_bold == b.is_bold && a.is_dimmed == b.is_dimmed && a.is_italic
        == b.is_italic && a.is_underline == b.is_underline && a.is_blink == b.is_blink
        && a.is_reverse == b.is_reverse && a.is_hidden == b.is_hidden && a.is_strikethrough
        == b.is_strikethrough;
    if !flags_equal {
        false
    } else {
        ansi_term_color_equality(a.foreground, b.foreground) && ansi_term_color_equality(
            a.background,
            b.background,
        )
    }
}

/// Equivalence of attribute records is symmetric, so an `is_applied_to`
/// check does not depend on which side carries the palette index and
/// which the named colour.
pub proof fn lemma_style_equivalence_symmetric(a: AttributeSet, b: AttributeSet)
    ensures
        attrs_equivalent(a, b) == attrs_equivalent(b, a),
{
}

/// The attribute record of the decoration, absent when there is none.
pub open spec fn decoration_attributes(d: DecorationStyle) -> Option<AttributeSet> {
    match d {
        DecorationStyle::Box(a) => Some(a),
        DecorationStyle::Underline(a) => Some(a),
        DecorationStyle::Overline(a) => Some(a),
        DecorationStyle::UnderOverline(a) => Some(a),
        DecorationStyle::BoxWithUnderline(a) => Some(a),
        DecorationStyle::BoxWithOverline(a) => Some(a),
        DecorationStyle::BoxWithUnderOverline(a) => Some(a),
        DecorationStyle::NoDecoration => None::<AttributeSet>,
    }
}

/// Whether the first style of `s` is equivalent to `style`'s attribute
/// record; false when `s` carries no style change.
pub open spec fn is_applied_to_spec(style: Style, s: Seq<char>) -> bool {
    match first_style_model(s) {
        Some(parsed) => attrs_equivalent(parsed, style.ansi_term_style),
        None => false,
    }
}

/// The space-joined word list describing a style, in its fixed order:
/// the flag words, then the foreground (or `syntax`, or `normal`), then
/// the background if present.
pub open spec fn description_words(style: Style) -> Seq<Seq<char>> {
    let ws = Seq::<Seq<char>>::empty();
    let ws = if style.is_omitted {
        ws.push("omit"@)
    } else {
        ws
    };
    let ws = if style.ansi_term_style.is_blink {
        ws.push("blink"@)
    } else {
        ws
    };
    let ws = if style.ansi_term_style.is_bold {
        ws.push("bold"@)
    } else {
        ws
    };
    let ws = if style.ansi_term_style.is_dimmed {
        ws.push("dim"@)
    } else {
        ws
    };
    let ws = if style.ansi_term_style.is_italic {
        ws.push("italic"@)
    } else {
        ws
    };
    let ws = if style.ansi_term_style.is_reverse {
        ws.push("reverse"@)
    } else {
        ws
    };
    let ws = if style.ansi_term_style.is_strikethrough {
        ws.push("strike"@)
    } else {
        ws
    };
    let ws = if style.ansi_term_style.is_underline {
        ws.push("ul"@)
    } else {
        ws
    };
    let ws = if style.is_syntax_highlighted {
        ws.push("syntax"@)
    } else {
        match style.ansi_term_style.foreground {
            Some(c) => ws.push(color_description(c)),
            None => ws.push("normal"@),
        }
    };
    match style.ansi_term_style.background {
        Some(c) => ws.push(color_description(c)),
        None => ws,
    }
}

/// Words joined by single spaces.
pub open spec fn join_words(ws: Seq<Seq<char>>) -> Seq<char>
    decreases ws.len(),
{
    if ws.len() == 0 {
        Seq::<char>::empty()
    } else if ws.len() == 1 {
        ws[0]
    } else {
        join_words(ws.drop_last()) + seq![' '] + ws.last()
    }
}

/// Joining after one more word appends a separator exactly when words
/// came before.
proof fn lemma_join_push(ws: Seq<Seq<char>>, w: Seq<char>)
    ensures
        join_words(ws.push(w)) == if ws.len() == 0 {
            w
        } else {
            join_words(ws) + seq![' '] + w
        },
{
    assert(ws.push(w).drop_last() =~= ws);
    assert(ws.push(w).last() == w);
    if ws.len() == 0 {
        assert(ws.push(w)[0] == w);
    }
}

/// The full human-readable description: the single word `raw` for a
/// pass-through style, otherwise the joined word list.
pub open spec fn description_spec(style: Style) -> Seq<char> {
    if style.is_raw {
        "raw"@
    } else {
        join_words(description_words(style))
    }
}

/// The description of a style is a function of its value alone: equal
/// styles always render to the same words in the same order.
pub proof fn lemma_description_deterministic(a: Style, b: Style)
    requires
        a == b,
    ensures
        description_spec(a) == description_spec(b),
{
}

/// Appends `w` to `out`, preceded by a space unless it is the first
/// word.
fn append_word(out: &mut String, first: &mut bool, w: &str)
    ensures
        final(out)@ == if *old(first) {
            old(out)@ + w@
        } else {
            old(out)@ + seq![' '] + w@
        },
        *final(first) == false,
{
    proof {
        reveal_strlit(" ");
        assert(" "@ =~= seq![' ']);
    }
    if *first {
        *first = false;
        out.append(w);
    } else {
        out.append(" ");
        out.append(w);
    }
}

impl Style {
    /// A style with no properties set.
    pub fn new() -> (r: Style)
        ensures
            r == default_style(),
    {
        Style {
            ansi_term_style: AttributeSet::new(),
            is_emph: false,
            is_omitted: false,
            is_raw: false,
            is_syntax_highlighted: false,
            decoration_style: DecorationStyle::NoDecoration,
        }
    }

    /// A plain style carrying just the given colours.
    pub fn from_colors(foreground: Option<Color>, background: Option<Color>) -> (r: Style)
        ensures
            r == (Style {
                ansi_term_style: AttributeSet { foreground, background, ..default_attributes() },
                ..default_style()
            }),
    {
        let mut attrs = AttributeSet::new();
        attrs.foreground = foreground;
        attrs.background = background;
        Style { ansi_term_style: attrs, ..Style::new() }
    }

    /// The background colour, except that a reverse-video style swaps in
    /// the foreground colour instead.
    pub fn get_background_color(&self) -> (r: Option<Color>)
        ensures
            r == if self.ansi_term_style.is_reverse {
                self.ansi_term_style.foreground
            } else {
                self.ansi_term_style.background
            },
    {
        if self.ansi_term_style.is_reverse {
            self.ansi_term_style.foreground
        } else {
            self.ansi_term_style.background
        }
    }

    /// The rendition of the decoration, absent when the style has none.
    pub fn decoration_ansi_term_style(&self) -> (r: Option<AttributeSet>)
        ensures
            r == decoration_attributes(self.decoration_style),
    {
        match self.decoration_style {
            DecorationStyle::Box(style) => Some(style),
            DecorationStyle::Underline(style) => Some(style),
            DecorationStyle::Overline(style) => Some(style),
            DecorationStyle::UnderOverline(style) => Some(style),
            DecorationStyle::BoxWithUnderline(style) => Some(style),
            DecorationStyle::BoxWithOverline(style) => Some(style),
            DecorationStyle::BoxWithUnderOverline(style) => Some(style),
            DecorationStyle::NoDecoration => None,
        }
    }

    /// Whether the first style change of `s` is equivalent to this
    /// style's attribute record; false when `s` has none.
    pub fn is_applied_to(&self, s: &str) -> (r: bool)
        ensures
            r == is_applied_to_spec(*self, s@),
    {
        match parse_first_style(s) {
            Some(parsed_style) => ansi_term_style_equality(parsed_style, self.ansi_term_style),
            None => false,
        }
    }

    /// The deterministic, space-joined word list describing this style.
    pub fn render_description(&self) -> (r: String)
        ensures
            r@ == description_spec(*self),
    {
        if self.is_raw {
            return "raw".to_owned();
        }
        let mut out = String::new();
        let mut first: bool = true;
        let ghost mut ws = Seq::<Seq<char>>::empty();
        if self.is_omitted {
            append_word(&mut out, &mut first, "omit");
            proof {
                lemma_join_push(ws, "omit"@);
                ws = ws.push("omit"@);
            }
        }
        if self.ansi_term_style.is_blink {
            append_word(&mut out, &mut first, "blink");
            proof {
                lemma_join_push(ws, "blink"@);
                ws = ws.push("blink"@);
            }
        }
        if self.ansi_term_style.is_bold {
            append_word(&mut out, &mut first, "bold");
            proof {
                lemma_join_push(ws, "bold"@);
                ws = ws.push("bold"@);
            }
        }
        if self.ansi_term_style.is_dimmed {
            append_word(&mut out, &mut first, "dim");
            proof {
                lemma_join_push(ws, "dim"@);
                ws = ws.push("dim"@);
            }
        }
        if self.ansi_term_style.is_italic {
            append_word(&mut out, &mut first, "italic");
            proof {
                lemma_join_push(ws, "italic"@);
                ws = ws.push("italic"@);
            }
        }
        if self.ansi_term_style.is_reverse {
            append_word(&mut out, &mut first, "reverse");
            proof {
                lemma_join_push(ws, "reverse"@);
                ws = ws.push("reverse"@);
            }
        }
        if self.ansi_term_style.is_strikethrough {
            append_word(&mut out, &mut first, "strike");
            proof {
                lemma_join_push(ws, "strike"@);
                ws = ws.push("strike"@);
            }
        }
        if self.ansi_term_style.is_underline {
            append_word(&mut out, &mut first, "ul");
            proof {
                lemma_join_push(ws, "ul"@);
                ws = ws.push("ul"@);
            }
        }
        if self.is_syntax_highlighted {
            append_word(&mut out, &mut first, "syntax");
            proof {
                lemma_join_push(ws, "syntax"@);
                ws = ws.push("syntax"@);
            }
        } else {
            match self.ansi_term_style.foreground {
                Some(color) => {
                    let word = color_to_string(color);
                    append_word(&mut out, &mut first, word.as_str());
                    proof {
                        lemma_join_push(ws, color_description(color));
                        ws = ws.push(color_description(color));
                    }
                },
                None => {
                    append_word(&mut out, &mut first, "normal");
                    proof {
                        lemma_join_push(ws, "normal"@);
                        ws = ws.push("normal"@);
                    }
                },
            }
        }
        if let Some(color) = self.ansi_term_style.background {
            let word = color_to_string(color);
            append_word(&mut out, &mut first, word.as_str());
            proof {
                lemma_join_push(ws, color_description(color));
                ws = ws.push(color_description(color));
            }
        }
        proof {
            assert(ws == description_words(*self));
        }
        out
    }
}

/// The fallback reference style of a removed line: a plain red
/// foreground, as an unconfigured diff emits it.
pub fn git_default_minus_style() -> (r: Style)
    ensures
        r == (Style {
            ansi_term_style: AttributeSet {
                foreground: Some(Color::Red),
                ..default_attributes()
            },
            ..default_style()
        }),
{
    Style::from_colors(Some(Color::Red), None)
}

/// The fallback reference style of an added line: a plain green
/// foreground, as an unconfigured diff emits it.
pub fn git_default_plus_style() -> (r: Style)
    ensures
        r == (Style {
            ansi_term_style: AttributeSet {
                foreground: Some(Color::Green),
                ..default_attributes()
            },
            ..default_style()
        }),
{
    Style::from_colors(Some(Color::Green), None)
}

/// Whether `line` opens with a style that none of the candidate styles
/// accounts for: false when the line does not begin with an escape
/// sequence, false when its first style is equivalent to some candidate,
/// true otherwise.
pub open spec fn line_has_style_other_than_spec(line: Seq<char>, styles: Seq<Style>) -> bool {
    starts_with_escape(line) && !(exists|i: int|
        0 <= i < styles.len() && is_applied_to_spec(styles[i], line))
}

/// Detects externally applied colouring that none of the given styles
/// accounts for.
pub fn line_has_style_other_than(line: &str, styles: &Vec<Style>) -> (r: bool)
    ensures
        r == line_has_style_other_than_spec(line@, styles@),
{
    if !string_starts_with_ansi_escape_sequence(line) {
        return false;
    }
    let mut i: usize = 0;
    while i < styles.len()
        invariant
            0 <= i <= styles@.len(),
            starts_with_escape(line@),
            forall|j: int| 0 <= j < i ==> !is_applied_to_spec(styles@[j], line@),
        decreases styles@.len() - i,
    {
        if styles[i].is_applied_to(line) {
            return false;
        }
        i = i + 1;
    }
    true
}

/// A line that does not begin with an escape sequence — the empty line
/// among them — is never flagged, whatever the candidate styles.
pub proof fn lemma_unstyled_line_never_flagged(line: Seq<char>, styles: Seq<Style>)
    requires
        !starts_with_escape(line),
    ensures
        !line_has_style_other_than_spec(line, styles),
{
}

/// Against an empty candidate set, a line is flagged exactly when it
/// begins with an escape sequence.
pub proof fn lemma_no_candidates_flags_escapes(line: Seq<char>)
    ensures
        line_has_style_other_than_spec(line, Seq::<Style>::empty()) == starts_with_escape(line),
{
}

} // verus!

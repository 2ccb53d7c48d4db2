//! The element iterator: turns a string with embedded escape sequences
//! into alternating runs of plain text and style-change events.

use vstd::prelude::*;

use crate::machine::machine_init;
use crate::machine::machine_wf;
use crate::machine::step_spec;
use crate::machine::Machine;
use crate::machine::MachineModel;
use crate::machine::ScanOutput;
use crate::sgr::AttributeSet;
use crate::strutil::push_char;

verus! {

/// One element of a scanned string: a run of plain text, or the
/// attribute record announced by a style-change sequence.
#[derive(Clone, Debug, PartialEq)]
pub enum Element {
    Text(String),
    Style(AttributeSet),
}

/// The mathematical value of an element.
pub ghost enum ElementModel {
    Text(Seq<char>),
    Style(AttributeSet),
}

/// The mathematical value of an element as produced by the iterator.
pub open spec fn elem_view(e: Element) -> ElementModel {
    match e {
        Element::Text(t) => ElementModel::Text(t@),
        Element::Style(a) => ElementModel::Style(a),
    }
}

/// The mathematical value of one iterator result.
pub open spec fn result_view(r: Option<(Element, bool)>) -> Option<(ElementModel, bool)> {
    match r {
        Some((e, b)) => Some((elem_view(e), b)),
        None => None,
    }
}

/// A found style change shifted by `k` already-consumed characters.
pub open spec fn shift_found(f: Option<(AttributeSet, int)>, k: int) -> Option<
    (AttributeSet, int),
> {
    match f {
        Some(af) => Some((af.0, af.1 + k)),
        None => None,
    }
}

/// Runs the recogniser from value `m` over `cs` up to the first style
/// change. The result is the sequence of characters printed on the way,
/// and, if a style change appears, its attribute record together with
/// the count of characters consumed up to and including the one that
/// completed it.
pub open spec fn scan_until_style(m: MachineModel, cs: Seq<char>) -> (Seq<char>, Option<
    (AttributeSet, int),
>)
    decreases cs.len(),
{
    if cs.len() == 0 {
        (Seq::<char>::empty(), None::<(AttributeSet, int)>)
    } else {
        let (m2, out) = step_spec(m, cs[0]);
        match out {
            ScanOutput::StyleChange(a) => (Seq::<char>::empty(), Some((a, 1int))),
            ScanOutput::Print(c) => {
                let (p, f) = scan_until_style(m2, cs.skip(1));
                (seq![c] + p, shift_found(f, 1))
            },
            ScanOutput::Nothing => {
                let (p, f) = scan_until_style(m2, cs.skip(1));
                (p, shift_found(f, 1))
            },
        }
    }
}

/// The mathematical value of an element iterator.
pub ghost struct IterModel {
    /// The characters of the whole input string.
    pub input: Seq<char>,
    /// How many characters have been consumed.
    pub pos: int,
    /// Printable characters seen but not yet surfaced as a text element.
    pub text: Seq<char>,
    /// A style change seen but not yet surfaced, held back while the
    /// text before it is surfaced first.
    pub pending: Option<AttributeSet>,
}

/// The consumed prefix never exceeds the input.
pub open spec fn iter_wf(it: IterModel) -> bool {
    0 <= it.pos <= it.input.len()
}

/// A fresh iterator over `input`.
pub open spec fn iter_init(input: Seq<char>) -> IterModel {
    IterModel { input, pos: 0, text: Seq::<char>::empty(), pending: None::<AttributeSet> }
}

/// What one call of `next` yields, and the iterator it leaves behind.
///
/// A pending style change is surfaced first. Otherwise the remaining
/// input is scanned to the next style change: text gathered on the way
/// is surfaced before the style change itself, and once the input is
/// exhausted, a final non-empty text run is surfaced before the end.
pub open spec fn next_model(it: IterModel) -> (IterModel, Option<(ElementModel, bool)>) {
    match it.pending {
        Some(a) => (
            IterModel { pending: None::<AttributeSet>, ..it },
            Some((ElementModel::Style(a), true)),
        ),
        None => {
            let rest = it.input.skip(it.pos);
            let (prints, found) = scan_until_style(machine_init(), rest);
            let run = it.text + prints;
            match found {
                Some(af) => if run.len() > 0 {
                    (
                        IterModel {
                            pos: it.pos + af.1,
                            text: Seq::<char>::empty(),
                            pending: Some(af.0),
                            ..it
                        },
                        Some((ElementModel::Text(run), false)),
                    )
                } else {
                    (
                        IterModel {
                            pos: it.pos + af.1,
                            text: Seq::<char>::empty(),
                            pending: None::<AttributeSet>,
                            ..it
                        },
                        Some((ElementModel::Style(af.0), true)),
                    )
                },
                None => if run.len() > 0 {
                    (
                        IterModel {
                            pos: it.input.len() as int,
                            text: Seq::<char>::empty(),
                            pending: None::<AttributeSet>,
                            ..it
                        },
                        Some((ElementModel::Text(run), false)),
                    )
                } else {
                    (
                        IterModel {
                            pos: it.input.len() as int,
                            text: Seq::<char>::empty(),
                            pending: None::<AttributeSet>,
                            ..it
                        },
                        None::<(ElementModel, bool)>,
                    )
                },
            }
        },
    }
}

/// A one-shot forward iterator over the elements of a string: runs of
/// plain text alternating with style-change markers, each paired with a
/// flag that is true exactly on the style changes.
pub struct AnsiCodeIterator<'a> {
    s: &'a str,
    pos: usize,
    text: String,
    pending: Option<AttributeSet>,
}

impl<'a> View for AnsiCodeIterator<'a> {
    type V = IterModel;

    closed spec fn view(&self) -> IterModel {
        IterModel {
            input: self.s@,
            pos: self.pos as int,
            text: self.text@,
            pending: self.pending,
        }
    }
}

impl<'a> AnsiCodeIterator<'a> {
    /// A fresh iterator over `s`.
    pub fn new(s: &'a str) -> (it: AnsiCodeIterator<'a>)
        ensures
            it@ == iter_init(s@),
            iter_wf(it@),
    {
        let it = AnsiCodeIterator { s, pos: 0, text: String::new(), pending: None };
        proof {
            assert(it@ =~= iter_init(s@));
        }
        it
    }

    /// The next element, or nothing once the input is exhausted and all
    /// buffered text has been surfaced.
    pub fn next(&mut self) -> (r: Option<(Element, bool)>)
        requires
            iter_wf(old(self)@),
        ensures
            iter_wf(final(self)@),
            final(self)@ == next_model(old(self)@).0,
            result_view(r) == next_model(old(self)@).1,
    {
        if let Some(style) = self.pending {
            self.pending = None;
            return Some((Element::Style(style), true));
        }
        let ghost input = self@.input;
        let ghost pos0 = self@.pos;
        let ghost text0 = self@.text;
        let len = self.s.unicode_len();
        let mut machine = Machine::new();
        let ghost mut done = Seq::<char>::empty();
        proof {
            assert(self@.text =~= text0 + done);
        }
        while self.pos < len
            invariant
                old(self)@.input == input,
                old(self)@.pos == pos0,
                old(self)@.text == text0,
                old(self)@.pending is None,
                self@.input == input,
                len == input.len(),
                0 <= pos0 <= self@.pos <= len,
                self.pending is None,
                machine_wf(machine@),
                self@.text == text0 + done,
                scan_until_style(machine_init(), input.skip(pos0)).0 == done + scan_until_style(
                    machine@,
                    input.skip(self@.pos),
                ).0,
                scan_until_style(machine_init(), input.skip(pos0)).1 == shift_found(
                    scan_until_style(machine@, input.skip(self@.pos)).1,
                    self@.pos - pos0,
                ),
            decreases len - self.pos,
        {
            let ghost pos_before = self@.pos;
            let ghost m_before = machine@;
            let ghost rest = input.skip(pos_before);
            proof {
                assert(rest.len() == len - pos_before);
                assert(rest[0] == input[pos_before]);
                assert(rest.skip(1) =~= input.skip(pos_before + 1));
            }
            let c = self.s.get_char(self.pos);
            let out = machine.step(c);
            self.pos = self.pos + 1;
            match out {
                ScanOutput::Print(ch) => {
                    push_char(&mut self.text, ch);
                    proof {
                        done = done.push(ch);
                        assert(self@.text =~= text0 + done);
                        assert(done + scan_until_style(machine@, input.skip(self@.pos)).0 =~= (done
                            .drop_last() + (seq![ch] + scan_until_style(
                            machine@,
                            input.skip(self@.pos),
                        ).0)));
                    }
                },
                ScanOutput::StyleChange(a) => {
                    proof {
                        assert(scan_until_style(m_before, rest).1 == Some((a, 1int)));
                        assert(scan_until_style(machine_init(), input.skip(pos0)).1 == Some(
                            (a, self@.pos - pos0),
                        ));
                        assert(scan_until_style(machine_init(), input.skip(pos0)).0 == done + Seq::<
                            char,
                        >::empty());
                        assert(done + Seq::<char>::empty() =~= done);
                    }
                    if !self.text.as_str().is_empty() {
                        let text = self.text.clone();
                        self.text = String::new();
                        self.pending = Some(a);
                        return Some((Element::Text(text), false));
                    }
                    return Some((Element::Style(a), true));
                },
                ScanOutput::Nothing => {},
            }
        }
        proof {
            assert(input.skip(self@.pos).len() == 0);
            assert(scan_until_style(machine@, input.skip(self@.pos)).0 =~= Seq::<char>::empty());
            assert(scan_until_style(machine_init(), input.skip(pos0)).0 == done + Seq::<
                char,
            >::empty());
            assert(done + Seq::<char>::empty() =~= done);
        }
        if !self.text.as_str().is_empty() {
            let text = self.text.clone();
            self.text = String::new();
            return Some((Element::Text(text), false));
        }
        None
    }
}

/// The first style change of a string, if one is completed strictly
/// before the input runs out.
pub open spec fn first_style_model(s: Seq<char>) -> Option<AttributeSet> {
    match scan_until_style(machine_init(), s).1 {
        Some(af) => if af.1 < s.len() {
            Some(af.0)
        } else {
            None::<AttributeSet>
        },
        None => None::<AttributeSet>,
    }
}

/// Scans `s` only until its first style change and returns that
/// attribute record, ignoring all text before it; absent when no SGR
/// dispatch is completed before the last character.
pub fn parse_first_style(s: &str) -> (r: Option<AttributeSet>)
    ensures
        r == first_style_model(s@),
{
    let len = s.unicode_len();
    let mut machine = Machine::new();
    let mut i: usize = 0;
    proof {
        assert(s@.skip(0) =~= s@);
        let f = scan_until_style(machine_init(), s@).1;
        assert(shift_found(f, 0) == f) by {
            match f {
                Some(af) => {
                    assert(Some((af.0, af.1 + 0)) =~= Some(af));
                },
                None => {},
            }
        };
    }
    while i < len
        invariant
            len == s@.len(),
            0 <= i <= len,
            machine_wf(machine@),
            scan_until_style(machine_init(), s@).1 == shift_found(
                scan_until_style(machine@, s@.skip(i as int)).1,
                i as int,
            ),
        decreases len - i,
    {
        let ghost i_before = i as int;
        let ghost m_before = machine@;
        let ghost rest = s@.skip(i_before);
        proof {
            assert(rest[0] == s@[i_before]);
            assert(rest.skip(1) =~= s@.skip(i_before + 1));
        }
        let c = s.get_char(i);
        let out = machine.step(c);
        i = i + 1;
        if let ScanOutput::StyleChange(a) = out {
            proof {
                assert(scan_until_style(m_before, rest).1 == Some((a, 1int)));
                assert(scan_until_style(machine_init(), s@).1 == Some((a, i as int)));
            }
            if i < len {
                return Some(a);
            } else {
                return None;
            }
        }
    }
    None
}

/// Whether a string begins with the escape character that introduces
/// every ANSI escape sequence.
pub fn string_starts_with_ansi_escape_sequence(s: &str) -> (r: bool)
    ensures
        r == starts_with_escape(s@),
{
    if s.unicode_len() == 0 {
        false
    } else {
        s.get_char(0) as u32 == 0x1B
    }
}

/// Whether a character sequence begins with the escape character.
pub open spec fn starts_with_escape(s: Seq<char>) -> bool {
    s.len() > 0 && s[0] as u32 == 0x1B
}

/// A character that is displayed as itself: neither an escape nor any
/// other control character.
pub open spec fn plain_char(c: char) -> bool {
    c as u32 >= 0x20
}

/// Scanning a string of plain characters finds no style change and
/// reports every character as text.
pub proof fn lemma_plain_text_scan(cs: Seq<char>)
    requires
        forall|i: int| 0 <= i < cs.len() ==> plain_char(cs[i]),
    ensures
        scan_until_style(machine_init(), cs) == (cs, None::<(AttributeSet, int)>),
    decreases cs.len(),
{
    if cs.len() == 0 {
        assert(cs =~= Seq::<char>::empty());
    } else {
        let (m2, out) = step_spec(machine_init(), cs[0]);
        assert(m2 == machine_init());
        assert(out == ScanOutput::Print(cs[0]));
        assert(forall|i: int| 0 <= i < cs.skip(1).len() ==> plain_char(#[trigger] cs.skip(1)[i]));
        lemma_plain_text_scan(cs.skip(1));
        assert(seq![cs[0]] + cs.skip(1) =~= cs);
    }
}

/// A non-empty string with no escape sequences — every character plain —
/// yields exactly one element: the whole string as a single text run,
/// with no style change before or after it.
pub proof fn lemma_plain_text_single_run(s: Seq<char>)
    requires
        s.len() > 0,
        forall|i: int| 0 <= i < s.len() ==> plain_char(s[i]),
    ensures
        ({
            let (it1, e1) = next_model(iter_init(s));
            e1 == Some((ElementModel::Text(s), false)) && next_model(it1).1 is None
        }),
{
    lemma_plain_text_scan(s);
    let it0 = iter_init(s);
    assert(s.skip(0) =~= s);
    assert(it0.text + s =~= s);
    let it1 = next_model(it0).0;
    assert(s.skip(s.len() as int) =~= Seq::<char>::empty());
    assert(it1.text + scan_until_style(machine_init(), s.skip(it1.pos)).0 =~= Seq::<char>::empty());
}

/// Text runs are always coalesced: a call that yields a text element is
/// never followed by another text element — the next call yields a style
/// change or nothing.
pub proof fn lemma_text_runs_coalesced(it: IterModel)
    requires
        iter_wf(it),
        next_model(it).1 matches Some((ElementModel::Text(t), b)),
    ensures
        next_model(next_model(it).0).1 is None || (next_model(next_model(it).0).1 matches Some(
            (ElementModel::Style(a), bb),
        )),
{
    let it1 = next_model(it).0;
    match it.pending {
        Some(a) => {
            assert(false);
        },
        None => {
            let rest = it.input.skip(it.pos);
            let (prints, found) = scan_until_style(machine_init(), rest);
            match found {
                Some(af) => {
                    assert(it1.pending == Some(af.0));
                },
                None => {
                    assert(it1.pos == it.input.len());
                    assert(it1.text =~= Seq::<char>::empty());
                    assert(it.input.skip(it.input.len() as int) =~= Seq::<char>::empty());
                },
            }
        },
    }
}

} // verus!

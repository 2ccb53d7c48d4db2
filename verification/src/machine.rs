//! The escape-sequence recogniser: a character-driven state machine for
//! the control-sequence grammar of ANSI X3.64 / ECMA-48 terminals.
//!
//! Printable characters are reported for display and a complete
//! `m`-terminated control sequence (SGR) is reported as a style change;
//! every other recognised category — escape dispatches, other control
//! sequences, operating-system commands, device-control and SOS/PM/APC
//! strings, and single control bytes — is consumed without effect.
//!
//! Input arrives as characters of a Rust string, so it is always well
//! formed UTF-8. The payload of an operating-system command, a
//! device-control string or a SOS/PM/APC string is consumed per character
//! and ends at `ESC \`, at CAN or SUB, or — for an operating-system
//! command — at BEL.

use vstd::prelude::*;

use crate::sgr::ansi_term_style_from_sgr_parameters;
use crate::sgr::sgr_interpret;
use crate::sgr::AttributeSet;

verus! {

/// The recogniser's control state.
#[derive(Clone, Copy, Debug, PartialEq, Eq, Structural)]
pub enum VtState {
    /// Plain text; printable characters are displayed.
    Ground,
    /// After ESC.
    Escape,
    /// After ESC and at least one intermediate byte.
    EscapeIntermediate,
    /// After CSI (`ESC [`), before any parameter byte.
    CsiEntry,
    /// Inside the parameter list of a control sequence.
    CsiParam,
    /// After an intermediate byte inside a control sequence.
    CsiIntermediate,
    /// Inside a malformed control sequence, consumed until its final byte.
    CsiIgnore,
    /// Inside an operating-system command (`ESC ]`), consumed until BEL
    /// or a string terminator.
    OscString,
    /// Inside a device-control or SOS/PM/APC string, consumed until a
    /// string terminator.
    OpaqueString,
}

/// What one step of the recogniser makes observable.
#[derive(Clone, Copy, Debug, PartialEq, Eq)]
pub enum ScanOutput {
    /// No observable effect.
    Nothing,
    /// A printable character to display.
    Print(char),
    /// A complete SGR dispatch, already interpreted.
    StyleChange(AttributeSet),
}

/// The mathematical value of a recogniser.
pub ghost struct MachineModel {
    pub state: VtState,
    /// The parameters completed so far in the current control sequence.
    pub params: Seq<i64>,
    /// The parameter currently being accumulated from digits.
    pub param: i64,
    /// Whether any digit of the current parameter has been seen.
    pub collecting: bool,
    /// Whether the current sequence carries an intermediate or private
    /// marker byte; such a sequence is never interpreted as SGR.
    pub has_intermediates: bool,
}

/// A recogniser for one pass over a string.
pub struct Machine {
    state: VtState,
    params: Vec<i64>,
    param: i64,
    collecting: bool,
    has_intermediates: bool,
}

impl View for Machine {
    type V = MachineModel;

    closed spec fn view(&self) -> MachineModel {
        MachineModel {
            state: self.state,
            params: self.params@,
            param: self.param,
            collecting: self.collecting,
            has_intermediates: self.has_intermediates,
        }
    }
}

/// An accumulated parameter is never negative.
pub open spec fn machine_wf(m: MachineModel) -> bool {
    m.param >= 0
}

/// The recogniser's starting value: ground state, nothing collected.
pub open spec fn machine_init() -> MachineModel {
    MachineModel {
        state: VtState::Ground,
        params: Seq::empty(),
        param: 0,
        collecting: false,
        has_intermediates: false,
    }
}

/// The value on entering a new escape or control sequence: everything
/// collected for the previous sequence is discarded.
pub open spec fn clear_spec(s: VtState) -> MachineModel {
    MachineModel {
        state: s,
        params: Seq::empty(),
        param: 0,
        collecting: false,
        has_intermediates: false,
    }
}

/// One decimal digit appended to an accumulating parameter, saturating at
/// the largest representable value.
pub open spec fn sat_mul10_add(p: i64, d: i64) -> i64 {
    let q = if p > i64::MAX / 10 {
        i64::MAX
    } else {
        (p * 10) as i64
    };
    if q > i64::MAX - d {
        i64::MAX
    } else {
        (q + d) as i64
    }
}

/// The recogniser after a digit byte of a parameter.
pub open spec fn digit_spec(m: MachineModel, c: char) -> MachineModel {
    MachineModel {
        state: VtState::CsiParam,
        param: sat_mul10_add(m.param, (c as u32 - 0x30) as i64),
        collecting: true,
        ..m
    }
}

/// The recogniser after a parameter separator. The parameter list is
/// capped at sixteen entries; once fifteen are completed, further
/// separators are ignored.
pub open spec fn semicolon_spec(m: MachineModel) -> MachineModel {
    if m.params.len() == 15 {
        MachineModel { state: VtState::CsiParam, ..m }
    } else {
        MachineModel {
            state: VtState::CsiParam,
            params: m.params.push(m.param),
            param: 0,
            collecting: false,
            ..m
        }
    }
}

/// The full parameter list handed to a dispatch: the completed parameters
/// plus the one still accumulating, if any digit of it was seen.
pub open spec fn dispatch_params(m: MachineModel) -> Seq<i64> {
    if m.collecting {
        m.params.push(m.param)
    } else {
        m.params
    }
}

/// The recogniser and output at the final byte of a control sequence: an
/// `m` without intermediates is interpreted as SGR; every other final
/// byte is a no-op.
pub open spec fn dispatch_spec(m: MachineModel, c: char) -> (MachineModel, ScanOutput) {
    let out = if !m.has_intermediates && c == 'm' {
        ScanOutput::StyleChange(sgr_interpret(dispatch_params(m)))
    } else {
        ScanOutput::Nothing
    };
    (
        MachineModel {
            state: VtState::Ground,
            params: Seq::empty(),
            param: 0,
            collecting: false,
            has_intermediates: m.has_intermediates,
        },
        out,
    )
}

/// One step of the recogniser on one character.
pub open spec fn step_spec(m: MachineModel, c: char) -> (MachineModel, ScanOutput) {
    let cp = c as u32;
    if cp == 0x18 || cp == 0x1A {
        // CAN and SUB abort any sequence from any state.
        (MachineModel { state: VtState::Ground, ..m }, ScanOutput::Nothing)
    } else if cp == 0x1B {
        // ESC starts a fresh sequence from any state.
        (clear_spec(VtState::Escape), ScanOutput::Nothing)
    } else {
        match m.state {
            VtState::Ground => if cp >= 0x20 {
                (m, ScanOutput::Print(c))
            } else {
                (m, ScanOutput::Nothing)
            },
            VtState::Escape => if cp == 0x5B {
                (clear_spec(VtState::CsiEntry), ScanOutput::Nothing)
            } else if cp == 0x5D {
                (MachineModel { state: VtState::OscString, ..m }, ScanOutput::Nothing)
            } else if cp == 0x50 {
                (clear_spec(VtState::OpaqueString), ScanOutput::Nothing)
            } else if cp == 0x58 || cp == 0x5E || cp == 0x5F {
                (MachineModel { state: VtState::OpaqueString, ..m }, ScanOutput::Nothing)
            } else if 0x20 <= cp && cp <= 0x2F {
                (
                    MachineModel {
                        state: VtState::EscapeIntermediate,
                        has_intermediates: true,
                        ..m
                    },
                    ScanOutput::Nothing,
                )
            } else if 0x30 <= cp && cp <= 0x7E {
                (MachineModel { state: VtState::Ground, ..m }, ScanOutput::Nothing)
            } else {
                (m, ScanOutput::Nothing)
            },
            VtState::EscapeIntermediate => if 0x20 <= cp && cp <= 0x2F {
                (MachineModel { has_intermediates: true, ..m }, ScanOutput::Nothing)
            } else if 0x30 <= cp && cp <= 0x7E {
                (MachineModel { state: VtState::Ground, ..m }, ScanOutput::Nothing)
            } else {
                (m, ScanOutput::Nothing)
            },
            VtState::CsiEntry => if 0x30 <= cp && cp <= 0x39 {
                (digit_spec(m, c), ScanOutput::Nothing)
            } else if cp == 0x3B {
                (semicolon_spec(m), ScanOutput::Nothing)
            } else if cp == 0x3A {
                (MachineModel { state: VtState::CsiIgnore, ..m }, ScanOutput::Nothing)
            } else if 0x3C <= cp && cp <= 0x3F {
                (
                    MachineModel { state: VtState::CsiParam, has_intermediates: true, ..m },
                    ScanOutput::Nothing,
                )
            } else if 0x20 <= cp && cp <= 0x2F {
                (
                    MachineModel {
                        state: VtState::CsiIntermediate,
                        has_intermediates: true,
                        ..m
                    },
                    ScanOutput::Nothing,
                )
            } else if 0x40 <= cp && cp <= 0x7E {
                dispatch_spec(m, c)
            } else {
                (m, ScanOutput::Nothing)
            },
            VtState::CsiParam => if 0x30 <= cp && cp <= 0x39 {
                (digit_spec(m, c), ScanOutput::Nothing)
            } else if cp == 0x3B {
                (semicolon_spec(m), ScanOutput::Nothing)
            } else if cp == 0x3A || (0x3C <= cp && cp <= 0x3F) {
                (MachineModel { state: VtState::CsiIgnore, ..m }, ScanOutput::Nothing)
            } else if 0x20 <= cp && cp <= 0x2F {
                (
                    MachineModel {
                        state: VtState::CsiIntermediate,
                        has_intermediates: true,
                        ..m
                    },
                    ScanOutput::Nothing,
                )
            } else if 0x40 <= cp && cp <= 0x7E {
                dispatch_spec(m, c)
            } else {
                (m, ScanOutput::Nothing)
            },
            VtState::CsiIntermediate => if 0x20 <= cp && cp <= 0x2F {
                (MachineModel { has_intermediates: true, ..m }, ScanOutput::Nothing)
            } else if 0x30 <= cp && cp <= 0x3F {
                (MachineModel { state: VtState::CsiIgnore, ..m }, ScanOutput::Nothing)
            } else if 0x40 <= cp && cp <= 0x7E {
                dispatch_spec(m, c)
            } else {
                (m, ScanOutput::Nothing)
            },
            VtState::CsiIgnore => if 0x40 <= cp && cp <= 0x7E {
                (MachineModel { state: VtState::Ground, ..m }, ScanOutput::Nothing)
            } else {
                (m, ScanOutput::Nothing)
            },
            VtState::OscString => if cp == 0x07 {
                (MachineModel { state: VtState::Ground, ..m }, ScanOutput::Nothing)
            } else {
                (m, ScanOutput::Nothing)
            },
            VtState::OpaqueString => (m, ScanOutput::Nothing),
        }
    }
}

/// A step never drives the accumulated parameter negative.
pub proof fn lemma_step_preserves_wf(m: MachineModel, c: char)
    requires
        machine_wf(m),
    ensures
        machine_wf(step_spec(m, c).0),
{
}

impl Machine {
    /// A fresh recogniser in the ground state.
    pub fn new() -> (m: Machine)
        ensures
            m@ == machine_init(),
    {
        Machine {
            state: VtState::Ground,
            params: Vec::new(),
            param: 0,
            collecting: false,
            has_intermediates: false,
        }
    }

    /// Discards everything collected and enters state `s`.
    fn enter_clear(&mut self, s: VtState)
        ensures
            final(self)@ == clear_spec(s),
    {
        self.state = s;
        self.params = Vec::new();
        self.param = 0;
        self.collecting = false;
        self.has_intermediates = false;
    }

    /// Appends one digit to the accumulating parameter.
    fn push_digit(&mut self, c: char)
        requires
            old(self)@.param >= 0,
            0x30 <= c as u32 && c as u32 <= 0x39,
        ensures
            final(self)@ == digit_spec(old(self)@, c),
    {
        let d = (c as u32 - 0x30) as i64;
        let q = if self.param > i64::MAX / 10 {
            i64::MAX
        } else {
            self.param * 10
        };
        self.param = if q > i64::MAX - d {
            i64::MAX
        } else {
            q + d
        };
        self.collecting = true;
        self.state = VtState::CsiParam;
    }

    /// Completes the accumulating parameter at a separator.
    fn push_separator(&mut self)
        ensures
            final(self)@ == semicolon_spec(old(self)@),
    {
        self.state = VtState::CsiParam;
        if self.params.len() != 15 {
            self.params.push(self.param);
            self.param = 0;
            self.collecting = false;
        }
    }

    /// Handles the final byte of a control sequence.
    fn dispatch(&mut self, c: char) -> (out: ScanOutput)
        ensures
            final(self)@ == dispatch_spec(old(self)@, c).0,
            out == dispatch_spec(old(self)@, c).1,
    {
        if self.collecting {
            self.params.push(self.param);
        }
        let out = if !self.has_intermediates && c == 'm' {
            ScanOutput::StyleChange(ansi_term_style_from_sgr_parameters(&self.params))
        } else {
            ScanOutput::Nothing
        };
        self.state = VtState::Ground;
        self.params = Vec::new();
        self.param = 0;
        self.collecting = false;
        out
    }

    /// Feeds one character to the recogniser and reports what, if
    /// anything, it makes observable.
    pub fn step(&mut self, c: char) -> (out: ScanOutput)
        requires
            machine_wf(old(self)@),
        ensures
            final(self)@ == step_spec(old(self)@, c).0,
            out == step_spec(old(self)@, c).1,
            machine_wf(final(self)@),
    {
        proof {
            lemma_step_preserves_wf(old(self)@, c);
        }
        let cp = c as u32;
        if cp == 0x18 || cp == 0x1A {
            self.state = VtState::Ground;
            ScanOutput::Nothing
        } else if cp == 0x1B {
            self.enter_clear(VtState::Escape);
            ScanOutput::Nothing
        } else {
            match self.state {
                VtState::Ground => if cp >= 0x20 {
                    ScanOutput::Print(c)
                } else {
                    ScanOutput::Nothing
                },
                VtState::Escape => {
                    if cp == 0x5B {
                        self.enter_clear(VtState::CsiEntry);
                    } else if cp == 0x5D {
                        self.state = VtState::OscString;
                    } else if cp == 0x50 {
                        self.enter_clear(VtState::OpaqueString);
                    } else if cp == 0x58 || cp == 0x5E || cp == 0x5F {
                        self.state = VtState::OpaqueString;
                    } else if 0x20 <= cp && cp <= 0x2F {
                        self.state = VtState::EscapeIntermediate;
                        self.has_intermediates = true;
                    } else if 0x30 <= cp && cp <= 0x7E {
                        self.state = VtState::Ground;
                    }
                    ScanOutput::Nothing
                },
                VtState::EscapeIntermediate => {
                    if 0x20 <= cp && cp <= 0x2F {
                        self.has_intermediates = true;
                    } else if 0x30 <= cp && cp <= 0x7E {
                        self.state = VtState::Ground;
                    }
                    ScanOutput::Nothing
                },
                VtState::CsiEntry => if 0x30 <= cp && cp <= 0x39 {
                    self.push_digit(c);
                    ScanOutput::Nothing
                } else if cp == 0x3B {
                    self.push_separator();
                    ScanOutput::Nothing
                } else if cp == 0x3A {
                    self.state = VtState::CsiIgnore;
                    ScanOutput::Nothing
                } else if 0x3C <= cp && cp <= 0x3F {
                    self.state = VtState::CsiParam;
                    self.has_intermediates = true;
                    ScanOutput::Nothing
                } else if 0x20 <= cp && cp <= 0x2F {
                    self.state = VtState::CsiIntermediate;
                    self.has_intermediates = true;
                    ScanOutput::Nothing
                } else if 0x40 <= cp && cp <= 0x7E {
                    self.dispatch(c)
                } else {
                    ScanOutput::Nothing
                },
                VtState::CsiParam => if 0x30 <= cp && cp <= 0x39 {
                    self.push_digit(c);
                    ScanOutput::Nothing
                } else if cp == 0x3B {
                    self.push_separator();
                    ScanOutput::Nothing
                } else if cp == 0x3A || (0x3C <= cp && cp <= 0x3F) {
                    self.state = VtState::CsiIgnore;
                    ScanOutput::Nothing
                } else if 0x20 <= cp && cp <= 0x2F {
                    self.state = VtState::CsiIntermediate;
                    self.has_intermediates = true;
                    ScanOutput::Nothing
                } else if 0x40 <= cp && cp <= 0x7E {
                    self.dispatch(c)
                } else {
                    ScanOutput::Nothing
                },
                VtState::CsiIntermediate => if 0x20 <= cp && cp <= 0x2F {
                    self.has_intermediates = true;
                    ScanOutput::Nothing
                } else if 0x30 <= cp && cp <= 0x3F {
                    self.state = VtState::CsiIgnore;
                    ScanOutput::Nothing
                } else if 0x40 <= cp && cp <= 0x7E {
                    self.dispatch(c)
                } else {
                    ScanOutput::Nothing
                },
                VtState::CsiIgnore => {
                    if 0x40 <= cp && cp <= 0x7E {
                        self.state = VtState::Ground;
                    }
                    ScanOutput::Nothing
                },
                VtState::OscString => {
                    if cp == 0x07 {
                        self.state = VtState::Ground;
                    }
                    ScanOutput::Nothing
                },
                VtState::OpaqueString => ScanOutput::Nothing,
            }
        }
    }
}

} // verus!

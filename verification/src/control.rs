//! The controller application: a BeatStep that edits the program of a
//! DW-6000. This module holds its decisions. Each function takes what has
//! arrived and says how the state changes and what is to be done; sending,
//! timing and the oscillator itself are left to the caller.

use vstd::prelude::*;
use vstd::slice::slice_subrange;
use vstd::std_specs::convert::FromSpecImpl;
use crate::bounded::{U4, U7};
use crate::channel::MidiChannel;
use crate::devices::dw6000::{
    data_header, get_param_value, param_set_sysex, set_param_value, Dw6Param,
};
use crate::buffer::{bytes_as_slice, fields_as_slice, fields_new, sysex_bytes};
use crate::capture::{capture_buffer, capture_result, capture_sysex, SysexCapture};
use crate::devices::dw6000::dump_matcher;
use crate::error::MidiError;
use crate::lfo::Waveform;
use crate::message::{program_change, Control, MidiMessage, Note};
use crate::packet::Packet;
use crate::saved::{saved_insert, saved_remove, SavedValues};
use crate::sysex::{capture_count, pattern_match, walk, SysexSeq};

verus! {

/// `num::Integer::div_rem` on bytes: the quotient and the remainder of the
/// division, which must not be by zero.
#[verifier::external_body]
pub(crate) fn div_rem(a: u8, b: u8) -> (r: (u8, u8))
    requires
        b != 0,
    ensures
        r.0 == a / b,
        r.1 == a % b,
{
    num::Integer::div_rem(&a, &b)
}

/// The page of parameters that the knobs edit.
#[derive(Copy, Clone, Debug, Eq, PartialEq, Structural)]
pub enum KnobPage {
    Osc,
    Env,
    Mod,
    Arp,
}

impl KnobPage {
    /// The number that stands for the value.
    pub open spec fn spec_code(&self) -> u8 {
        match self {
            KnobPage::Osc => 0,
            KnobPage::Env => 1,
            KnobPage::Mod => 2,
            KnobPage::Arp => 3,
        }
    }

    /// The value that `code` stands for, if it stands for one.
    pub open spec fn of_code(code: u8) -> Option<KnobPage> {
        match code {
            0 => Some(KnobPage::Osc),
            1 => Some(KnobPage::Env),
            2 => Some(KnobPage::Mod),
            3 => Some(KnobPage::Arp),
            _ => None,
        }
    }

    #[verifier::when_used_as_spec(spec_code)]
    pub fn code(&self) -> (r: u8)
        ensures
            r == self.spec_code(),
            KnobPage::of_code(r) == Some(*self),
    {
        match self {
            KnobPage::Osc => 0,
            KnobPage::Env => 1,
            KnobPage::Mod => 2,
            KnobPage::Arp => 3,
        }
    }

    /// The value that `code` stands for, if it stands for one.
    pub fn from_code(code: u8) -> (r: Option<KnobPage>)
        ensures
            r == KnobPage::of_code(code),
    {
        match code {
            0 => Some(KnobPage::Osc),
            1 => Some(KnobPage::Env),
            2 => Some(KnobPage::Mod),
            3 => Some(KnobPage::Arp),
            _ => None,
        }
    }
}

/// The switches that the second row of pads toggles.
#[derive(Copy, Clone, Debug, Eq, PartialEq, Structural)]
pub enum TogglePage {
    Arp,
    Latch,
    Polarity,
    Chorus,
}

impl TogglePage {
    /// The number that stands for the value.
    pub open spec fn spec_code(&self) -> u8 {
        match self {
            TogglePage::Arp => 4,
            TogglePage::Latch => 5,
            TogglePage::Polarity => 6,
            TogglePage::Chorus => 7,
        }
    }

    /// The value that `code` stands for, if it stands for one.
    pub open spec fn of_code(code: u8) -> Option<TogglePage> {
        match code {
            4 => Some(TogglePage::Arp),
            5 => Some(TogglePage::Latch),
            6 => Some(TogglePage::Polarity),
            7 => Some(TogglePage::Chorus),
            _ => None,
        }
    }

    #[verifier::when_used_as_spec(spec_code)]
    pub fn code(&self) -> (r: u8)
        ensures
            r == self.spec_code(),
            TogglePage::of_code(r) == Some(*self),
    {
        match self {
            TogglePage::Arp => 4,
            TogglePage::Latch => 5,
            TogglePage::Polarity => 6,
            TogglePage::Chorus => 7,
        }
    }

    /// The value that `code` stands for, if it stands for one.
    pub fn from_code(code: u8) -> (r: Option<TogglePage>)
        ensures
            r == TogglePage::of_code(code),
    {
        match code {
            4 => Some(TogglePage::Arp),
            5 => Some(TogglePage::Latch),
            6 => Some(TogglePage::Polarity),
            7 => Some(TogglePage::Chorus),
            _ => None,
        }
    }
}

/// The parameters that the second oscillator can modulate.
#[derive(Copy, Clone, Debug, Eq, PartialEq, Structural)]
pub enum Lfo2Dest {
    Osc1Wave,
    Osc1Level,
    Osc1Octave,
    Osc2Wave,
    Osc2Level,
    Osc2Octave,
    Osc2Detune,
    Interval,
    Noise,
    Cutoff,
    Resonance,
    VcfInt,
    VcfAttack,
    VcfDecay,
    VcfBreak,
    VcfSlope,
    VcfSustain,
    VcfRelease,
    VcaAttack,
    VcaDecay,
    VcaBreak,
    VcaSlope,
    VcaSustain,
    VcaRelease,
    MgFreq,
    MgDelay,
    MgOsc,
    MgVcf,
}

impl Lfo2Dest {
    /// The number that stands for the value.
    pub open spec fn spec_code(&self) -> u8 {
        match self {
            Lfo2Dest::Osc1Wave => 0,
            Lfo2Dest::Osc1Level => 1,
            Lfo2Dest::Osc1Octave => 2,
            Lfo2Dest::Osc2Wave => 3,
            Lfo2Dest::Osc2Level => 4,
            Lfo2Dest::Osc2Octave => 5,
            Lfo2Dest::Osc2Detune => 6,
            Lfo2Dest::Interval => 7,
            Lfo2Dest::Noise => 8,
            Lfo2Dest::Cutoff => 9,
            Lfo2Dest::Resonance => 10,
            Lfo2Dest::VcfInt => 11,
            Lfo2Dest::VcfAttack => 12,
            Lfo2Dest::VcfDecay => 13,
            Lfo2Dest::VcfBreak => 14,
            Lfo2Dest::VcfSlope => 15,
            Lfo2Dest::VcfSustain => 16,
            Lfo2Dest::VcfRelease => 17,
            Lfo2Dest::VcaAttack => 18,
            Lfo2Dest::VcaDecay => 19,
            Lfo2Dest::VcaBreak => 20,
            Lfo2Dest::VcaSlope => 21,
            Lfo2Dest::VcaSustain => 22,
            Lfo2Dest::VcaRelease => 23,
            Lfo2Dest::MgFreq => 24,
            Lfo2Dest::MgDelay => 25,
            Lfo2Dest::MgOsc => 26,
            Lfo2Dest::MgVcf => 27,
        }
    }

    /// The value that `code` stands for, if it stands for one.
    pub open spec fn of_code(code: u8) -> Option<Lfo2Dest> {
        match code {
            0 => Some(Lfo2Dest::Osc1Wave),
            1 => Some(Lfo2Dest::Osc1Level),
            2 => Some(Lfo2Dest::Osc1Octave),
            3 => Some(Lfo2Dest::Osc2Wave),
            4 => Some(Lfo2Dest::Osc2Level),
            5 => Some(Lfo2Dest::Osc2Octave),
            6 => Some(Lfo2Dest::Osc2Detune),
            7 => Some(Lfo2Dest::Interval),
            8 => Some(Lfo2Dest::Noise),
            9 => Some(Lfo2Dest::Cutoff),
            10 => Some(Lfo2Dest::Resonance),
            11 => Some(Lfo2Dest::VcfInt),
            12 => Some(Lfo2Dest::VcfAttack),
            13 => Some(Lfo2Dest::VcfDecay),
            14 => Some(Lfo2Dest::VcfBreak),
            15 => Some(Lfo2Dest::VcfSlope),
            16 => Some(Lfo2Dest::VcfSustain),
            17 => Some(Lfo2Dest::VcfRelease),
            18 => Some(Lfo2Dest::VcaAttack),
            19 => Some(Lfo2Dest::VcaDecay),
            20 => Some(Lfo2Dest::VcaBreak),
            21 => Some(Lfo2Dest::VcaSlope),
            22 => Some(Lfo2Dest::VcaSustain),
            23 => Some(Lfo2Dest::VcaRelease),
            24 => Some(Lfo2Dest::MgFreq),
            25 => Some(Lfo2Dest::MgDelay),
            26 => Some(Lfo2Dest::MgOsc),
            27 => Some(Lfo2Dest::MgVcf),
            _ => None,
        }
    }

    #[verifier::when_used_as_spec(spec_code)]
    pub fn code(&self) -> (r: u8)
        ensures
            r == self.spec_code(),
            Lfo2Dest::of_code(r) == Some(*self),
    {
        match self {
            Lfo2Dest::Osc1Wave => 0,
            Lfo2Dest::Osc1Level => 1,
            Lfo2Dest::Osc1Octave => 2,
            Lfo2Dest::Osc2Wave => 3,
            Lfo2Dest::Osc2Level => 4,
            Lfo2Dest::Osc2Octave => 5,
            Lfo2Dest::Osc2Detune => 6,
            Lfo2Dest::Interval => 7,
            Lfo2Dest::Noise => 8,
            Lfo2Dest::Cutoff => 9,
            Lfo2Dest::Resonance => 10,
            Lfo2Dest::VcfInt => 11,
            Lfo2Dest::VcfAttack => 12,
            Lfo2Dest::VcfDecay => 13,
            Lfo2Dest::VcfBreak => 14,
            Lfo2Dest::VcfSlope => 15,
            Lfo2Dest::VcfSustain => 16,
            Lfo2Dest::VcfRelease => 17,
            Lfo2Dest::VcaAttack => 18,
            Lfo2Dest::VcaDecay => 19,
            Lfo2Dest::VcaBreak => 20,
            Lfo2Dest::VcaSlope => 21,
            Lfo2Dest::VcaSustain => 22,
            Lfo2Dest::VcaRelease => 23,
            Lfo2Dest::MgFreq => 24,
            Lfo2Dest::MgDelay => 25,
            Lfo2Dest::MgOsc => 26,
            Lfo2Dest::MgVcf => 27,
        }
    }

    /// The value that `code` stands for, if it stands for one.
    pub fn from_code(code: u8) -> (r: Option<Lfo2Dest>)
        ensures
            r == Lfo2Dest::of_code(code),
    {
        match code {
            0 => Some(Lfo2Dest::Osc1Wave),
            1 => Some(Lfo2Dest::Osc1Level),
            2 => Some(Lfo2Dest::Osc1Octave),
            3 => Some(Lfo2Dest::Osc2Wave),
            4 => Some(Lfo2Dest::Osc2Level),
            5 => Some(Lfo2Dest::Osc2Octave),
            6 => Some(Lfo2Dest::Osc2Detune),
            7 => Some(Lfo2Dest::Interval),
            8 => Some(Lfo2Dest::Noise),
            9 => Some(Lfo2Dest::Cutoff),
            10 => Some(Lfo2Dest::Resonance),
            11 => Some(Lfo2Dest::VcfInt),
            12 => Some(Lfo2Dest::VcfAttack),
            13 => Some(Lfo2Dest::VcfDecay),
            14 => Some(Lfo2Dest::VcfBreak),
            15 => Some(Lfo2Dest::VcfSlope),
            16 => Some(Lfo2Dest::VcfSustain),
            17 => Some(Lfo2Dest::VcfRelease),
            18 => Some(Lfo2Dest::VcaAttack),
            19 => Some(Lfo2Dest::VcaDecay),
            20 => Some(Lfo2Dest::VcaBreak),
            21 => Some(Lfo2Dest::VcaSlope),
            22 => Some(Lfo2Dest::VcaSustain),
            23 => Some(Lfo2Dest::VcaRelease),
            24 => Some(Lfo2Dest::MgFreq),
            25 => Some(Lfo2Dest::MgDelay),
            26 => Some(Lfo2Dest::MgOsc),
            27 => Some(Lfo2Dest::MgVcf),
            _ => None,
        }
    }
}

impl Lfo2Dest {
    /// The parameter that the destination stands for.
    pub open spec fn spec_param(self) -> Dw6Param {
        match self {
            Lfo2Dest::Osc1Wave => Dw6Param::Osc1Wave,
            Lfo2Dest::Osc1Level => Dw6Param::Osc1Level,
            Lfo2Dest::Osc1Octave => Dw6Param::Osc1Octave,
            Lfo2Dest::Osc2Wave => Dw6Param::Osc2Wave,
            Lfo2Dest::Osc2Level => Dw6Param::Osc2Level,
            Lfo2Dest::Osc2Octave => Dw6Param::Osc2Octave,
            Lfo2Dest::Osc2Detune => Dw6Param::Osc2Detune,
            Lfo2Dest::Interval => Dw6Param::Interval,
            Lfo2Dest::Noise => Dw6Param::Noise,
            Lfo2Dest::Cutoff => Dw6Param::Cutoff,
            Lfo2Dest::Resonance => Dw6Param::Resonance,
            Lfo2Dest::VcfInt => Dw6Param::VcfInt,
            Lfo2Dest::VcfAttack => Dw6Param::VcfAttack,
            Lfo2Dest::VcfDecay => Dw6Param::VcfDecay,
            Lfo2Dest::VcfBreak => Dw6Param::VcfBreak,
            Lfo2Dest::VcfSlope => Dw6Param::VcfSlope,
            Lfo2Dest::VcfSustain => Dw6Param::VcfSustain,
            Lfo2Dest::VcfRelease => Dw6Param::VcfRelease,
            Lfo2Dest::VcaAttack => Dw6Param::VcaAttack,
            Lfo2Dest::VcaDecay => Dw6Param::VcaDecay,
            Lfo2Dest::VcaBreak => Dw6Param::VcaBreak,
            Lfo2Dest::VcaSlope => Dw6Param::VcaSlope,
            Lfo2Dest::VcaSustain => Dw6Param::VcaSustain,
            Lfo2Dest::VcaRelease => Dw6Param::VcaRelease,
            Lfo2Dest::MgFreq => Dw6Param::MgFreq,
            Lfo2Dest::MgDelay => Dw6Param::MgDelay,
            Lfo2Dest::MgOsc => Dw6Param::MgOsc,
            Lfo2Dest::MgVcf => Dw6Param::MgVcf,
        }
    }
}

impl From<Lfo2Dest> for Dw6Param {
    fn from(dest: Lfo2Dest) -> (r: Dw6Param) {
        match dest {
            Lfo2Dest::Osc1Wave => Dw6Param::Osc1Wave,
            Lfo2Dest::Osc1Level => Dw6Param::Osc1Level,
            Lfo2Dest::Osc1Octave => Dw6Param::Osc1Octave,
            Lfo2Dest::Osc2Wave => Dw6Param::Osc2Wave,
            Lfo2Dest::Osc2Level => Dw6Param::Osc2Level,
            Lfo2Dest::Osc2Octave => Dw6Param::Osc2Octave,
            Lfo2Dest::Osc2Detune => Dw6Param::Osc2Detune,
            Lfo2Dest::Interval => Dw6Param::Interval,
            Lfo2Dest::Noise => Dw6Param::Noise,
            Lfo2Dest::Cutoff => Dw6Param::Cutoff,
            Lfo2Dest::Resonance => Dw6Param::Resonance,
            Lfo2Dest::VcfInt => Dw6Param::VcfInt,
            Lfo2Dest::VcfAttack => Dw6Param::VcfAttack,
            Lfo2Dest::VcfDecay => Dw6Param::VcfDecay,
            Lfo2Dest::VcfBreak => Dw6Param::VcfBreak,
            Lfo2Dest::VcfSlope => Dw6Param::VcfSlope,
            Lfo2Dest::VcfSustain => Dw6Param::VcfSustain,
            Lfo2Dest::VcfRelease => Dw6Param::VcfRelease,
            Lfo2Dest::VcaAttack => Dw6Param::VcaAttack,
            Lfo2Dest::VcaDecay => Dw6Param::VcaDecay,
            Lfo2Dest::VcaBreak => Dw6Param::VcaBreak,
            Lfo2Dest::VcaSlope => Dw6Param::VcaSlope,
            Lfo2Dest::VcaSustain => Dw6Param::VcaSustain,
            Lfo2Dest::VcaRelease => Dw6Param::VcaRelease,
            Lfo2Dest::MgFreq => Dw6Param::MgFreq,
            Lfo2Dest::MgDelay => Dw6Param::MgDelay,
            Lfo2Dest::MgOsc => Dw6Param::MgOsc,
            Lfo2Dest::MgVcf => Dw6Param::MgVcf,
        }
    }
}

impl FromSpecImpl<Lfo2Dest> for Dw6Param {
    open spec fn obeys_from_spec() -> bool {
        true
    }

    open spec fn from_spec(dest: Lfo2Dest) -> Dw6Param {
        dest.spec_param()
    }
}

/// A setting of the controller itself.
#[derive(Debug, Copy, Clone, PartialEq, Eq, Structural)]
pub enum CtlParam {
    Lfo2Rate,
    Lfo2Wave,
    Lfo2Dest,
    Lfo2Amt,
}

/// The page that the pad of `note` selects: the first four pads select one
/// each.
pub fn note_page(note: Note) -> (r: Option<KnobPage>)
    ensures
        r == KnobPage::of_code(note@),
{
    KnobPage::from_code(note.value())
}

/// The switch that the pad of `note` toggles: the fifth to eighth pad
/// toggle one each.
pub fn toggle_page(note: Note) -> (r: Option<TogglePage>)
    ensures
        r == TogglePage::of_code(note@),
{
    TogglePage::from_code(note.value())
}

/// The bank that the pad of a note selects: the pads of the second row
/// select banks 0 to 7.
pub open spec fn spec_note_bank(note: u8) -> Option<u8> {
    if note / 8 == 1 {
        Some(note % 8)
    } else {
        None
    }
}

/// The program within a bank that the pad of a note selects: the pads of
/// the first row select programs 0 to 7.
pub open spec fn spec_note_prog(note: u8) -> Option<u8> {
    if note / 8 == 0 {
        Some(note % 8)
    } else {
        None
    }
}

pub fn note_bank(note: Note) -> (r: Option<u8>)
    ensures
        r == spec_note_bank(note@),
        r is Some ==> r->Some_0 <= 7,
{
    let note_u8 = note.value();
    match div_rem(note_u8, 8) {
        (1, n) => Some(n),
        _ => None,
    }
}

pub fn note_prog(note: Note) -> (r: Option<u8>)
    ensures
        r == spec_note_prog(note@),
        r is Some ==> r->Some_0 <= 7,
{
    let note_u8 = note.value();
    match div_rem(note_u8, 8) {
        (0, n) => Some(n),
        _ => None,
    }
}

/// The setting of the controller that a knob edits on a page: knobs 9 to 12
/// of the modulation page edit the second oscillator.
pub open spec fn spec_cc_to_ctl_param(cc: u8, page: KnobPage) -> Option<CtlParam> {
    match page {
        KnobPage::Mod => match cc {
            9 => Some(CtlParam::Lfo2Rate),
            10 => Some(CtlParam::Lfo2Amt),
            11 => Some(CtlParam::Lfo2Wave),
            12 => Some(CtlParam::Lfo2Dest),
            _ => None,
        },
        _ => None,
    }
}

pub fn cc_to_ctl_param(cc: Control, page: KnobPage) -> (r: Option<CtlParam>)
    ensures
        r == spec_cc_to_ctl_param(cc@, page),
{
    match page {
        KnobPage::Mod => match cc.value() {
            9 => Some(CtlParam::Lfo2Rate),
            10 => Some(CtlParam::Lfo2Amt),
            11 => Some(CtlParam::Lfo2Wave),
            12 => Some(CtlParam::Lfo2Dest),
            _ => None,
        },
        _ => None,
    }
}

/// The parameter of the synthesizer that a knob edits on a page. Four
/// controls edit the same parameter on every page: the jog wheel the
/// cutoff, knob 8 the resonance, and controls 18 and 19 the polarity and
/// the chorus.
pub open spec fn spec_cc_to_dw_param(cc: u8, page: KnobPage) -> Option<Dw6Param> {
    if cc == 17 {
        Some(Dw6Param::Cutoff)
    } else if cc == 8 {
        Some(Dw6Param::Resonance)
    } else if cc == 18 {
        Some(Dw6Param::Polarity)
    } else if cc == 19 {
        Some(Dw6Param::Chorus)
    } else {
        match page {
            KnobPage::Osc => match cc {
                1 => Some(Dw6Param::Osc1Level),
                2 => Some(Dw6Param::Osc1Octave),
                3 => Some(Dw6Param::Osc1Wave),
                4 => Some(Dw6Param::Noise),
                5 => Some(Dw6Param::BendOsc),
                6 => Some(Dw6Param::BendVcf),
                7 => Some(Dw6Param::Portamento),
                9 => Some(Dw6Param::Osc2Level),
                10 => Some(Dw6Param::Osc2Octave),
                11 => Some(Dw6Param::Osc2Wave),
                12 => Some(Dw6Param::Interval),
                13 => Some(Dw6Param::Osc2Detune),
                _ => None,
            },
            KnobPage::Env => match cc {
                1 => Some(Dw6Param::VcaAttack),
                2 => Some(Dw6Param::VcaDecay),
                3 => Some(Dw6Param::VcaBreak),
                4 => Some(Dw6Param::VcaSustain),
                5 => Some(Dw6Param::VcaSlope),
                6 => Some(Dw6Param::VcaRelease),
                9 => Some(Dw6Param::VcfAttack),
                10 => Some(Dw6Param::VcfDecay),
                11 => Some(Dw6Param::VcfBreak),
                12 => Some(Dw6Param::VcfSustain),
                13 => Some(Dw6Param::VcfSlope),
                14 => Some(Dw6Param::VcfRelease),
                15 => Some(Dw6Param::VcfInt),
                16 => Some(Dw6Param::KbdTrack),
                _ => None,
            },
            KnobPage::Mod => match cc {
                1 => Some(Dw6Param::MgFreq),
                2 => Some(Dw6Param::MgDelay),
                3 => Some(Dw6Param::MgOsc),
                4 => Some(Dw6Param::MgVcf),
                5 => Some(Dw6Param::BendOsc),
                6 => Some(Dw6Param::BendVcf),
                7 => Some(Dw6Param::Portamento),
                _ => None,
            },
            KnobPage::Arp => None,
        }
    }
}

pub fn cc_to_dw_param(cc: Control, page: KnobPage) -> (r: Option<Dw6Param>)
    ensures
        r == spec_cc_to_dw_param(cc@, page),
{
    let cc = cc.value();
    match cc {
        17 => {
            return Some(Dw6Param::Cutoff);
        },
        8 => {
            return Some(Dw6Param::Resonance);
        },
        18 => {
            return Some(Dw6Param::Polarity);
        },
        19 => {
            return Some(Dw6Param::Chorus);
        },
        _ => {},
    }
    match page {
        KnobPage::Osc => match cc {
            1 => Some(Dw6Param::Osc1Level),
            2 => Some(Dw6Param::Osc1Octave),
            3 => Some(Dw6Param::Osc1Wave),
            4 => Some(Dw6Param::Noise),
            5 => Some(Dw6Param::BendOsc),
            6 => Some(Dw6Param::BendVcf),
            7 => Some(Dw6Param::Portamento),
            9 => Some(Dw6Param::Osc2Level),
            10 => Some(Dw6Param::Osc2Octave),
            11 => Some(Dw6Param::Osc2Wave),
            12 => Some(Dw6Param::Interval),
            13 => Some(Dw6Param::Osc2Detune),
            _ => None,
        },
        KnobPage::Env => match cc {
            1 => Some(Dw6Param::VcaAttack),
            2 => Some(Dw6Param::VcaDecay),
            3 => Some(Dw6Param::VcaBreak),
            4 => Some(Dw6Param::VcaSustain),
            5 => Some(Dw6Param::VcaSlope),
            6 => Some(Dw6Param::VcaRelease),
            9 => Some(Dw6Param::VcfAttack),
            10 => Some(Dw6Param::VcfDecay),
            11 => Some(Dw6Param::VcfBreak),
            12 => Some(Dw6Param::VcfSustain),
            13 => Some(Dw6Param::VcfSlope),
            14 => Some(Dw6Param::VcfRelease),
            15 => Some(Dw6Param::VcfInt),
            16 => Some(Dw6Param::KbdTrack),
            _ => None,
        },
        KnobPage::Mod => match cc {
            1 => Some(Dw6Param::MgFreq),
            2 => Some(Dw6Param::MgDelay),
            3 => Some(Dw6Param::MgOsc),
            4 => Some(Dw6Param::MgVcf),
            5 => Some(Dw6Param::BendOsc),
            6 => Some(Dw6Param::BendVcf),
            7 => Some(Dw6Param::Portamento),
            _ => None,
        },
        KnobPage::Arp => None,
    }
}

/// How long a page pad may be held for its page to stay selected, in
/// milliseconds.
pub const SHORT_PRESS_MS: u64 = 250;

/// What the caller is to do after a decision.
#[derive(Debug)]
pub enum Dw6Action {
    /// Send the packet to the synthesizer.
    SendPacket(Packet),
    /// Send the message to the synthesizer, from its first packet on.
    SendSysex(SysexSeq),
    /// Set the rate of the second oscillator from a knob position.
    SetLfoRate(U7),
    /// Set the depth of the second oscillator from a knob position.
    SetLfoAmount(U7),
    /// Set the waveform of the second oscillator.
    SetLfoWaveform(Waveform),
}

/// An action by what it holds: a packet by its four bytes, a message by its
/// payload, a knob position by its number.
pub enum ActionModel {
    SendPacket(Seq<u8>),
    SendSysex(Seq<u8>),
    SetLfoRate(u8),
    SetLfoAmount(u8),
    SetLfoWaveform(Waveform),
}

impl Dw6Action {
    pub open spec fn view(self) -> ActionModel {
        match self {
            Dw6Action::SendPacket(p) => ActionModel::SendPacket(p@),
            Dw6Action::SendSysex(seq) => ActionModel::SendSysex(seq.spec_bytes()),
            Dw6Action::SetLfoRate(v) => ActionModel::SetLfoRate(v@),
            Dw6Action::SetLfoAmount(v) => ActionModel::SetLfoAmount(v@),
            Dw6Action::SetLfoWaveform(w) => ActionModel::SetLfoWaveform(w),
        }
    }

    /// A message to send has not been started.
    pub open spec fn fresh(self) -> bool {
        self matches Dw6Action::SendSysex(seq) ==> seq.spec_pos() == 0 && !seq.spec_done()
    }
}

/// The actions of a list, each by what it holds.
pub open spec fn actions_view(actions: Seq<Dw6Action>) -> Seq<ActionModel> {
    actions.map_values(|a: Dw6Action| a@)
}

/// The state of the controller as a value.
pub struct ControlModel {
    /// The program of the synthesizer as last received and edited since.
    pub dump: Option<Seq<u8>>,
    /// The values of the parameters under modulation, as they were before
    /// the modulation began, each under the number of its parameter.
    pub saved: Map<u8, u8>,
    /// The page that the knobs edit.
    pub base_page: KnobPage,
    /// The page of the pad that is held down, with the time of the press.
    pub temp_page: Option<(KnobPage, u64)>,
    /// The bank of the pad that is held down.
    pub bank: Option<u8>,
    /// The parameter that the second oscillator modulates.
    pub lfo2_param: Option<Lfo2Dest>,
}

/// The message that sets, in the synthesizer, the byte that holds `param`
/// to what `dump` holds there.
pub open spec fn param_record(param: Dw6Param, dump: Seq<u8>) -> Seq<u8> {
    data_header() + seq![
        0x41u8,
        param.spec_dump_index() as u8,
        dump[param.spec_dump_index() as int],
    ]
}

impl ControlModel {
    /// The page that the knobs edit now: that of the pad held down, else
    /// the selected one.
    pub open spec fn active_page(self) -> KnobPage {
        match self.temp_page {
            Some((page, _)) => page,
            None => self.base_page,
        }
    }

    /// Sets a parameter in the program and tells the synthesizer. Without a
    /// program nothing happens.
    pub open spec fn with_param(self, param: Dw6Param, value: u8) -> (ControlModel, Seq<ActionModel>) {
        match self.dump {
            Some(d) => {
                let d2 = param.written(d, value);
                (
                    ControlModel { dump: Some(d2), ..self },
                    seq![ActionModel::SendSysex(param_record(param, d2))],
                )
            },
            None => (self, Seq::<ActionModel>::empty()),
        }
    }

    /// A pad was pressed.
    /// - A pad of the second row selects its bank for as long as it is
    ///   held. A pad of the first row, pressed while a bank is held, calls
    ///   the program of that number in the bank, on channel 1.
    /// - One of the first four pads also shows its page for as long as it
    ///   is held.
    /// - The seventh and eighth pad also flip the polarity and the chorus.
    pub open spec fn on_note_on(self, note: u8, now: u64) -> Result<
        (ControlModel, Seq<ActionModel>),
        MidiError,
    > {
        let program = match (spec_note_prog(note), self.bank) {
            (Some(prog), Some(bank)) => Some(bank * 8 + prog),
            _ => None,
        };
        if program is Some && program->Some_0 > 0x7f {
            Err(MidiError::InvalidProgram)
        } else {
            let m1 = match spec_note_bank(note) {
                Some(bank) => ControlModel { bank: Some(bank), ..self },
                None => self,
            };
            let a1 = match program {
                Some(p) => seq![
                    ActionModel::SendPacket(
                        MidiMessage::ProgramChange(MidiChannel::CH1, U7::of(p as u8)).encoded(0),
                    ),
                ],
                None => Seq::<ActionModel>::empty(),
            };
            let m2 = match KnobPage::of_code(note) {
                Some(page) => ControlModel { temp_page: Some((page, now)), ..m1 },
                None => m1,
            };
            let toggled = match TogglePage::of_code(note) {
                Some(TogglePage::Polarity) => Some(Dw6Param::Polarity),
                Some(TogglePage::Chorus) => Some(Dw6Param::Chorus),
                _ => None,
            };
            let (m3, a3) = match (toggled, m2.dump) {
                (Some(param), Some(d)) => m2.with_param(param, param.read(d)->Ok_0 ^ 1),
                _ => (m2, Seq::<ActionModel>::empty()),
            };
            Ok((m3, a1 + a3))
        }
    }

    /// A pad was released. The bank of the pad is no longer held. If the
    /// pad is the page pad that was held, its page is no longer shown; it
    /// becomes the selected page if the press was short.
    pub open spec fn on_note_off(self, note: u8, now: u64) -> ControlModel {
        let m1 = if self.bank == spec_note_bank(note) {
            ControlModel { bank: None, ..self }
        } else {
            self
        };
        match m1.temp_page {
            Some((page, pressed)) => if KnobPage::of_code(note) == Some(page) {
                let held = if now >= pressed {
                    now - pressed
                } else {
                    0
                };
                ControlModel {
                    base_page: if held < 250 {
                        page
                    } else {
                        m1.base_page
                    },
                    temp_page: None,
                    ..m1
                }
            } else {
                m1
            },
            None => m1,
        }
    }

    /// The second oscillator lets go of its parameter: the value set aside
    /// goes back into the program and to the synthesizer.
    pub open spec fn unmodulated(self) -> (ControlModel, Seq<ActionModel>) {
        match self.lfo2_param {
            Some(dest) => {
                let code = dest.spec_param().spec_code();
                if self.saved.contains_key(code) {
                    ControlModel { saved: self.saved.remove(code), ..self }.with_param(
                        dest.spec_param(),
                        self.saved[code],
                    )
                } else {
                    (self, Seq::<ActionModel>::empty())
                }
            },
            None => (self, Seq::<ActionModel>::empty()),
        }
    }

    /// The second oscillator takes the parameter that `value` stands for,
    /// if there is a program and `value` stands for one: the value of the
    /// parameter is set aside.
    pub open spec fn modulated(self, value: u8) -> ControlModel {
        match (self.dump, Lfo2Dest::of_code(value)) {
            (Some(d), Some(dest)) => ControlModel {
                saved: self.saved.insert(
                    dest.spec_param().spec_code(),
                    dest.spec_param().read(d)->Ok_0,
                ),
                lfo2_param: Some(dest),
                ..self
            },
            _ => self,
        }
    }

    /// A knob was turned.
    /// - A knob that edits a parameter of the synthesizer on the page
    ///   shown sets it: in the value set aside while the parameter is
    ///   under modulation, else in the program and in the synthesizer.
    /// - A knob that edits the second oscillator hands its position on, or
    ///   moves the oscillator to another parameter.
    pub open spec fn on_control_change(self, cc: u8, value: u8) -> (ControlModel, Seq<ActionModel>) {
        match spec_cc_to_dw_param(cc, self.active_page()) {
            Some(param) => if self.saved.contains_key(param.spec_code()) {
                (
                    ControlModel { saved: self.saved.insert(param.spec_code(), value), ..self },
                    Seq::<ActionModel>::empty(),
                )
            } else {
                self.with_param(param, value)
            },
            None => match spec_cc_to_ctl_param(cc, self.active_page()) {
                Some(CtlParam::Lfo2Rate) => (self, seq![ActionModel::SetLfoRate(value)]),
                Some(CtlParam::Lfo2Amt) => (self, seq![ActionModel::SetLfoAmount(value)]),
                Some(CtlParam::Lfo2Wave) => (
                    self,
                    seq![
                        ActionModel::SetLfoWaveform(
                            Waveform::of_code(
                                if value < 3 {
                                    value
                                } else {
                                    3
                                },
                            ),
                        ),
                    ],
                ),
                Some(CtlParam::Lfo2Dest) => {
                    let (m1, a1) = self.unmodulated();
                    (m1.modulated(value), a1)
                },
                None => (self, Seq::<ActionModel>::empty()),
            },
        }
    }

    /// A message came from the controller. Only presses, releases and
    /// knobs count.
    pub open spec fn on_message(self, msg: MidiMessage, now: u64) -> Result<
        (ControlModel, Seq<ActionModel>),
        MidiError,
    > {
        match msg {
            MidiMessage::NoteOn(_, note, _) => self.on_note_on(note@, now),
            MidiMessage::NoteOff(_, note, _) => Ok(
                (self.on_note_off(note@, now), Seq::<ActionModel>::empty()),
            ),
            MidiMessage::ControlChange(_, cc, value) => Ok(self.on_control_change(cc@, value@)),
            _ => Ok((self, Seq::<ActionModel>::empty())),
        }
    }
}

/// The state of the controller.
pub struct Dw6Control {
    pub(crate) current_dump: Option<[u8; 26]>,
    pub(crate) mod_dump: SavedValues,
    pub(crate) base_page: KnobPage,
    pub(crate) temp_page: Option<(KnobPage, u64)>,
    pub(crate) bank: Option<u8>,
    pub(crate) lfo2_param: Option<Lfo2Dest>,
}

impl Dw6Control {
    /// The state as a value.
    pub open(crate) spec fn view(self) -> ControlModel {
        ControlModel {
            dump: match self.current_dump {
                Some(d) => Some(d@),
                None => None,
            },
            saved: self.mod_dump@,
            base_page: self.base_page,
            temp_page: self.temp_page,
            bank: self.bank,
            lfo2_param: self.lfo2_param,
        }
    }

    /// The state at the start: no program received, nothing under
    /// modulation, the oscillator page selected.
    pub fn new() -> (r: Dw6Control)
        ensures
            r@ == (ControlModel {
                dump: None,
                saved: Map::<u8, u8>::empty(),
                base_page: KnobPage::Osc,
                temp_page: None,
                bank: None,
                lfo2_param: None,
            }),
    {
        Dw6Control {
            current_dump: None,
            mod_dump: SavedValues::new(),
            base_page: KnobPage::Osc,
            temp_page: None,
            bank: None,
            lfo2_param: None,
        }
    }

    pub fn active_page(&self) -> (r: KnobPage)
        ensures
            r == self@.active_page(),
    {
        match self.temp_page {
            Some((page, _)) => page,
            None => self.base_page,
        }
    }

    /// The program of the synthesizer as last received and edited since.
    pub fn current_dump(&self) -> (r: Option<[u8; 26]>)
        ensures
            r is Some <==> self@.dump is Some,
            r is Some ==> r->Some_0@ == self@.dump->Some_0,
    {
        self.current_dump
    }

    /// The parameter that the second oscillator modulates.
    pub fn lfo2_param(&self) -> (r: Option<Lfo2Dest>)
        ensures
            r == self@.lfo2_param,
    {
        self.lfo2_param
    }

    /// The value of a parameter under modulation as it was before the
    /// modulation began.
    pub fn modulated_root(&self, param: Dw6Param) -> (r: Option<u8>)
        ensures
            r == if self@.saved.contains_key(param.spec_code()) {
                Some(self@.saved[param.spec_code()])
            } else {
                None
            },
    {
        self.mod_dump.get(param.code())
    }
}

impl Dw6Control {
    /// Sets a parameter in the program and notes down the message that
    /// tells the synthesizer. Without a program nothing happens.
    fn apply_param(&mut self, param: Dw6Param, value: u8, actions: &mut Vec<Dw6Action>)
        requires
            forall|i: int| 0 <= i < old(actions)@.len() ==> old(actions)@[i].fresh(),
        ensures
            final(self)@ == old(self)@.with_param(param, value).0,
            actions_view(final(actions)@) == actions_view(old(actions)@) + old(self)@.with_param(
                param,
                value,
            ).1,
            forall|i: int| 0 <= i < final(actions)@.len() ==> final(actions)@[i].fresh(),
    {
        match self.current_dump {
            Some(dump) => {
                let mut dump = dump;
                let _ = set_param_value(param, value, &mut dump);
                self.current_dump = Some(dump);
                match param_set_sysex(param, &dump) {
                    Ok(sysex) => {
                        actions.push(Dw6Action::SendSysex(sysex));
                        assert(actions_view(actions@) =~= actions_view(old(actions)@) + old(
                            self,
                        )@.with_param(param, value).1);
                    },
                    Err(_) => {},
                }
            },
            None => {
                assert(actions_view(actions@) =~= actions_view(old(actions)@) + old(
                    self,
                )@.with_param(param, value).1);
            },
        }
    }

    /// Sets aside the value of a parameter that comes under modulation.
    pub fn set_modulated(&mut self, p: Dw6Param, root_value: u8)
        ensures
            final(self)@ == (ControlModel {
                saved: old(self)@.saved.insert(p.spec_code(), root_value),
                ..old(self)@
            }),
    {
        let _ = saved_insert(&mut self.mod_dump, p.code(), root_value);
    }

    /// Takes a parameter out of modulation: the value set aside goes back
    /// into the program, and the message that tells the synthesizer is
    /// noted down.
    fn unset_modulated(&mut self, p: Dw6Param, actions: &mut Vec<Dw6Action>)
        requires
            forall|i: int| 0 <= i < old(actions)@.len() ==> old(actions)@[i].fresh(),
        ensures
            old(self)@.saved.contains_key(p.spec_code()) ==> {
                let step = (ControlModel {
                    saved: old(self)@.saved.remove(p.spec_code()),
                    ..old(self)@
                }).with_param(p, old(self)@.saved[p.spec_code()]);
                &&& final(self)@ == step.0
                &&& actions_view(final(actions)@) == actions_view(old(actions)@) + step.1
            },
            !old(self)@.saved.contains_key(p.spec_code()) ==> final(self)@ == old(self)@
                && actions_view(final(actions)@) == actions_view(old(actions)@),
            forall|i: int| 0 <= i < final(actions)@.len() ==> final(actions)@[i].fresh(),
    {
        match saved_remove(&mut self.mod_dump, p.code()) {
            Some(root) => {
                self.apply_param(p, root, actions);
            },
            None => {
                assert(self.mod_dump@ =~= old(self).mod_dump@);
            },
        }
    }

    fn on_note_on(&mut self, note: Note, now_ms: u64) -> (r: Result<Vec<Dw6Action>, MidiError>)
        ensures
            match old(self)@.on_note_on(note@, now_ms) {
                Ok((model, actions)) => r is Ok && final(self)@ == model && actions_view(
                    r->Ok_0@,
                ) == actions && forall|i: int| 0 <= i < r->Ok_0@.len() ==> r->Ok_0@[i].fresh(),
                Err(e) => r is Err && r->Err_0 == e && final(self)@ == old(self)@,
            },
    {
        let mut actions: Vec<Dw6Action> = Vec::new();
        if let Some(bank) = note_bank(note) {
            self.bank = Some(bank);
        } else if let Some(prog) = note_prog(note) {
            if let Some(bank) = self.bank {
                let program: u16 = bank as u16 * 8 + prog as u16;
                if program > 0x7f {
                    return Err(MidiError::InvalidProgram);
                }
                match program_change(MidiChannel::CH1, program as u8) {
                    Ok(pc) => {
                        let packet = pc.encode(U4::min());
                        actions.push(Dw6Action::SendPacket(packet));
                        assert(actions_view(actions@) =~= seq![ActionModel::SendPacket(packet@)]);
                    },
                    Err(e) => {
                        return Err(e);
                    },
                }
            }
        }
        let ghost a1 = actions_view(actions@);
        assert(actions@.len() == 0 ==> a1 =~= Seq::<ActionModel>::empty());
        if let Some(page) = note_page(note) {
            self.temp_page = Some((page, now_ms));
        }
        if let Some(tog) = toggle_page(note) {
            if let Some(dump) = self.current_dump {
                match tog {
                    TogglePage::Arp => {},
                    TogglePage::Latch => {},
                    TogglePage::Polarity => {
                        self.toggle_param(Dw6Param::Polarity, &dump, &mut actions);
                    },
                    TogglePage::Chorus => {
                        self.toggle_param(Dw6Param::Chorus, &dump, &mut actions);
                    },
                }
            }
        }
        proof {
            let want = old(self)@.on_note_on(note@, now_ms)->Ok_0.1;
            assert(a1 + Seq::<ActionModel>::empty() =~= a1);
            assert(actions_view(actions@) =~= want);
        }
        Ok(actions)
    }

    /// Flips the lowest bit of a parameter of the program and notes down
    /// the message that tells the synthesizer.
    fn toggle_param(&mut self, param: Dw6Param, dump: &[u8; 26], actions: &mut Vec<Dw6Action>)
        requires
            old(self)@.dump == Some(dump@),
            forall|i: int| 0 <= i < old(actions)@.len() ==> old(actions)@[i].fresh(),
        ensures
            final(self)@ == old(self)@.with_param(param, param.read(dump@)->Ok_0 ^ 1).0,
            actions_view(final(actions)@) == actions_view(old(actions)@) + old(self)@.with_param(
                param,
                param.read(dump@)->Ok_0 ^ 1,
            ).1,
            forall|i: int| 0 <= i < final(actions)@.len() ==> final(actions)@[i].fresh(),
    {
        match get_param_value(param, dump) {
            Ok(value) => {
                self.apply_param(param, value ^ 1, actions);
            },
            Err(_) => {},
        }
    }

    fn on_note_off(&mut self, note: Note, now_ms: u64)
        ensures
            final(self)@ == old(self)@.on_note_off(note@, now_ms),
    {
        let released = note_bank(note);
        let same = match (self.bank, released) {
            (Some(a), Some(b)) => a == b,
            (None, None) => true,
            _ => false,
        };
        if same {
            self.bank = None;
        }
        if let Some((temp_page, press_start_ms)) = self.temp_page {
            if let Some(note_page) = note_page(note) {
                if note_page == temp_page {
                    let held_for_ms = if now_ms >= press_start_ms {
                        now_ms - press_start_ms
                    } else {
                        0
                    };
                    if held_for_ms < SHORT_PRESS_MS {
                        self.base_page = temp_page;
                    }
                    self.temp_page = None;
                }
            }
        }
    }

    fn on_control_change(&mut self, cc: Control, value: U7) -> (actions: Vec<Dw6Action>)
        ensures
            final(self)@ == old(self)@.on_control_change(cc@, value@).0,
            actions_view(actions@) == old(self)@.on_control_change(cc@, value@).1,
            forall|i: int| 0 <= i < actions@.len() ==> actions@[i].fresh(),
    {
        let mut actions: Vec<Dw6Action> = Vec::new();
        let ghost want = old(self)@.on_control_change(cc@, value@).1;
        let page = self.active_page();
        if let Some(param) = cc_to_dw_param(cc, page) {
            if self.mod_dump.get(param.code()).is_some() {
                let _ = saved_insert(&mut self.mod_dump, param.code(), value.value());
                assert(actions_view(actions@) =~= want);
            } else {
                self.apply_param(param, value.value(), &mut actions);
                assert(actions_view(actions@) =~= want);
            }
        } else if let Some(param) = cc_to_ctl_param(cc, page) {
            match param {
                CtlParam::Lfo2Rate => {
                    actions.push(Dw6Action::SetLfoRate(value));
                    assert(actions_view(actions@) =~= want);
                },
                CtlParam::Lfo2Amt => {
                    actions.push(Dw6Action::SetLfoAmount(value));
                    assert(actions_view(actions@) =~= want);
                },
                CtlParam::Lfo2Wave => {
                    let position = value.value();
                    let code = if position < 3 {
                        position
                    } else {
                        3
                    };
                    actions.push(Dw6Action::SetLfoWaveform(Waveform::from(code)));
                    assert(actions_view(actions@) =~= want);
                },
                CtlParam::Lfo2Dest => {
                    if let Some(dest) = self.lfo2_param {
                        self.unset_modulated(Dw6Param::from(dest), &mut actions);
                    }
                    assert(actions_view(actions@) =~= want);
                    if let Some(dump) = self.current_dump {
                        if let Some(new_dest) = Lfo2Dest::from_code(value.value()) {
                            let mod_p = Dw6Param::from(new_dest);
                            match get_param_value(mod_p, &dump) {
                                Ok(saved_val) => {
                                    self.set_modulated(mod_p, saved_val);
                                    self.lfo2_param = Some(new_dest);
                                },
                                Err(_) => {},
                            }
                        }
                    }
                },
            }
        } else {
            assert(actions_view(actions@) =~= want);
        }
        actions
    }

    /// Takes a message from the controller. Changes the state and returns
    /// what is to be done, in order. On an error the state is as before.
    pub fn msg_from_beatstep(&mut self, msg: MidiMessage, now_ms: u64) -> (r: Result<
        Vec<Dw6Action>,
        MidiError,
    >)
        ensures
            match old(self)@.on_message(msg, now_ms) {
                Ok((model, actions)) => r is Ok && final(self)@ == model && actions_view(
                    r->Ok_0@,
                ) == actions && forall|i: int| 0 <= i < r->Ok_0@.len() ==> r->Ok_0@[i].fresh(),
                Err(e) => r is Err && r->Err_0 == e && final(self)@ == old(self)@,
            },
    {
        match msg {
            MidiMessage::NoteOn(_, note, _) => self.on_note_on(note, now_ms),
            MidiMessage::NoteOff(_, note, _) => {
                self.on_note_off(note, now_ms);
                let actions: Vec<Dw6Action> = Vec::new();
                assert(actions_view(actions@) =~= Seq::<ActionModel>::empty());
                Ok(actions)
            },
            MidiMessage::ControlChange(_ch, cc, value) => Ok(self.on_control_change(cc, value)),
            _ => {
                let actions: Vec<Dw6Action> = Vec::new();
                assert(actions_view(actions@) =~= Seq::<ActionModel>::empty());
                Ok(actions)
            },
        }
    }
}

/// A program dump with the values set aside written back over the first
/// `n` parameters, so that it holds the program as it is without
/// modulation.
pub open spec fn restored(dump: Seq<u8>, saved: Map<u8, u8>, n: int) -> Seq<u8>
    decreases n,
{
    if n <= 0 {
        dump
    } else {
        let before = restored(dump, saved, n - 1);
        let code = (n - 1) as u8;
        if saved.contains_key(code) && Dw6Param::of_code(code) is Some {
            Dw6Param::of_code(code)->Some_0.written(before, saved[code])
        } else {
            before
        }
    }
}

/// The payload of a message that carries a program dump: the data header,
/// the dump code, and the 26 bytes of the program.
pub open spec fn is_dump_message(payload: Seq<u8>) -> bool {
    &&& payload.len() == 30
    &&& payload[0] == 0x42
    &&& payload[1] == 0x30
    &&& payload[2] == 0x04
    &&& payload[3] == 0x40
}

/// Finds the program in the payload of a message from the synthesizer:
/// gives the offset of its 26 bytes if the payload is a program dump.
pub fn find_dump(payload: &[u8]) -> (r: Option<usize>)
    ensures
        r is Some <==> is_dump_message(payload@),
        r is Some ==> r->Some_0 == 4,
{
    let pattern = dump_matcher();
    let mut captured = fields_new();
    let ghost p = pattern@;
    proof {
        reveal_with_fuel(capture_count, 5);
        reveal_with_fuel(walk, 5);
        assert(payload@.len() >= 3 ==> (payload@.subrange(0, 3) =~= data_header() <==> payload@[0]
            == 0x42 && payload@[1] == 0x30 && payload@[2] == 0x04));
    }
    let matched = pattern_match(payload, pattern.as_slice(), &mut captured);
    if !matched {
        return None;
    }
    let fields = fields_as_slice(&captured);
    if fields.len() == 1 {
        Some(fields[0].0)
    } else {
        None
    }
}

impl ControlModel {
    /// A program has come from the synthesizer. It becomes the program of
    /// the controller, with the values set aside written back over the
    /// parameters under modulation.
    pub open spec fn with_dump(self, dump: Seq<u8>) -> ControlModel {
        ControlModel { dump: Some(restored(dump, self.saved, 35)), ..self }
    }

    /// A packet has come from the synthesizer, while the capture buffer held
    /// `held`. A packet that no message can be read from is passed over.
    /// The message goes into the capture; when that completes a program
    /// dump, the program is taken.
    pub open spec fn on_synth_packet(self, held: Seq<u8>, packet: Packet) -> (ControlModel, Seq<u8>) {
        match MidiMessage::decoded(packet) {
            Err(_) => (self, held),
            Ok(msg) => {
                let now_held = capture_buffer(held, msg);
                if capture_result(held, msg) matches Ok(SysexCapture::Captured(_))
                    && is_dump_message(now_held) {
                    (self.with_dump(now_held.subrange(4, 30)), now_held)
                } else {
                    (self, now_held)
                }
            },
        }
    }

    /// The state and the capture buffer after the first `n` packets of
    /// `packets` have come from the synthesizer.
    pub open spec fn after_synth_packets(self, held: Seq<u8>, packets: Seq<Packet>, n: int) -> (
        ControlModel,
        Seq<u8>,
    )
        decreases n,
    {
        if n <= 0 {
            (self, held)
        } else {
            let before = self.after_synth_packets(held, packets, n - 1);
            before.0.on_synth_packet(before.1, packets[n - 1])
        }
    }

    /// The state after the first `n` packets of `packets` have come from
    /// the controller, and what is to be done, in order. A packet that no
    /// message can be read from, and a message that gives an error, are
    /// passed over.
    pub open spec fn after_controller_packets(self, packets: Seq<Packet>, now: u64, n: int) -> (
        ControlModel,
        Seq<ActionModel>,
    )
        decreases n,
    {
        if n <= 0 {
            (self, Seq::<ActionModel>::empty())
        } else {
            let before = self.after_controller_packets(packets, now, n - 1);
            match MidiMessage::decoded(packets[n - 1]) {
                Err(_) => before,
                Ok(msg) => match before.0.on_message(msg, now) {
                    Err(_) => before,
                    Ok((model, actions)) => (model, before.1 + actions),
                },
            }
        }
    }

    /// The second oscillator moves its parameter to `value`: the program
    /// and the synthesizer follow. Nothing happens unless a parameter is
    /// under modulation.
    pub open spec fn on_modulation(self, value: u8) -> (ControlModel, Seq<ActionModel>) {
        match self.lfo2_param {
            Some(dest) => if self.saved.contains_key(dest.spec_param().spec_code()) {
                self.with_param(dest.spec_param(), value)
            } else {
                (self, Seq::<ActionModel>::empty())
            },
            None => (self, Seq::<ActionModel>::empty()),
        }
    }
}

impl Dw6Control {
    /// Takes a program dump of 26 bytes as the program of the controller,
    /// with the values set aside written back over the parameters under
    /// modulation. Fails with `SysexOutOfBounds`, and changes nothing, on
    /// any other number of bytes.
    pub fn from_dw6000_dump(&mut self, dump: &[u8]) -> (r: Result<(), MidiError>)
        ensures
            dump@.len() == 26 ==> r is Ok && final(self)@ == old(self)@.with_dump(dump@),
            dump@.len() != 26 ==> r is Err && r->Err_0 == MidiError::SysexOutOfBounds,
            dump@.len() != 26 ==> final(self)@ == old(self)@,
    {
        if dump.len() != 26 {
            return Err(MidiError::SysexOutOfBounds);
        }
        let mut program: [u8; 26] = [
            0, 0, 0, 0, 0, 0, 0, 0, 0, 0, 0, 0, 0, 0, 0, 0, 0, 0, 0, 0, 0, 0, 0, 0, 0, 0,
        ];
        let mut i: usize = 0;
        while i < 26
            invariant
                i <= 26,
                dump@.len() == 26,
                forall|k: int| 0 <= k < i ==> program@[k] == dump@[k],
            decreases 26 - i,
        {
            program[i] = dump[i];
            i += 1;
        }
        assert(program@ =~= dump@);
        let mut code: u8 = 0;
        while code < 35
            invariant
                code <= 35,
                program@ == restored(dump@, self.mod_dump@, code as int),
                program@.len() == 26,
                *self == *old(self),
            decreases 35 - code,
        {
            if let Some(root) = self.mod_dump.get(code) {
                if let Some(param) = Dw6Param::from_code(code) {
                    let _ = set_param_value(param, root, &mut program);
                }
            }
            code += 1;
        }
        self.current_dump = Some(program);
        Ok(())
    }

    /// Takes the packets that have come from the synthesizer, gathering
    /// system-exclusive messages in `buffer`.
    pub fn packets_from_dw_6000(&mut self, buffer: &mut heapless::Vec<u8, 64>, packets: &[Packet])
        ensures
            final(self)@ == old(self)@.after_synth_packets(
                sysex_bytes(*old(buffer)),
                packets@,
                packets@.len() as int,
            ).0,
            sysex_bytes(*final(buffer)) == old(self)@.after_synth_packets(
                sysex_bytes(*old(buffer)),
                packets@,
                packets@.len() as int,
            ).1,
    {
        let mut n: usize = 0;
        while n < packets.len()
            invariant
                n <= packets@.len(),
                self@ == old(self)@.after_synth_packets(
                    sysex_bytes(*old(buffer)),
                    packets@,
                    n as int,
                ).0,
                sysex_bytes(*buffer) == old(self)@.after_synth_packets(
                    sysex_bytes(*old(buffer)),
                    packets@,
                    n as int,
                ).1,
            decreases packets@.len() - n,
        {
            if let Ok(msg) = MidiMessage::decode(packets[n]) {
                if let Ok(SysexCapture::Captured(_)) = capture_sysex(buffer, msg) {
                    let payload = bytes_as_slice(buffer);
                    if let Some(offset) = find_dump(payload) {
                        let _ = self.from_dw6000_dump(slice_subrange(payload, offset, offset + 26));
                    }
                }
            }
            n += 1;
        }
    }

    /// Takes the packets that have come from the controller. Returns what
    /// is to be done, in order.
    pub fn packets_from_beatstep(&mut self, packets: &[Packet], now_ms: u64) -> (r: Vec<Dw6Action>)
        ensures
            final(self)@ == old(self)@.after_controller_packets(
                packets@,
                now_ms,
                packets@.len() as int,
            ).0,
            actions_view(r@) == old(self)@.after_controller_packets(
                packets@,
                now_ms,
                packets@.len() as int,
            ).1,
            forall|i: int| 0 <= i < r@.len() ==> r@[i].fresh(),
    {
        let mut all: Vec<Dw6Action> = Vec::new();
        let mut n: usize = 0;
        assert(actions_view(all@) =~= Seq::<ActionModel>::empty());
        while n < packets.len()
            invariant
                n <= packets@.len(),
                self@ == old(self)@.after_controller_packets(packets@, now_ms, n as int).0,
                actions_view(all@) == old(self)@.after_controller_packets(
                    packets@,
                    now_ms,
                    n as int,
                ).1,
                forall|i: int| 0 <= i < all@.len() ==> all@[i].fresh(),
            decreases packets@.len() - n,
        {
            if let Ok(msg) = MidiMessage::decode(packets[n]) {
                if let Ok(actions) = self.msg_from_beatstep(msg, now_ms) {
                    let mut actions = actions;
                    let ghost before = all@;
                    let ghost added = actions@;
                    all.append(&mut actions);
                    assert(all@ =~= before + added);
                    assert(actions_view(all@) =~= actions_view(before) + actions_view(added));
                }
            }
            n += 1;
        }
        all
    }

    /// The parameter under modulation with its largest value and the value
    /// it had before the modulation began, if one is under modulation.
    pub fn modulation_target(&self) -> (r: Option<(Dw6Param, u8, u8)>)
        ensures
            r == match self@.lfo2_param {
                Some(dest) => if self@.saved.contains_key(dest.spec_param().spec_code()) {
                    Some(
                        (
                            dest.spec_param(),
                            dest.spec_param().spec_max_value(),
                            self@.saved[dest.spec_param().spec_code()],
                        ),
                    )
                } else {
                    None
                },
                None => None,
            },
    {
        match self.lfo2_param {
            Some(dest) => {
                let param = Dw6Param::from(dest);
                match self.mod_dump.get(param.code()) {
                    Some(root) => Some((param, param.max_value(), root)),
                    None => None,
                }
            },
            None => None,
        }
    }

    /// Moves the parameter under modulation to `value`. Returns what is to
    /// be done.
    pub fn modulate(&mut self, value: u8) -> (r: Vec<Dw6Action>)
        ensures
            final(self)@ == old(self)@.on_modulation(value).0,
            actions_view(r@) == old(self)@.on_modulation(value).1,
            forall|i: int| 0 <= i < r@.len() ==> r@[i].fresh(),
    {
        let mut actions: Vec<Dw6Action> = Vec::new();
        assert(actions_view(actions@) =~= Seq::<ActionModel>::empty());
        if let Some((param, _, _)) = self.modulation_target() {
            self.apply_param(param, value, &mut actions);
            assert(actions_view(actions@) =~= old(self)@.on_modulation(value).1);
        }
        actions
    }
}

} // verus!

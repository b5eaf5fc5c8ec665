//! The Korg DW-6000 synthesizer: its system-exclusive messages and the
//! layout of its program dump.
//!
//! A program dump is 26 bytes. Most bytes hold one parameter in their low
//! bits; some hold a second one above it. Each parameter is read and written
//! by the index of its byte, the position of its lowest bit and its largest
//! value, which is also the mask of its bits.

use vstd::prelude::*;
use crate::error::MidiError;
use crate::sysex::{ExpType, PatternExp, SysexSeq};

verus! {

/// Manufacturer number of Korg.
pub const KORG: u8 = 0x42;

/// Model number of the DW-6000.
pub const DW_6000_ID: u8 = 0x04;

pub const ID_FORMAT: u8 = 0x40;

pub const DATA_FORMAT: u8 = 0x30;

pub const WRITE_OK: u8 = 0x21;

pub const WRITE_ERR: u8 = 0x22;

/// DW6000 patch dump is 26 bytes sysex
pub const DUMP_LENGTH: usize = 26;

/// The bytes that open a request for identification.
pub open spec fn id_header() -> Seq<u8> {
    seq![0x42, 0x40]
}

/// The bytes that open every message on program data.
pub open spec fn data_header() -> Seq<u8> {
    seq![0x42, 0x30, 0x04]
}

/// A parameter of a program.
#[derive(Debug, Copy, Clone, Eq, PartialEq, Hash, Structural)]
pub enum Dw6Param {
    Osc1Wave,
    Osc1Level,
    Osc1Octave,
    Osc2Wave,
    Osc2Level,
    Osc2Octave,
    Osc2Detune,
    Interval,
    Noise,
    Cutoff,
    Resonance,
    VcfInt,
    VcfAttack,
    VcfDecay,
    VcfBreak,
    VcfSlope,
    VcfSustain,
    VcfRelease,
    VcaAttack,
    VcaDecay,
    VcaBreak,
    VcaSlope,
    VcaSustain,
    VcaRelease,
    BendVcf,
    BendOsc,
    AssignMode,
    Portamento,
    MgFreq,
    MgDelay,
    MgOsc,
    MgVcf,
    KbdTrack,
    Polarity,
    Chorus,
}

/// The value that the bits of `byte` from `shift` up hold under `mask`.
pub open spec fn field_get(byte: u8, shift: u8, mask: u8) -> u8 {
    (byte >> shift) & mask
}

/// The byte that agrees with `byte` but for the bits from `shift` up under
/// `mask`, which hold `value`, cut to the mask.
pub open spec fn field_set(byte: u8, shift: u8, mask: u8, value: u8) -> u8 {
    (byte & !(mask << shift)) | ((value & mask) << shift)
}

impl Dw6Param {
    /// The number of the parameter, by its place in the list of parameters.
    pub open spec fn spec_code(&self) -> u8 {
        match self {
            Dw6Param::Osc1Wave => 0,
            Dw6Param::Osc1Level => 1,
            Dw6Param::Osc1Octave => 2,
            Dw6Param::Osc2Wave => 3,
            Dw6Param::Osc2Level => 4,
            Dw6Param::Osc2Octave => 5,
            Dw6Param::Osc2Detune => 6,
            Dw6Param::Interval => 7,
            Dw6Param::Noise => 8,
            Dw6Param::Cutoff => 9,
            Dw6Param::Resonance => 10,
            Dw6Param::VcfInt => 11,
            Dw6Param::VcfAttack => 12,
            Dw6Param::VcfDecay => 13,
            Dw6Param::VcfBreak => 14,
            Dw6Param::VcfSlope => 15,
            Dw6Param::VcfSustain => 16,
            Dw6Param::VcfRelease => 17,
            Dw6Param::VcaAttack => 18,
            Dw6Param::VcaDecay => 19,
            Dw6Param::VcaBreak => 20,
            Dw6Param::VcaSlope => 21,
            Dw6Param::VcaSustain => 22,
            Dw6Param::VcaRelease => 23,
            Dw6Param::BendVcf => 24,
            Dw6Param::BendOsc => 25,
            Dw6Param::AssignMode => 26,
            Dw6Param::Portamento => 27,
            Dw6Param::MgFreq => 28,
            Dw6Param::MgDelay => 29,
            Dw6Param::MgOsc => 30,
            Dw6Param::MgVcf => 31,
            Dw6Param::KbdTrack => 32,
            Dw6Param::Polarity => 33,
            Dw6Param::Chorus => 34,
        }
    }

    /// The parameter with the number `code`, if there is one.
    pub open spec fn of_code(code: u8) -> Option<Dw6Param> {
        match code {
            0 => Some(Dw6Param::Osc1Wave),
            1 => Some(Dw6Param::Osc1Level),
            2 => Some(Dw6Param::Osc1Octave),
            3 => Some(Dw6Param::Osc2Wave),
            4 => Some(Dw6Param::Osc2Level),
            5 => Some(Dw6Param::Osc2Octave),
            6 => Some(Dw6Param::Osc2Detune),
            7 => Some(Dw6Param::Interval),
            8 => Some(Dw6Param::Noise),
            9 => Some(Dw6Param::Cutoff),
            10 => Some(Dw6Param::Resonance),
            11 => Some(Dw6Param::VcfInt),
            12 => Some(Dw6Param::VcfAttack),
            13 => Some(Dw6Param::VcfDecay),
            14 => Some(Dw6Param::VcfBreak),
            15 => Some(Dw6Param::VcfSlope),
            16 => Some(Dw6Param::VcfSustain),
            17 => Some(Dw6Param::VcfRelease),
            18 => Some(Dw6Param::VcaAttack),
            19 => Some(Dw6Param::VcaDecay),
            20 => Some(Dw6Param::VcaBreak),
            21 => Some(Dw6Param::VcaSlope),
            22 => Some(Dw6Param::VcaSustain),
            23 => Some(Dw6Param::VcaRelease),
            24 => Some(Dw6Param::BendVcf),
            25 => Some(Dw6Param::BendOsc),
            26 => Some(Dw6Param::AssignMode),
            27 => Some(Dw6Param::Portamento),
            28 => Some(Dw6Param::MgFreq),
            29 => Some(Dw6Param::MgDelay),
            30 => Some(Dw6Param::MgOsc),
            31 => Some(Dw6Param::MgVcf),
            32 => Some(Dw6Param::KbdTrack),
            33 => Some(Dw6Param::Polarity),
            34 => Some(Dw6Param::Chorus),
            _ => None,
        }
    }

    #[verifier::when_used_as_spec(spec_code)]
    pub fn code(&self) -> (r: u8)
        ensures
            r == self.spec_code(),
            r < 35,
            Dw6Param::of_code(r) == Some(*self),
    {
        match self {
            Dw6Param::Osc1Wave => 0,
            Dw6Param::Osc1Level => 1,
            Dw6Param::Osc1Octave => 2,
            Dw6Param::Osc2Wave => 3,
            Dw6Param::Osc2Level => 4,
            Dw6Param::Osc2Octave => 5,
            Dw6Param::Osc2Detune => 6,
            Dw6Param::Interval => 7,
            Dw6Param::Noise => 8,
            Dw6Param::Cutoff => 9,
            Dw6Param::Resonance => 10,
            Dw6Param::VcfInt => 11,
            Dw6Param::VcfAttack => 12,
            Dw6Param::VcfDecay => 13,
            Dw6Param::VcfBreak => 14,
            Dw6Param::VcfSlope => 15,
            Dw6Param::VcfSustain => 16,
            Dw6Param::VcfRelease => 17,
            Dw6Param::VcaAttack => 18,
            Dw6Param::VcaDecay => 19,
            Dw6Param::VcaBreak => 20,
            Dw6Param::VcaSlope => 21,
            Dw6Param::VcaSustain => 22,
            Dw6Param::VcaRelease => 23,
            Dw6Param::BendVcf => 24,
            Dw6Param::BendOsc => 25,
            Dw6Param::AssignMode => 26,
            Dw6Param::Portamento => 27,
            Dw6Param::MgFreq => 28,
            Dw6Param::MgDelay => 29,
            Dw6Param::MgOsc => 30,
            Dw6Param::MgVcf => 31,
            Dw6Param::KbdTrack => 32,
            Dw6Param::Polarity => 33,
            Dw6Param::Chorus => 34,
        }
    }

    /// The parameter with the number `code`: some parameter exactly for the
    /// numbers below 35.
    pub fn from_code(code: u8) -> (r: Option<Dw6Param>)
        ensures
            r == Dw6Param::of_code(code),
            r is Some <==> code < 35,
            r is Some ==> r->Some_0.spec_code() == code,
    {
        match code {
            0 => Some(Dw6Param::Osc1Wave),
            1 => Some(Dw6Param::Osc1Level),
            2 => Some(Dw6Param::Osc1Octave),
            3 => Some(Dw6Param::Osc2Wave),
            4 => Some(Dw6Param::Osc2Level),
            5 => Some(Dw6Param::Osc2Octave),
            6 => Some(Dw6Param::Osc2Detune),
            7 => Some(Dw6Param::Interval),
            8 => Some(Dw6Param::Noise),
            9 => Some(Dw6Param::Cutoff),
            10 => Some(Dw6Param::Resonance),
            11 => Some(Dw6Param::VcfInt),
            12 => Some(Dw6Param::VcfAttack),
            13 => Some(Dw6Param::VcfDecay),
            14 => Some(Dw6Param::VcfBreak),
            15 => Some(Dw6Param::VcfSlope),
            16 => Some(Dw6Param::VcfSustain),
            17 => Some(Dw6Param::VcfRelease),
            18 => Some(Dw6Param::VcaAttack),
            19 => Some(Dw6Param::VcaDecay),
            20 => Some(Dw6Param::VcaBreak),
            21 => Some(Dw6Param::VcaSlope),
            22 => Some(Dw6Param::VcaSustain),
            23 => Some(Dw6Param::VcaRelease),
            24 => Some(Dw6Param::BendVcf),
            25 => Some(Dw6Param::BendOsc),
            26 => Some(Dw6Param::AssignMode),
            27 => Some(Dw6Param::Portamento),
            28 => Some(Dw6Param::MgFreq),
            29 => Some(Dw6Param::MgDelay),
            30 => Some(Dw6Param::MgOsc),
            31 => Some(Dw6Param::MgVcf),
            32 => Some(Dw6Param::KbdTrack),
            33 => Some(Dw6Param::Polarity),
            34 => Some(Dw6Param::Chorus),
            _ => None,
        }
    }

    /// The largest value of the parameter.
    pub open spec fn spec_max_value(&self) -> u8 {
        match self {
            Dw6Param::BendVcf | Dw6Param::Polarity | Dw6Param::Chorus => 1,
            Dw6Param::Osc1Octave | Dw6Param::Osc2Octave | Dw6Param::AssignMode
            | Dw6Param::KbdTrack => 3,
            Dw6Param::Osc1Wave | Dw6Param::Osc2Wave | Dw6Param::Osc2Detune | Dw6Param::Interval => 7,
            Dw6Param::BendOsc => 15,
            Dw6Param::Osc1Level | Dw6Param::Osc2Level | Dw6Param::Noise | Dw6Param::Resonance
            | Dw6Param::VcfInt | Dw6Param::VcfAttack | Dw6Param::VcfDecay | Dw6Param::VcfBreak
            | Dw6Param::VcfSlope | Dw6Param::VcfSustain | Dw6Param::VcfRelease
            | Dw6Param::VcaAttack | Dw6Param::VcaDecay | Dw6Param::VcaBreak | Dw6Param::VcaSlope
            | Dw6Param::VcaSustain | Dw6Param::VcaRelease | Dw6Param::Portamento
            | Dw6Param::MgFreq | Dw6Param::MgDelay | Dw6Param::MgOsc | Dw6Param::MgVcf => 31,
            Dw6Param::Cutoff => 63,
        }
    }

    /// The index of the byte of a dump that holds the parameter.
    pub open spec fn spec_dump_index(&self) -> usize {
        match self {
            Dw6Param::BendOsc | Dw6Param::AssignMode => 0,
            Dw6Param::Portamento => 1,
            Dw6Param::Osc1Level => 2,
            Dw6Param::Osc2Level => 3,
            Dw6Param::Noise => 4,
            Dw6Param::Cutoff => 5,
            Dw6Param::Resonance => 6,
            Dw6Param::VcfInt => 7,
            Dw6Param::VcfAttack => 8,
            Dw6Param::VcfDecay => 9,
            Dw6Param::VcfBreak => 10,
            Dw6Param::VcfSlope => 11,
            Dw6Param::VcfSustain => 12,
            Dw6Param::VcfRelease => 13,
            Dw6Param::VcaAttack => 14,
            Dw6Param::VcaDecay => 15,
            Dw6Param::VcaBreak => 16,
            Dw6Param::VcaSlope => 17,
            Dw6Param::VcaSustain | Dw6Param::BendVcf => 18,
            Dw6Param::Osc1Octave | Dw6Param::VcaRelease => 19,
            Dw6Param::Osc2Octave | Dw6Param::MgFreq => 20,
            Dw6Param::MgDelay | Dw6Param::KbdTrack => 21,
            Dw6Param::MgOsc | Dw6Param::Polarity => 22,
            Dw6Param::MgVcf | Dw6Param::Chorus => 23,
            Dw6Param::Osc1Wave | Dw6Param::Osc2Wave => 24,
            Dw6Param::Osc2Detune | Dw6Param::Interval => 25,
        }
    }

    /// The position of the lowest bit of the parameter in its byte.
    pub open spec fn spec_shift(&self) -> u8 {
        match self {
            Dw6Param::Osc1Level | Dw6Param::Osc2Wave | Dw6Param::Osc2Level
            | Dw6Param::Osc2Detune | Dw6Param::Noise | Dw6Param::Cutoff | Dw6Param::Resonance
            | Dw6Param::VcfInt | Dw6Param::VcfAttack | Dw6Param::VcfDecay | Dw6Param::VcfBreak
            | Dw6Param::VcfSlope | Dw6Param::VcfSustain | Dw6Param::VcfRelease
            | Dw6Param::VcaAttack | Dw6Param::VcaDecay | Dw6Param::VcaBreak | Dw6Param::VcaSlope
            | Dw6Param::VcaSustain | Dw6Param::VcaRelease | Dw6Param::BendOsc
            | Dw6Param::Portamento | Dw6Param::MgFreq | Dw6Param::MgDelay | Dw6Param::MgOsc
            | Dw6Param::MgVcf => 0,
            Dw6Param::Osc1Wave | Dw6Param::Interval => 3,
            Dw6Param::AssignMode => 4,
            Dw6Param::Osc1Octave | Dw6Param::Osc2Octave | Dw6Param::BendVcf | Dw6Param::KbdTrack
            | Dw6Param::Polarity | Dw6Param::Chorus => 5,
        }
    }

    /// The value of the parameter in a dump, where the dump reaches its
    /// byte.
    pub open spec fn read(self, dump: Seq<u8>) -> Result<u8, MidiError> {
        if self.spec_dump_index() < dump.len() {
            Ok(field_get(dump[self.spec_dump_index() as int], self.spec_shift(), self.spec_max_value()))
        } else {
            Err(MidiError::SysexOutOfBounds)
        }
    }

    /// The dump after the parameter was set to `value`, cut to its bits.
    pub open spec fn written(self, dump: Seq<u8>, value: u8) -> Seq<u8> {
        dump.update(
            self.spec_dump_index() as int,
            field_set(
                dump[self.spec_dump_index() as int],
                self.spec_shift(),
                self.spec_max_value(),
                value,
            ),
        )
    }

    #[verifier::when_used_as_spec(spec_max_value)]
    pub fn max_value(&self) -> (r: u8)
        ensures
            r == self.spec_max_value(),
    {
        match self {
            Dw6Param::BendVcf | Dw6Param::Polarity | Dw6Param::Chorus => 1,
            Dw6Param::Osc1Octave | Dw6Param::Osc2Octave | Dw6Param::AssignMode
            | Dw6Param::KbdTrack => 3,
            Dw6Param::Osc1Wave | Dw6Param::Osc2Wave | Dw6Param::Osc2Detune | Dw6Param::Interval => 7,
            Dw6Param::BendOsc => 15,
            Dw6Param::Osc1Level | Dw6Param::Osc2Level | Dw6Param::Noise | Dw6Param::Resonance
            | Dw6Param::VcfInt | Dw6Param::VcfAttack | Dw6Param::VcfDecay | Dw6Param::VcfBreak
            | Dw6Param::VcfSlope | Dw6Param::VcfSustain | Dw6Param::VcfRelease
            | Dw6Param::VcaAttack | Dw6Param::VcaDecay | Dw6Param::VcaBreak | Dw6Param::VcaSlope
            | Dw6Param::VcaSustain | Dw6Param::VcaRelease | Dw6Param::Portamento
            | Dw6Param::MgFreq | Dw6Param::MgDelay | Dw6Param::MgOsc | Dw6Param::MgVcf => 31,
            Dw6Param::Cutoff => 63,
        }
    }

    #[verifier::when_used_as_spec(spec_dump_index)]
    pub fn dump_index(&self) -> (r: usize)
        ensures
            r == self.spec_dump_index(),
            r < DUMP_LENGTH,
    {
        match self {
            Dw6Param::BendOsc | Dw6Param::AssignMode => 0,
            Dw6Param::Portamento => 1,
            Dw6Param::Osc1Level => 2,
            Dw6Param::Osc2Level => 3,
            Dw6Param::Noise => 4,
            Dw6Param::Cutoff => 5,
            Dw6Param::Resonance => 6,
            Dw6Param::VcfInt => 7,
            Dw6Param::VcfAttack => 8,
            Dw6Param::VcfDecay => 9,
            Dw6Param::VcfBreak => 10,
            Dw6Param::VcfSlope => 11,
            Dw6Param::VcfSustain => 12,
            Dw6Param::VcfRelease => 13,
            Dw6Param::VcaAttack => 14,
            Dw6Param::VcaDecay => 15,
            Dw6Param::VcaBreak => 16,
            Dw6Param::VcaSlope => 17,
            Dw6Param::VcaSustain | Dw6Param::BendVcf => 18,
            Dw6Param::Osc1Octave | Dw6Param::VcaRelease => 19,
            Dw6Param::Osc2Octave | Dw6Param::MgFreq => 20,
            Dw6Param::MgDelay | Dw6Param::KbdTrack => 21,
            Dw6Param::MgOsc | Dw6Param::Polarity => 22,
            Dw6Param::MgVcf | Dw6Param::Chorus => 23,
            Dw6Param::Osc1Wave | Dw6Param::Osc2Wave => 24,
            Dw6Param::Osc2Detune | Dw6Param::Interval => 25,
        }
    }

    /// The position of the lowest bit of the parameter in its byte.
    #[verifier::when_used_as_spec(spec_shift)]
    pub fn shift(&self) -> (r: u8)
        ensures
            r == self.spec_shift(),
            r <= 5,
    {
        match self {
            Dw6Param::Osc1Level | Dw6Param::Osc2Wave | Dw6Param::Osc2Level
            | Dw6Param::Osc2Detune | Dw6Param::Noise | Dw6Param::Cutoff | Dw6Param::Resonance
            | Dw6Param::VcfInt | Dw6Param::VcfAttack | Dw6Param::VcfDecay | Dw6Param::VcfBreak
            | Dw6Param::VcfSlope | Dw6Param::VcfSustain | Dw6Param::VcfRelease
            | Dw6Param::VcaAttack | Dw6Param::VcaDecay | Dw6Param::VcaBreak | Dw6Param::VcaSlope
            | Dw6Param::VcaSustain | Dw6Param::VcaRelease | Dw6Param::BendOsc
            | Dw6Param::Portamento | Dw6Param::MgFreq | Dw6Param::MgDelay | Dw6Param::MgOsc
            | Dw6Param::MgVcf => 0,
            Dw6Param::Osc1Wave | Dw6Param::Interval => 3,
            Dw6Param::AssignMode => 4,
            Dw6Param::Osc1Octave | Dw6Param::Osc2Octave | Dw6Param::BendVcf | Dw6Param::KbdTrack
            | Dw6Param::Polarity | Dw6Param::Chorus => 5,
        }
    }

    /// The byte of the dump that holds the parameter, with whatever else it
    /// holds. Fails with `SysexOutOfBounds` where the dump does not reach
    /// it.
    pub fn dump_value(&self, dump_buf: &[u8]) -> (r: Result<u8, MidiError>)
        ensures
            self.spec_dump_index() < dump_buf@.len() ==> r == Ok::<u8, MidiError>(
                dump_buf@[self.spec_dump_index() as int],
            ),
            self.spec_dump_index() >= dump_buf@.len() ==> r == Err::<u8, MidiError>(
                MidiError::SysexOutOfBounds,
            ),
    {
        let index = self.dump_index();
        if index < dump_buf.len() {
            Ok(dump_buf[index])
        } else {
            Err(MidiError::SysexOutOfBounds)
        }
    }
}

/// Reads a parameter from a program dump. Fails with `SysexOutOfBounds`
/// where the dump does not reach the byte of the parameter.
pub fn get_param_value(param: Dw6Param, dump_buf: &[u8]) -> (r: Result<u8, MidiError>)
    ensures
        r == param.read(dump_buf@),
{
    let index = param.dump_index();
    if index < dump_buf.len() {
        Ok((dump_buf[index] >> param.shift()) & param.max_value())
    } else {
        Err(MidiError::SysexOutOfBounds)
    }
}

/// Writes a parameter into a program dump. Bits of `value` above the
/// largest value of the parameter are dropped. Fails with
/// `SysexOutOfBounds`, and changes nothing, where the dump does not reach
/// the byte of the parameter.
pub fn set_param_value(param: Dw6Param, value: u8, dump_buf: &mut [u8]) -> (r: Result<(), MidiError>)
    ensures
        param.spec_dump_index() < old(dump_buf)@.len() ==> r is Ok && final(dump_buf)@
            == param.written(old(dump_buf)@, value),
        param.spec_dump_index() >= old(dump_buf)@.len() ==> r == Err::<(), MidiError>(
            MidiError::SysexOutOfBounds,
        ) && final(dump_buf)@ == old(dump_buf)@,
{
    let index = param.dump_index();
    if index >= dump_buf.len() {
        return Err(MidiError::SysexOutOfBounds);
    }
    let shift = param.shift();
    let mask = param.max_value();
    let byte = dump_buf[index];
    let keep = byte & !(mask << shift);
    let put = (value & mask) << shift;
    dump_buf[index] = keep | put;
    Ok(())
}

/// A parameter that was written reads back as the value written, cut to the
/// bits of the parameter.
pub proof fn lemma_read_after_write(param: Dw6Param, dump: Seq<u8>, value: u8)
    requires
        param.spec_dump_index() < dump.len(),
    ensures
        param.read(param.written(dump, value)) == Ok::<u8, MidiError>(value & param.spec_max_value()),
        value <= param.spec_max_value() ==> param.read(param.written(dump, value)) == Ok::<
            u8,
            MidiError,
        >(value),
{
    let byte = dump[param.spec_dump_index() as int];
    let shift = param.spec_shift();
    let mask = param.spec_max_value();
    assert((shift == 0 && (mask == 7 || mask == 15 || mask == 31 || mask == 63)) || (shift == 3
        && mask == 7) || (shift == 4 && mask == 3) || (shift == 5 && (mask == 1 || mask == 3)));
    assert(field_get(field_set(byte, shift, mask, value), shift, mask) == value & mask && (value
        <= mask ==> value & mask == value)) by (bit_vector)
        requires
            (shift == 0 && (mask == 7 || mask == 15 || mask == 31 || mask == 63)) || (shift == 3
                && mask == 7) || (shift == 4 && mask == 3) || (shift == 5 && (mask == 1 || mask
                == 3)),
    ;
}

/// Writing a parameter leaves every other parameter as it was, also the one
/// that shares its byte.
pub proof fn lemma_write_keeps_others(param: Dw6Param, other: Dw6Param, dump: Seq<u8>, value: u8)
    requires
        param != other,
        param.spec_dump_index() < dump.len(),
    ensures
        other.read(param.written(dump, value)) == other.read(dump),
        param.written(dump, value).len() == dump.len(),
{
    if param.spec_dump_index() == other.spec_dump_index() {
        let byte = dump[param.spec_dump_index() as int];
        let s = param.spec_shift();
        let m = param.spec_max_value();
        let t = other.spec_shift();
        let n = other.spec_max_value();
        assert((s == 0 && m == 15 && t == 4 && n == 3) || (s == 4 && m == 3 && t == 0 && n == 15)
            || (s == 0 && m == 31 && t == 5 && (n == 1 || n == 3)) || (s == 5 && (m == 1 || m == 3)
            && t == 0 && n == 31) || (s == 0 && m == 7 && t == 3 && n == 7) || (s == 3 && m == 7
            && t == 0 && n == 7));
        assert(field_get(field_set(byte, s, m, value), t, n) == field_get(byte, t, n))
            by (bit_vector)
            requires
                (s == 0 && m == 15 && t == 4 && n == 3) || (s == 4 && m == 3 && t == 0 && n == 15)
                    || (s == 0 && m == 31 && t == 5 && (n == 1 || n == 3)) || (s == 5 && (m == 1
                    || m == 3) && t == 0 && n == 31) || (s == 0 && m == 7 && t == 3 && n == 7) || (s
                    == 3 && m == 7 && t == 0 && n == 7),
        ;
    }
}

/// The message that asks the device to identify itself.
pub fn id_request_sysex() -> (r: SysexSeq)
    ensures
        r.spec_bytes() == id_header(),
        r.spec_pos() == 0,
        !r.spec_done(),
{
    let mut sysex = SysexSeq::new();
    let bytes = [KORG, ID_FORMAT];
    assert(bytes@ =~= id_header());
    sysex.extend_from_slice(&bytes);
    assert(sysex.spec_bytes() =~= id_header());
    sysex
}

/// The message that asks the device to write its edit buffer to a program.
pub fn write_program_sysex(program: u8) -> (r: SysexSeq)
    ensures
        r.spec_bytes() == data_header() + seq![0x11u8, program],
        r.spec_pos() == 0,
        !r.spec_done(),
{
    let mut sysex = SysexSeq::new();
    let bytes = [KORG, DATA_FORMAT, DW_6000_ID, 0x11, program];
    assert(bytes@ =~= data_header() + seq![0x11u8, program]);
    sysex.extend_from_slice(&bytes);
    assert(sysex.spec_bytes() =~= data_header() + seq![0x11u8, program]);
    sysex
}

/// The message that loads a program dump into the device. There is none
/// where the dump is too long for a message.
pub fn load_program_sysex(dump: &[u8]) -> (r: Option<SysexSeq>)
    ensures
        r is Some <==> dump@.len() <= 61,
        r is Some ==> r->Some_0.spec_bytes() == data_header() + dump@ && r->Some_0.spec_pos() == 0
            && !r->Some_0.spec_done(),
{
    let mut sysex = SysexSeq::new();
    let bytes = [KORG, DATA_FORMAT, DW_6000_ID];
    assert(bytes@ =~= data_header());
    sysex.extend_from_slice(&bytes);
    assert(sysex.spec_bytes() =~= data_header());
    if sysex.try_extend_from_slice(dump) {
        Some(sysex)
    } else {
        None
    }
}

/// The message that sets the byte of the edit buffer at `param` to `value`.
pub fn set_parameter_sysex(param: u8, value: u8) -> (r: SysexSeq)
    ensures
        r.spec_bytes() == data_header() + seq![0x41u8, param, value],
        r.spec_pos() == 0,
        !r.spec_done(),
{
    let mut sysex = SysexSeq::new();
    let bytes = [KORG, DATA_FORMAT, DW_6000_ID, 0x41, param, value];
    assert(bytes@ =~= data_header() + seq![0x41u8, param, value]);
    sysex.extend_from_slice(&bytes);
    assert(sysex.spec_bytes() =~= data_header() + seq![0x41u8, param, value]);
    sysex
}

/// The message that asks the device for a dump of its edit buffer.
pub fn dump_request_sysex() -> (r: SysexSeq)
    ensures
        r.spec_bytes() == data_header() + seq![0x10u8],
        r.spec_pos() == 0,
        !r.spec_done(),
{
    let mut sysex = SysexSeq::new();
    let bytes = [KORG, DATA_FORMAT, DW_6000_ID, 0x10];
    assert(bytes@ =~= data_header() + seq![0x10u8]);
    sysex.extend_from_slice(&bytes);
    assert(sysex.spec_bytes() =~= data_header() + seq![0x10u8]);
    sysex
}

/// The pattern of the answer to a request for identification.
pub fn id_matcher() -> (r: [PatternExp; 2])
    ensures
        r@[0] matches PatternExp::Match(s) && s@ == id_header(),
        r@[1] == PatternExp::Val(0x04),
{
    let header: &'static [u8] = &[0x42, 0x40];
    assert(header@ =~= id_header());
    [PatternExp::Match(header), PatternExp::Val(DW_6000_ID)]
}

/// The pattern of the answer to a request to write a program: the header,
/// then the outcome.
pub fn write_matcher() -> (r: [PatternExp; 2])
    ensures
        r@[0] matches PatternExp::Match(s) && s@ == data_header(),
        r@[1] == PatternExp::Cap(ExpType::ValueU7),
{
    let header: &'static [u8] = &[0x42, 0x30, 0x04];
    assert(header@ =~= data_header());
    [PatternExp::Match(header), PatternExp::Cap(ExpType::ValueU7)]
}

/// The pattern of a program dump: the header, the dump code, then the 26
/// bytes of the program.
pub fn dump_matcher() -> (r: [PatternExp; 3])
    ensures
        r@[0] matches PatternExp::Match(s) && s@ == data_header(),
        r@[1] == PatternExp::Val(0x40),
        r@[2] == PatternExp::Cap(ExpType::Bytes(26)),
{
    let header: &'static [u8] = &[0x42, 0x30, 0x04];
    assert(header@ =~= data_header());
    [PatternExp::Match(header), PatternExp::Val(0x40), PatternExp::Cap(ExpType::Bytes(DUMP_LENGTH))]
}

/// The message that sets, in the device, the byte that holds `param` to the
/// byte that the dump holds there. Fails with `SysexOutOfBounds` where the
/// dump does not reach that byte.
pub fn param_set_sysex(param: Dw6Param, dump_buf: &[u8]) -> (r: Result<SysexSeq, MidiError>)
    ensures
        r is Ok <==> param.spec_dump_index() < dump_buf@.len(),
        r is Ok ==> r->Ok_0.spec_bytes() == data_header() + seq![
            0x41u8,
            param.spec_dump_index() as u8,
            dump_buf@[param.spec_dump_index() as int],
        ] && r->Ok_0.spec_pos() == 0 && !r->Ok_0.spec_done(),
        r is Err ==> r->Err_0 == MidiError::SysexOutOfBounds,
{
    match param.dump_value(dump_buf) {
        Ok(value) => Ok(set_parameter_sysex(param.dump_index() as u8, value)),
        Err(e) => Err(e),
    }
}

} // verus!

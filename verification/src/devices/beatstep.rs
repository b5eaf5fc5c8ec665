//! System-exclusive messages that configure an Arturia BeatStep controller.
//!
//! The device takes one setting per record: a header, the number of the
//! parameter, the code of the control it belongs to, and the value.

use vstd::prelude::*;
use crate::bounded::{U4, U7};
use crate::channel::MidiChannel;
use crate::error::MidiError;
use crate::message::{Control, Note, Program};
use crate::sysex::SysexSeq;

verus! {

/// A message long enough for the settings of one parameter.
pub type LongSysex = SysexSeq;

pub type PadNum = u8;

pub type OnValue = U7;

pub type OffValue = U7;

pub type BankLSB = U7;

pub type BankMSB = U7;

pub type StepNum = U4;

/// Rotary encoder number.
pub type KnobNum = U4;

pub type Minimum = U7;

pub type Maximum = U7;

/// Number of the parameter that selects the mode of a control.
pub const MODE: u8 = 0x01;

/// Number of the parameter group that holds the MIDI channels.
pub const MIDI_CHANNEL: u8 = 0x50;

/// Number of the parameter group that holds the response curves.
pub const CURVE: u8 = 0x41;

/// Number of the parameter that holds the note of a sequencer step.
pub const STEP_NOTE: u8 = 0x52;

/// Number of the parameter that holds the on/off flag of a sequencer step.
pub const STEP_ENABLED: u8 = 0x53;

/// Number of the parameter group that holds the sequencer settings.
pub const SEQ: u8 = 0x50;

/// The record that sets parameter `param` of control `control` to `value`:
/// the Arturia and BeatStep identifiers, the command, and the three
/// numbers.
pub open spec fn set_record(param: u8, control: u8, value: u8) -> Seq<u8> {
    seq![0x00, 0x20, 0x6B, 0x7F, 0x42, 0x02, 0x00, param, control, value]
}

/// The record that asks for parameter `param` of control `control`.
pub open spec fn get_record(param: u8, control: u8) -> Seq<u8> {
    seq![0x00, 0x20, 0x6B, 0x7F, 0x42, 0x01, 0x00, param, control]
}

/// Gives the code by which the device knows a control.
pub trait ControlCode {
    /// The code of the control.
    spec fn spec_control_code(&self) -> u8;

    fn control_code(&self) -> (r: u8)
        ensures
            r == self.spec_control_code(),
    ;
}

/// MIDI machine control commands.
#[derive(Debug, Clone, Copy, PartialEq, Eq, Structural)]
pub enum MMC {
    Stop,
    Play,
    DeferredPlay,
    FastForward,
    Rewind,
    RecordStrobe,
    RecordExit,
    RecordReady,
    Pause,
    Eject,
    Chase,
    InListReset,
}

impl MMC {
    /// The number that stands for the value in a message to the device.
    pub open spec fn spec_code(&self) -> u8 {
        match self {
            MMC::Stop => 1,
            MMC::Play => 2,
            MMC::DeferredPlay => 3,
            MMC::FastForward => 4,
            MMC::Rewind => 5,
            MMC::RecordStrobe => 6,
            MMC::RecordExit => 7,
            MMC::RecordReady => 8,
            MMC::Pause => 9,
            MMC::Eject => 10,
            MMC::Chase => 11,
            MMC::InListReset => 12,
        }
    }

    #[verifier::when_used_as_spec(spec_code)]
    pub fn code(&self) -> (r: u8)
        ensures
            r == self.spec_code(),
    {
        match self {
            MMC::Stop => 1,
            MMC::Play => 2,
            MMC::DeferredPlay => 3,
            MMC::FastForward => 4,
            MMC::Rewind => 5,
            MMC::RecordStrobe => 6,
            MMC::RecordExit => 7,
            MMC::RecordReady => 8,
            MMC::Pause => 9,
            MMC::Eject => 10,
            MMC::Chase => 11,
            MMC::InListReset => 12,
        }
    }
}

/// A pad or button of the device.
#[derive(Debug, Clone, Copy, PartialEq, Eq, Structural)]
pub enum Pad {
    Pad(PadNum),
    Start,
    Stop,
    CtrlSeq,
    ExtSync,
    Recall,
    Store,
    Shift,
    Chan,
}

impl ControlCode for Pad {
    /// Numbered pads follow each other from 0x70 on; the count wraps at a
    /// byte.
    open spec fn spec_control_code(&self) -> u8 {
        match self {
            Pad::Pad(num) => ((0x70 + *num) % 256) as u8,
            Pad::Start => 0x70,
            Pad::Stop => 0x58,
            Pad::CtrlSeq => 0x5A,
            Pad::ExtSync => 0x5B,
            Pad::Recall => 0x5C,
            Pad::Store => 0x5D,
            Pad::Shift => 0x5E,
            Pad::Chan => 0x5F,
        }
    }

    fn control_code(&self) -> (r: u8) {
        match self {
            Pad::Pad(num) => if *num <= 0x8F {
                0x70 + *num
            } else {
                *num - 0x90
            },
            Pad::Start => 0x70,
            Pad::Stop => 0x58,
            Pad::CtrlSeq => 0x5A,
            Pad::ExtSync => 0x5B,
            Pad::Recall => 0x5C,
            Pad::Store => 0x5D,
            Pad::Shift => 0x5E,
            Pad::Chan => 0x5F,
        }
    }
}

/// Rotary encoder config
#[derive(Debug, Clone, Copy, PartialEq, Eq, Structural)]
pub enum Encoder {
    Knob(KnobNum),
    JogWheel,
}

impl ControlCode for Encoder {
    open spec fn spec_control_code(&self) -> u8 {
        match self {
            Encoder::Knob(num) => (0x20 + num@) as u8,
            Encoder::JogWheel => 0x30,
        }
    }

    fn control_code(&self) -> (r: u8) {
        match self {
            Encoder::Knob(num) => 0x20 + num.value(),
            Encoder::JogWheel => 0x30,
        }
    }
}

#[derive(Debug, Clone, Copy, PartialEq, Eq, Structural)]
pub enum SwitchMode {
    Toggle,
    Gate,
}

impl SwitchMode {
    /// The number that stands for the value in a message to the device.
    pub open spec fn spec_code(&self) -> u8 {
        match self {
            SwitchMode::Toggle => 0,
            SwitchMode::Gate => 1,
        }
    }

    #[verifier::when_used_as_spec(spec_code)]
    pub fn code(&self) -> (r: u8)
        ensures
            r == self.spec_code(),
    {
        match self {
            SwitchMode::Toggle => 0,
            SwitchMode::Gate => 1,
        }
    }
}

/// The modes of a pad.
#[derive(Debug, Clone, Copy, PartialEq, Eq, Structural)]
pub enum PadMode {
    Off,
    MMC,
    CC,
    CCSilent,
    Note,
    ProgramChange,
}

impl PadMode {
    /// The number that stands for the value in a message to the device.
    pub open spec fn spec_code(&self) -> u8 {
        match self {
            PadMode::Off => 0,
            PadMode::MMC => 7,
            PadMode::CC => 8,
            PadMode::CCSilent => 1,
            PadMode::Note => 9,
            PadMode::ProgramChange => 0x0B,
        }
    }

    #[verifier::when_used_as_spec(spec_code)]
    pub fn code(&self) -> (r: u8)
        ensures
            r == self.spec_code(),
    {
        match self {
            PadMode::Off => 0,
            PadMode::MMC => 7,
            PadMode::CC => 8,
            PadMode::CCSilent => 1,
            PadMode::Note => 9,
            PadMode::ProgramChange => 0x0B,
        }
    }
}

/// The modes of an encoder.
#[derive(Debug, Clone, Copy, PartialEq, Eq, Structural)]
pub enum KnobMode {
    Off,
    CC,
    NRPN,
}

impl KnobMode {
    /// The number that stands for the value in a message to the device.
    pub open spec fn spec_code(&self) -> u8 {
        match self {
            KnobMode::Off => 0,
            KnobMode::CC => 1,
            KnobMode::NRPN => 4,
        }
    }

    #[verifier::when_used_as_spec(spec_code)]
    pub fn code(&self) -> (r: u8)
        ensures
            r == self.spec_code(),
    {
        match self {
            KnobMode::Off => 0,
            KnobMode::CC => 1,
            KnobMode::NRPN => 4,
        }
    }
}

/// base note is C5= 0x3C, to transpose down 12 semitones to C4, nn=0x30 and so on
#[derive(Debug, Clone, Copy, PartialEq, Eq, Structural)]
pub struct SeqTranspose(pub Note);


#[derive(Debug, Clone, Copy, PartialEq, Eq, Structural)]
pub enum SeqScale {
    Chromatic,
    Major,
    Minor,
    Dorian,
    Mixolydian,
    HarmonicMinor,
    Blues,
    User,
}

impl SeqScale {
    /// The number that stands for the value in a message to the device.
    pub open spec fn spec_code(&self) -> u8 {
        match self {
            SeqScale::Chromatic => 0,
            SeqScale::Major => 1,
            SeqScale::Minor => 2,
            SeqScale::Dorian => 3,
            SeqScale::Mixolydian => 4,
            SeqScale::HarmonicMinor => 5,
            SeqScale::Blues => 6,
            SeqScale::User => 7,
        }
    }

    #[verifier::when_used_as_spec(spec_code)]
    pub fn code(&self) -> (r: u8)
        ensures
            r == self.spec_code(),
    {
        match self {
            SeqScale::Chromatic => 0,
            SeqScale::Major => 1,
            SeqScale::Minor => 2,
            SeqScale::Dorian => 3,
            SeqScale::Mixolydian => 4,
            SeqScale::HarmonicMinor => 5,
            SeqScale::Blues => 6,
            SeqScale::User => 7,
        }
    }
}

#[derive(Debug, Clone, Copy, PartialEq, Eq, Structural)]
pub enum SeqMode {
    Forward,
    Reverse,
    Alternating,
    Random,
}

impl SeqMode {
    /// The number that stands for the value in a message to the device.
    pub open spec fn spec_code(&self) -> u8 {
        match self {
            SeqMode::Forward => 0,
            SeqMode::Reverse => 1,
            SeqMode::Alternating => 2,
            SeqMode::Random => 3,
        }
    }

    #[verifier::when_used_as_spec(spec_code)]
    pub fn code(&self) -> (r: u8)
        ensures
            r == self.spec_code(),
    {
        match self {
            SeqMode::Forward => 0,
            SeqMode::Reverse => 1,
            SeqMode::Alternating => 2,
            SeqMode::Random => 3,
        }
    }
}

#[derive(Debug, Clone, Copy, PartialEq, Eq, Structural)]
pub enum SeqStepSize {
    Quarter,
    Eight,
    Sixteenth,
    ThirtyTwat,
}

impl SeqStepSize {
    /// The number that stands for the value in a message to the device.
    pub open spec fn spec_code(&self) -> u8 {
        match self {
            SeqStepSize::Quarter => 0,
            SeqStepSize::Eight => 1,
            SeqStepSize::Sixteenth => 2,
            SeqStepSize::ThirtyTwat => 3,
        }
    }

    #[verifier::when_used_as_spec(spec_code)]
    pub fn code(&self) -> (r: u8)
        ensures
            r == self.spec_code(),
    {
        match self {
            SeqStepSize::Quarter => 0,
            SeqStepSize::Eight => 1,
            SeqStepSize::Sixteenth => 2,
            SeqStepSize::ThirtyTwat => 3,
        }
    }
}

#[derive(Debug, Clone, Copy, PartialEq, Eq, Structural)]
pub struct SeqPatternLength(pub u8);

#[derive(Debug, Clone, Copy, PartialEq, Eq, Structural)]
pub struct SeqSwing(pub u8);

#[derive(Debug, Clone, Copy, PartialEq, Eq, Structural)]
pub struct SeqGateTime(pub u8);


#[derive(Debug, Clone, Copy, PartialEq, Eq, Structural)]
pub enum SeqLegato {
    Off,
    On,
    Reset,
}

impl SeqLegato {
    /// The number that stands for the value in a message to the device.
    pub open spec fn spec_code(&self) -> u8 {
        match self {
            SeqLegato::Off => 0,
            SeqLegato::On => 1,
            SeqLegato::Reset => 2,
        }
    }

    #[verifier::when_used_as_spec(spec_code)]
    pub fn code(&self) -> (r: u8)
        ensures
            r == self.spec_code(),
    {
        match self {
            SeqLegato::Off => 0,
            SeqLegato::On => 1,
            SeqLegato::Reset => 2,
        }
    }
}

#[derive(Debug, Clone, Copy, PartialEq, Eq, Structural)]
pub enum PadSwitchParam {
    Channel,
    Control,
    Off,
    On,
    SwitchMode,
}

impl PadSwitchParam {
    /// The number that stands for the value in a message to the device.
    pub open spec fn spec_code(&self) -> u8 {
        match self {
            PadSwitchParam::Channel => 2,
            PadSwitchParam::Control => 3,
            PadSwitchParam::Off => 4,
            PadSwitchParam::On => 5,
            PadSwitchParam::SwitchMode => 6,
        }
    }

    #[verifier::when_used_as_spec(spec_code)]
    pub fn code(&self) -> (r: u8)
        ensures
            r == self.spec_code(),
    {
        match self {
            PadSwitchParam::Channel => 2,
            PadSwitchParam::Control => 3,
            PadSwitchParam::Off => 4,
            PadSwitchParam::On => 5,
            PadSwitchParam::SwitchMode => 6,
        }
    }
}

#[derive(Debug, Clone, Copy, PartialEq, Eq, Structural)]
pub enum PadNoteParam {
    Channel,
    Note,
    SwitchMode,
}

impl PadNoteParam {
    /// The number that stands for the value in a message to the device.
    pub open spec fn spec_code(&self) -> u8 {
        match self {
            PadNoteParam::Channel => 2,
            PadNoteParam::Note => 3,
            PadNoteParam::SwitchMode => 6,
        }
    }

    #[verifier::when_used_as_spec(spec_code)]
    pub fn code(&self) -> (r: u8)
        ensures
            r == self.spec_code(),
    {
        match self {
            PadNoteParam::Channel => 2,
            PadNoteParam::Note => 3,
            PadNoteParam::SwitchMode => 6,
        }
    }
}

#[derive(Debug, Clone, Copy, PartialEq, Eq, Structural)]
pub enum PadProgramParam {
    Channel,
    Program,
    BankLSB,
    BankMSB,
}

impl PadProgramParam {
    /// The number that stands for the value in a message to the device.
    pub open spec fn spec_code(&self) -> u8 {
        match self {
            PadProgramParam::Channel => 2,
            PadProgramParam::Program => 3,
            PadProgramParam::BankLSB => 4,
            PadProgramParam::BankMSB => 5,
        }
    }

    #[verifier::when_used_as_spec(spec_code)]
    pub fn code(&self) -> (r: u8)
        ensures
            r == self.spec_code(),
    {
        match self {
            PadProgramParam::Channel => 2,
            PadProgramParam::Program => 3,
            PadProgramParam::BankLSB => 4,
            PadProgramParam::BankMSB => 5,
        }
    }
}

#[derive(Debug, Clone, Copy, PartialEq, Eq, Structural)]
pub enum EncoderControlParam {
    Channel,
    Control,
    Minimum,
    Maximum,
    Behavior,
}

impl EncoderControlParam {
    /// The number that stands for the value in a message to the device.
    pub open spec fn spec_code(&self) -> u8 {
        match self {
            EncoderControlParam::Channel => 2,
            EncoderControlParam::Control => 3,
            EncoderControlParam::Minimum => 4,
            EncoderControlParam::Maximum => 5,
            EncoderControlParam::Behavior => 6,
        }
    }

    #[verifier::when_used_as_spec(spec_code)]
    pub fn code(&self) -> (r: u8)
        ensures
            r == self.spec_code(),
    {
        match self {
            EncoderControlParam::Channel => 2,
            EncoderControlParam::Control => 3,
            EncoderControlParam::Minimum => 4,
            EncoderControlParam::Maximum => 5,
            EncoderControlParam::Behavior => 6,
        }
    }
}

#[derive(Debug, Clone, Copy, PartialEq, Eq, Structural)]
pub enum EncoderNRPNParam {
    Channel,
    Granularity,
    Minimum,
    Maximum,
    Behavior,
}

impl EncoderNRPNParam {
    /// The number that stands for the value in a message to the device.
    pub open spec fn spec_code(&self) -> u8 {
        match self {
            EncoderNRPNParam::Channel => 2,
            EncoderNRPNParam::Granularity => 3,
            EncoderNRPNParam::Minimum => 4,
            EncoderNRPNParam::Maximum => 5,
            EncoderNRPNParam::Behavior => 6,
        }
    }

    #[verifier::when_used_as_spec(spec_code)]
    pub fn code(&self) -> (r: u8)
        ensures
            r == self.spec_code(),
    {
        match self {
            EncoderNRPNParam::Channel => 2,
            EncoderNRPNParam::Granularity => 3,
            EncoderNRPNParam::Minimum => 4,
            EncoderNRPNParam::Maximum => 5,
            EncoderNRPNParam::Behavior => 6,
        }
    }
}

#[derive(Debug, Clone, Copy, PartialEq, Eq, Structural)]
pub enum Behavior {
    Absolute,
    RelativeCentered64,
    RelativeCentered0,
    RelativeCentered16,
}

impl Behavior {
    /// The number that stands for the value in a message to the device.
    pub open spec fn spec_code(&self) -> u8 {
        match self {
            Behavior::Absolute => 0,
            Behavior::RelativeCentered64 => 1,
            Behavior::RelativeCentered0 => 2,
            Behavior::RelativeCentered16 => 3,
        }
    }

    #[verifier::when_used_as_spec(spec_code)]
    pub fn code(&self) -> (r: u8)
        ensures
            r == self.spec_code(),
    {
        match self {
            Behavior::Absolute => 0,
            Behavior::RelativeCentered64 => 1,
            Behavior::RelativeCentered0 => 2,
            Behavior::RelativeCentered16 => 3,
        }
    }
}

#[derive(Debug, Clone, Copy, PartialEq, Eq, Structural)]
pub enum Granularity {
    /// Controls MSB
    Coarse,
    /// Controls LSB
    Fine,
}

impl Granularity {
    /// The number that stands for the value in a message to the device.
    pub open spec fn spec_code(&self) -> u8 {
        match self {
            Granularity::Coarse => 0x06,
            Granularity::Fine => 0x26,
        }
    }

    #[verifier::when_used_as_spec(spec_code)]
    pub fn code(&self) -> (r: u8)
        ensures
            r == self.spec_code(),
    {
        match self {
            Granularity::Coarse => 0x06,
            Granularity::Fine => 0x26,
        }
    }
}

#[derive(Debug, Clone, Copy, PartialEq, Eq, Structural)]
pub enum NRPNType {
    NRPN,
    RPN,
}

impl NRPNType {
    /// The number that stands for the value in a message to the device.
    pub open spec fn spec_code(&self) -> u8 {
        match self {
            NRPNType::NRPN => 0,
            NRPNType::RPN => 1,
        }
    }

    #[verifier::when_used_as_spec(spec_code)]
    pub fn code(&self) -> (r: u8)
        ensures
            r == self.spec_code(),
    {
        match self {
            NRPNType::NRPN => 0,
            NRPNType::RPN => 1,
        }
    }
}

#[derive(Debug, Clone, Copy, PartialEq, Eq, Structural)]
pub enum Acceleration {
    Slow,
    Medium,
    Fast,
}

impl Acceleration {
    /// The number that stands for the value in a message to the device.
    pub open spec fn spec_code(&self) -> u8 {
        match self {
            Acceleration::Slow => 0,
            Acceleration::Medium => 1,
            Acceleration::Fast => 2,
        }
    }

    #[verifier::when_used_as_spec(spec_code)]
    pub fn code(&self) -> (r: u8)
        ensures
            r == self.spec_code(),
    {
        match self {
            Acceleration::Slow => 0,
            Acceleration::Medium => 1,
            Acceleration::Fast => 2,
        }
    }
}

#[derive(Debug, Clone, Copy, PartialEq, Eq, Structural)]
pub enum VelocityCurve {
    Linear,
    Logarithmic,
    Exponential,
    Full,
}

impl VelocityCurve {
    /// The number that stands for the value in a message to the device.
    pub open spec fn spec_code(&self) -> u8 {
        match self {
            VelocityCurve::Linear => 0,
            VelocityCurve::Logarithmic => 1,
            VelocityCurve::Exponential => 2,
            VelocityCurve::Full => 3,
        }
    }

    #[verifier::when_used_as_spec(spec_code)]
    pub fn code(&self) -> (r: u8)
        ensures
            r == self.spec_code(),
    {
        match self {
            VelocityCurve::Linear => 0,
            VelocityCurve::Logarithmic => 1,
            VelocityCurve::Exponential => 2,
            VelocityCurve::Full => 3,
        }
    }
}

#[derive(Debug, Clone, Copy, PartialEq, Eq, Structural)]
pub enum SeqGlobal {
    Channel,
    Transpose,
    Scale,
    Mode,
    StepSize,
    PatternLength,
    Swing,
    Gate,
    Legato,
}

impl SeqGlobal {
    /// The number that stands for the value in a message to the device.
    pub open spec fn spec_code(&self) -> u8 {
        match self {
            SeqGlobal::Channel => 1,
            SeqGlobal::Transpose => 2,
            SeqGlobal::Scale => 3,
            SeqGlobal::Mode => 4,
            SeqGlobal::StepSize => 5,
            SeqGlobal::PatternLength => 6,
            SeqGlobal::Swing => 7,
            SeqGlobal::Gate => 8,
            SeqGlobal::Legato => 9,
        }
    }

    #[verifier::when_used_as_spec(spec_code)]
    pub fn code(&self) -> (r: u8)
        ensures
            r == self.spec_code(),
    {
        match self {
            SeqGlobal::Channel => 1,
            SeqGlobal::Transpose => 2,
            SeqGlobal::Scale => 3,
            SeqGlobal::Mode => 4,
            SeqGlobal::StepSize => 5,
            SeqGlobal::PatternLength => 6,
            SeqGlobal::Swing => 7,
            SeqGlobal::Gate => 8,
            SeqGlobal::Legato => 9,
        }
    }
}

/// A setting of the device.
#[derive(Debug, Clone, Copy, PartialEq, Eq)]
pub enum Param {
    PadOff(Pad),
    PadMMC(Pad, MMC),
    PadCC(Pad, MidiChannel, Control, OnValue, OffValue, SwitchMode),
    PadCCSilent(Pad, MidiChannel, Control, OnValue, OffValue, SwitchMode),
    PadNote(Pad, MidiChannel, Note, SwitchMode),
    PadProgramChange(Pad, MidiChannel, Program, BankLSB, BankMSB),
    KnobOff(Encoder),
    KnobCC(Encoder, MidiChannel, Control, Minimum, Maximum, Behavior),
    KnobNRPN(Encoder, MidiChannel, Granularity, BankLSB, BankMSB, NRPNType),
    GlobalMidiChannel(MidiChannel),
    CVGateChannel(MidiChannel),
    KnobAcceleration(Acceleration),
    PadVelocityCurve(VelocityCurve),
    StepNote(StepNum, Note),
    StepEnabled(StepNum, bool),
    SeqChannel(MidiChannel),
    SeqTranspose(SeqTranspose),
    SeqScale(SeqScale),
    SeqMode(SeqMode),
    SeqStepSize(SeqStepSize),
    SeqPatternLength(SeqPatternLength),
    SeqSwing(SeqSwing),
    SeqGate(SeqGateTime),
    SeqLegato(SeqLegato),
}

impl Param {
    /// The bytes of the message that sets the parameter: one record for
    /// each number that the device has to be told, the mode of the control
    /// first.
    pub open spec fn spec_bytes(self) -> Seq<u8> {
        match self {
            Param::PadOff(pad) => set_record(MODE, pad.spec_control_code(), PadMode::Off.code()),
            Param::PadMMC(pad, mmc) => {
                set_record(MODE, pad.spec_control_code(), PadMode::MMC.code())
                + set_record(0x03, pad.spec_control_code(), mmc.code())
            },
            Param::PadCC(pad, channel, cc, on, off, switch) => {
                set_record(MODE, pad.spec_control_code(), PadMode::CC.code())
                + set_record(0x02, pad.spec_control_code(), channel.index())
                + set_record(0x03, pad.spec_control_code(), cc@)
                + set_record(0x04, pad.spec_control_code(), on@)
                + set_record(0x05, pad.spec_control_code(), off@)
                + set_record(0x06, pad.spec_control_code(), switch.code())
            },
            Param::PadCCSilent(pad, channel, cc, on, off, switch) => {
                set_record(MODE, pad.spec_control_code(), PadMode::CCSilent.code())
                + set_record(0x02, pad.spec_control_code(), channel.index())
                + set_record(0x03, pad.spec_control_code(), cc@)
                + set_record(0x04, pad.spec_control_code(), on@)
                + set_record(0x05, pad.spec_control_code(), off@)
                + set_record(0x06, pad.spec_control_code(), switch.code())
            },
            Param::PadNote(pad, channel, note, switch) => {
                set_record(MODE, pad.spec_control_code(), PadMode::Note.code())
                + set_record(0x02, pad.spec_control_code(), channel.index())
                + set_record(0x03, pad.spec_control_code(), note@)
                + set_record(0x06, pad.spec_control_code(), switch.code())
            },
            Param::PadProgramChange(pad, channel, program, lsb, msb) => {
                set_record(MODE, pad.spec_control_code(), PadMode::ProgramChange.code())
                + set_record(0x02, pad.spec_control_code(), channel.index())
                + set_record(0x03, pad.spec_control_code(), program@)
                + set_record(0x04, pad.spec_control_code(), lsb@)
                + set_record(0x05, pad.spec_control_code(), msb@)
            },
            Param::KnobOff(knob) => {
                set_record(MODE, knob.spec_control_code(), KnobMode::Off.code())
            },
            Param::KnobCC(encoder, channel, control, minimum, maximum, behavior) => {
                set_record(MODE, encoder.spec_control_code(), KnobMode::CC.code())
                + set_record(0x02, encoder.spec_control_code(), channel.index())
                + set_record(0x03, encoder.spec_control_code(), control@)
                + set_record(0x04, encoder.spec_control_code(), minimum@)
                + set_record(0x05, encoder.spec_control_code(), maximum@)
                + set_record(0x06, encoder.spec_control_code(), behavior.code())
            },
            Param::KnobNRPN(knob, channel, granularity, banklsb, bankmsb, nrpntype) => {
                set_record(MODE, knob.spec_control_code(), KnobMode::NRPN.code())
                + set_record(0x02, knob.spec_control_code(), channel.index())
                + set_record(0x03, knob.spec_control_code(), granularity.code())
                + set_record(0x04, knob.spec_control_code(), banklsb@)
                + set_record(0x05, knob.spec_control_code(), bankmsb@)
                + set_record(0x06, knob.spec_control_code(), nrpntype.code())
            },
            Param::GlobalMidiChannel(channel) => set_record(MIDI_CHANNEL, 0x0B, channel.index()),
            Param::CVGateChannel(channel) => set_record(MIDI_CHANNEL, 0x0C, channel.index()),
            Param::KnobAcceleration(acceleration) => set_record(CURVE, 0x04, acceleration.code()),
            Param::PadVelocityCurve(vel_curve) => set_record(CURVE, 0x03, vel_curve.code()),
            Param::StepNote(stepnum, note) => set_record(STEP_NOTE, stepnum@, note@),
            Param::StepEnabled(stepnum, enabled) => {
                set_record(STEP_ENABLED, stepnum@, if enabled { 1u8 } else { 0u8 })
            },
            Param::SeqChannel(channel) => {
                set_record(SEQ, SeqGlobal::Channel.code(), channel.index())
            },
            Param::SeqTranspose(root_note) => {
                set_record(SEQ, SeqGlobal::Transpose.code(), root_note.0@)
            },
            Param::SeqScale(scale) => set_record(SEQ, SeqGlobal::Scale.code(), scale.code()),
            Param::SeqMode(mode) => set_record(SEQ, SeqGlobal::Mode.code(), mode.code()),
            Param::SeqStepSize(size) => set_record(SEQ, SeqGlobal::StepSize.code(), size.code()),
            Param::SeqPatternLength(plen) => {
                set_record(SEQ, SeqGlobal::PatternLength.code(), plen.0)
            },
            Param::SeqSwing(value) => set_record(SEQ, SeqGlobal::Swing.code(), value.0),
            Param::SeqGate(value) => set_record(SEQ, SeqGlobal::Gate.code(), value.0),
            Param::SeqLegato(value) => set_record(SEQ, SeqGlobal::Legato.code(), value.code()),
        }
    }

    /// The mode that the parameter puts its control in. Parameters that set
    /// no mode have none.
    pub open spec fn spec_mode_code(&self) -> Result<u8, MidiError> {
        match self {
            Param::PadOff(_) | Param::KnobOff(_) => Ok(0),
            Param::PadMMC(..) => Ok(7),
            Param::PadCC(..) => Ok(8),
            Param::PadCCSilent(..) | Param::KnobCC(..) => Ok(1),
            Param::PadNote(..) => Ok(9),
            Param::PadProgramChange(..) => Ok(0xB),
            Param::KnobNRPN(..) => Ok(4),
            _ => Err(MidiError::NoModeForParameter),
        }
    }

    #[verifier::when_used_as_spec(spec_mode_code)]
    pub fn mode_code(&self) -> (r: Result<u8, MidiError>)
        ensures
            r == self.spec_mode_code(),
    {
        match self {
            Param::PadOff(_) | Param::KnobOff(_) => Ok(0),
            Param::PadMMC(..) => Ok(7),
            Param::PadCC(..) => Ok(8),
            Param::PadCCSilent(..) | Param::KnobCC(..) => Ok(1),
            Param::PadNote(..) => Ok(9),
            Param::PadProgramChange(..) => Ok(0xB),
            Param::KnobNRPN(..) => Ok(4),
            _ => Err(MidiError::NoModeForParameter),
        }
    }
}

/// Appends the record that sets parameter `param` of control `control` to
/// `value`.
fn parameter_set(sysex: &mut LongSysex, param: u8, control: u8, value: u8)
    requires
        old(sysex).spec_bytes().len() + 10 <= 64,
    ensures
        final(sysex).spec_bytes() == old(sysex).spec_bytes() + set_record(param, control, value),
        final(sysex).spec_pos() == old(sysex).spec_pos(),
        final(sysex).spec_done() == old(sysex).spec_done(),
{
    let record = [0x00, 0x20, 0x6B, 0x7F, 0x42, 0x02, 0x00, param, control, value];
    assert(record@ =~= set_record(param, control, value));
    sysex.extend_from_slice(&record);
}

/// Builds the message that sets a parameter of the device.
pub fn beatstep_set(param: Param) -> (r: LongSysex)
    ensures
        r.spec_bytes() == param.spec_bytes(),
        r.spec_pos() == 0,
        !r.spec_done(),
{
    let mut sysex = LongSysex::new();
    let ghost none = Seq::<u8>::empty();
    match param {
        Param::PadOff(pad) => {
            let ccode = pad.control_code();
            parameter_set(&mut sysex, MODE, ccode, PadMode::Off.code());
            assert(sysex.spec_bytes() =~= param.spec_bytes());
        },
        Param::PadMMC(pad, mmc) => {
            let ccode = pad.control_code();
            parameter_set(&mut sysex, MODE, ccode, PadMode::MMC.code());
            parameter_set(&mut sysex, 0x03, ccode, mmc.code());
            assert(sysex.spec_bytes() =~= param.spec_bytes());
        },
        Param::PadCC(pad, channel, cc, on, off, switch) => {
            let ccode = pad.control_code();
            parameter_set(&mut sysex, MODE, ccode, PadMode::CC.code());
            parameter_set(&mut sysex, 0x02, ccode, channel.as_u8());
            parameter_set(&mut sysex, 0x03, ccode, cc.value());
            parameter_set(&mut sysex, 0x04, ccode, on.value());
            parameter_set(&mut sysex, 0x05, ccode, off.value());
            parameter_set(&mut sysex, 0x06, ccode, switch.code());
            assert(sysex.spec_bytes() =~= param.spec_bytes());
        },
        Param::PadCCSilent(pad, channel, cc, on, off, switch) => {
            let ccode = pad.control_code();
            parameter_set(&mut sysex, MODE, ccode, PadMode::CCSilent.code());
            parameter_set(&mut sysex, 0x02, ccode, channel.as_u8());
            parameter_set(&mut sysex, 0x03, ccode, cc.value());
            parameter_set(&mut sysex, 0x04, ccode, on.value());
            parameter_set(&mut sysex, 0x05, ccode, off.value());
            parameter_set(&mut sysex, 0x06, ccode, switch.code());
            assert(sysex.spec_bytes() =~= param.spec_bytes());
        },
        Param::PadNote(pad, channel, note, switch) => {
            let ccode = pad.control_code();
            parameter_set(&mut sysex, MODE, ccode, PadMode::Note.code());
            parameter_set(&mut sysex, 0x02, ccode, channel.as_u8());
            parameter_set(&mut sysex, 0x03, ccode, note.value());
            parameter_set(&mut sysex, 0x06, ccode, switch.code());
            assert(sysex.spec_bytes() =~= param.spec_bytes());
        },
        Param::PadProgramChange(pad, channel, program, lsb, msb) => {
            let ccode = pad.control_code();
            parameter_set(&mut sysex, MODE, ccode, PadMode::ProgramChange.code());
            parameter_set(&mut sysex, 0x02, ccode, channel.as_u8());
            parameter_set(&mut sysex, 0x03, ccode, program.value());
            parameter_set(&mut sysex, 0x04, ccode, lsb.value());
            parameter_set(&mut sysex, 0x05, ccode, msb.value());
            assert(sysex.spec_bytes() =~= param.spec_bytes());
        },
        Param::KnobOff(knob) => {
            let ccode = knob.control_code();
            parameter_set(&mut sysex, MODE, ccode, KnobMode::Off.code());
            assert(sysex.spec_bytes() =~= param.spec_bytes());
        },
        Param::KnobCC(encoder, channel, control, minimum, maximum, behavior) => {
            let ccode = encoder.control_code();
            parameter_set(&mut sysex, MODE, ccode, KnobMode::CC.code());
            parameter_set(&mut sysex, 0x02, ccode, channel.as_u8());
            parameter_set(&mut sysex, 0x03, ccode, control.value());
            parameter_set(&mut sysex, 0x04, ccode, minimum.value());
            parameter_set(&mut sysex, 0x05, ccode, maximum.value());
            parameter_set(&mut sysex, 0x06, ccode, behavior.code());
            assert(sysex.spec_bytes() =~= param.spec_bytes());
        },
        Param::KnobNRPN(knob, channel, granularity, banklsb, bankmsb, nrpntype) => {
            let ccode = knob.control_code();
            parameter_set(&mut sysex, MODE, ccode, KnobMode::NRPN.code());
            parameter_set(&mut sysex, 0x02, ccode, channel.as_u8());
            parameter_set(&mut sysex, 0x03, ccode, granularity.code());
            parameter_set(&mut sysex, 0x04, ccode, banklsb.value());
            parameter_set(&mut sysex, 0x05, ccode, bankmsb.value());
            parameter_set(&mut sysex, 0x06, ccode, nrpntype.code());
            assert(sysex.spec_bytes() =~= param.spec_bytes());
        },
        Param::GlobalMidiChannel(channel) => {
            parameter_set(&mut sysex, MIDI_CHANNEL, 0x0B, channel.as_u8());
            assert(sysex.spec_bytes() =~= param.spec_bytes());
        },
        Param::CVGateChannel(channel) => {
            parameter_set(&mut sysex, MIDI_CHANNEL, 0x0C, channel.as_u8());
            assert(sysex.spec_bytes() =~= param.spec_bytes());
        },
        Param::KnobAcceleration(acceleration) => {
            parameter_set(&mut sysex, CURVE, 0x04, acceleration.code());
            assert(sysex.spec_bytes() =~= param.spec_bytes());
        },
        Param::PadVelocityCurve(vel_curve) => {
            parameter_set(&mut sysex, CURVE, 0x03, vel_curve.code());
            assert(sysex.spec_bytes() =~= param.spec_bytes());
        },
        Param::StepNote(stepnum, note) => {
            parameter_set(&mut sysex, STEP_NOTE, stepnum.value(), note.value());
            assert(sysex.spec_bytes() =~= param.spec_bytes());
        },
        Param::StepEnabled(stepnum, enabled) => {
            parameter_set(&mut sysex, STEP_ENABLED, stepnum.value(), if enabled { 1 } else { 0 });
            assert(sysex.spec_bytes() =~= param.spec_bytes());
        },
        Param::SeqChannel(channel) => {
            parameter_set(&mut sysex, SEQ, SeqGlobal::Channel.code(), channel.as_u8());
            assert(sysex.spec_bytes() =~= param.spec_bytes());
        },
        Param::SeqTranspose(root_note) => {
            parameter_set(&mut sysex, SEQ, SeqGlobal::Transpose.code(), root_note.0.value());
            assert(sysex.spec_bytes() =~= param.spec_bytes());
        },
        Param::SeqScale(scale) => {
            parameter_set(&mut sysex, SEQ, SeqGlobal::Scale.code(), scale.code());
            assert(sysex.spec_bytes() =~= param.spec_bytes());
        },
        Param::SeqMode(mode) => {
            parameter_set(&mut sysex, SEQ, SeqGlobal::Mode.code(), mode.code());
            assert(sysex.spec_bytes() =~= param.spec_bytes());
        },
        Param::SeqStepSize(size) => {
            parameter_set(&mut sysex, SEQ, SeqGlobal::StepSize.code(), size.code());
            assert(sysex.spec_bytes() =~= param.spec_bytes());
        },
        Param::SeqPatternLength(plen) => {
            parameter_set(&mut sysex, SEQ, SeqGlobal::PatternLength.code(), plen.0);
            assert(sysex.spec_bytes() =~= param.spec_bytes());
        },
        Param::SeqSwing(value) => {
            parameter_set(&mut sysex, SEQ, SeqGlobal::Swing.code(), value.0);
            assert(sysex.spec_bytes() =~= param.spec_bytes());
        },
        Param::SeqGate(value) => {
            parameter_set(&mut sysex, SEQ, SeqGlobal::Gate.code(), value.0);
            assert(sysex.spec_bytes() =~= param.spec_bytes());
        },
        Param::SeqLegato(value) => {
            parameter_set(&mut sysex, SEQ, SeqGlobal::Legato.code(), value.code());
            assert(sysex.spec_bytes() =~= param.spec_bytes());
        },
    }
    sysex
}

/// Builds the message that asks the device for a parameter of a control.
pub fn beatstep_control_get(param: u8, control: u8) -> (r: SysexSeq)
    ensures
        r.spec_bytes() == get_record(param, control),
        r.spec_pos() == 0,
        !r.spec_done(),
{
    let mut sysex = SysexSeq::new();
    let record = [0x00, 0x20, 0x6B, 0x7F, 0x42, 0x01, 0x00, param, control];
    assert(record@ =~= get_record(param, control));
    sysex.extend_from_slice(&record);
    assert(sysex.spec_bytes() =~= get_record(param, control));
    sysex
}

} // verus!

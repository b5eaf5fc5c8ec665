//! The MIDI message model and its conversion to and from USB-MIDI packets.

use vstd::prelude::*;
use vstd::std_specs::convert::FromSpecImpl;
use vstd::std_specs::convert::TryFromSpecImpl;
use crate::bounded::{lemma_u14_pair_round_trip, lemma_u7_try_from_value, Cull, U14, U4, U7};
use crate::channel::MidiChannel;
use crate::error::MidiError;
use crate::packet::{CableNumber, CodeIndexNumber, Packet};
use crate::status::{
    is_channel_status, is_non_status, ACTIVE_SENSING, CHANNEL_PRESSURE, CONTINUE, CONTROL_CHANGE,
    MEASURE_END, NOTE_OFF, NOTE_ON, NOTE_PRESSURE, PITCH_BEND, PROGRAM_CHANGE, SONG_POSITION_POINTER,
    SONG_SELECT, START, STOP, SYSEX_END, SYSEX_START, SYSTEM_RESET, TIME_CODE_QUARTER_FRAME,
    TIMING_CLOCK, TUNE_REQUEST,
};

verus! {

pub type Note = U7;

pub type Velocity = U7;

pub type Control = U7;

pub type Pressure = U7;

pub type Program = U7;

pub type Bend = U14;

/// A MIDI message. A system-exclusive run is carried as a sequence of
/// fragments, one per packet: `SysexBegin`, any number of `SysexCont`, then
/// one of `SysexEnd`, `SysexEnd1`, `SysexEnd2`. A run of no byte or of one
/// byte fits one packet and is `SysexEmpty` or `SysexSingleByte`.
#[derive(Clone, Copy, Debug, PartialEq, Eq)]
pub enum MidiMessage {
    NoteOff(MidiChannel, Note, Velocity),
    NoteOn(MidiChannel, Note, Velocity),
    NotePressure(MidiChannel, Note, Pressure),
    ChannelPressure(MidiChannel, Pressure),
    ProgramChange(MidiChannel, Program),
    ControlChange(MidiChannel, Control, U7),
    PitchBend(MidiChannel, Bend),
    TimeCodeQuarterFrame(U7),
    SongPositionPointer(U7, U7),
    SongSelect(U7),
    TuneRequest,
    TimingClock,
    MeasureEnd(U7),
    Start,
    Continue,
    Stop,
    ActiveSensing,
    SystemReset,
    SysexBegin(u8, u8),
    SysexCont(u8, u8, u8),
    SysexEnd,
    SysexEnd1(u8),
    SysexEnd2(u8, u8),
    SysexEmpty,
    SysexSingleByte(u8),
}

impl MidiMessage {
    /// Every field lies in its domain, and the bytes of a system-exclusive
    /// fragment are data bytes.
    pub open spec fn wf(self) -> bool {
        match self {
            MidiMessage::NoteOff(_, a, b) => a.wf() && b.wf(),
            MidiMessage::NoteOn(_, a, b) => a.wf() && b.wf(),
            MidiMessage::NotePressure(_, a, b) => a.wf() && b.wf(),
            MidiMessage::ChannelPressure(_, a) => a.wf(),
            MidiMessage::ProgramChange(_, a) => a.wf(),
            MidiMessage::ControlChange(_, a, b) => a.wf() && b.wf(),
            MidiMessage::PitchBend(_, a) => a.wf(),
            MidiMessage::TimeCodeQuarterFrame(a) => a.wf(),
            MidiMessage::SongPositionPointer(a, b) => a.wf() && b.wf(),
            MidiMessage::SongSelect(a) => a.wf(),
            MidiMessage::MeasureEnd(a) => a.wf(),
            MidiMessage::SysexBegin(a, b) => a < 0x80 && b < 0x80,
            MidiMessage::SysexCont(a, b, c) => a < 0x80 && b < 0x80 && c < 0x80,
            MidiMessage::SysexEnd1(a) => a < 0x80,
            MidiMessage::SysexEnd2(a, b) => a < 0x80 && b < 0x80,
            MidiMessage::SysexSingleByte(a) => a < 0x80,
            _ => true,
        }
    }

    /// One of the seven kinds of message that are sent on a channel.
    pub open spec fn is_channel_voice(self) -> bool {
        self is NoteOff || self is NoteOn || self is NotePressure || self is ChannelPressure
            || self is ProgramChange || self is ControlChange || self is PitchBend
    }

    /// A fragment of a system-exclusive run.
    pub open spec fn is_sysex(self) -> bool {
        self is SysexBegin || self is SysexCont || self is SysexEnd || self is SysexEnd1
            || self is SysexEnd2 || self is SysexEmpty || self is SysexSingleByte
    }

    /// The status byte that opens the message on the wire, the channel
    /// included. Fragments of a system-exclusive run have none.
    pub open spec fn spec_status_byte(&self) -> Option<u8> {
        match self {
            MidiMessage::NoteOff(ch, ..) => Some((0x80 + ch.index()) as u8),
            MidiMessage::NoteOn(ch, ..) => Some((0x90 + ch.index()) as u8),
            MidiMessage::NotePressure(ch, ..) => Some((0xA0 + ch.index()) as u8),
            MidiMessage::ControlChange(ch, ..) => Some((0xB0 + ch.index()) as u8),
            MidiMessage::ProgramChange(ch, ..) => Some((0xC0 + ch.index()) as u8),
            MidiMessage::ChannelPressure(ch, ..) => Some((0xD0 + ch.index()) as u8),
            MidiMessage::PitchBend(ch, ..) => Some((0xE0 + ch.index()) as u8),
            MidiMessage::TimeCodeQuarterFrame(_) => Some(0xF1),
            MidiMessage::SongPositionPointer(_, _) => Some(0xF2),
            MidiMessage::SongSelect(_) => Some(0xF3),
            MidiMessage::TuneRequest => Some(0xF6),
            MidiMessage::TimingClock => Some(0xF8),
            MidiMessage::MeasureEnd(_) => Some(0xF9),
            MidiMessage::Start => Some(0xFA),
            MidiMessage::Continue => Some(0xFB),
            MidiMessage::Stop => Some(0xFC),
            MidiMessage::ActiveSensing => Some(0xFE),
            MidiMessage::SystemReset => Some(0xFF),
            _ => None,
        }
    }

    /// The four bytes of the one packet that carries the message on cable
    /// `cable`. Channel voice messages take the framing code that equals the
    /// high four bits of their status byte; system common messages the code
    /// for their length; system real-time messages the single-byte code. A
    /// pitch bend puts its low seven bits first. Payload bytes that the
    /// message does not fill are zero.
    pub open spec fn encoded(self, cable: u8) -> Seq<u8> {
        match self {
            MidiMessage::NoteOff(ch, n, v) => Packet::framed(
                cable,
                CodeIndexNumber::NoteOff,
                (0x80 + ch.index()) as u8,
                n@,
                v@,
            ),
            MidiMessage::NoteOn(ch, n, v) => Packet::framed(
                cable,
                CodeIndexNumber::NoteOn,
                (0x90 + ch.index()) as u8,
                n@,
                v@,
            ),
            MidiMessage::NotePressure(ch, n, p) => Packet::framed(
                cable,
                CodeIndexNumber::PolyKeypress,
                (0xA0 + ch.index()) as u8,
                n@,
                p@,
            ),
            MidiMessage::ControlChange(ch, c, v) => Packet::framed(
                cable,
                CodeIndexNumber::ControlChange,
                (0xB0 + ch.index()) as u8,
                c@,
                v@,
            ),
            MidiMessage::ProgramChange(ch, p) => Packet::framed(
                cable,
                CodeIndexNumber::ProgramChange,
                (0xC0 + ch.index()) as u8,
                p@,
                0,
            ),
            MidiMessage::ChannelPressure(ch, p) => Packet::framed(
                cable,
                CodeIndexNumber::ChannelPressure,
                (0xD0 + ch.index()) as u8,
                p@,
                0,
            ),
            MidiMessage::PitchBend(ch, bend) => Packet::framed(
                cable,
                CodeIndexNumber::PitchbendChange,
                (0xE0 + ch.index()) as u8,
                (bend@ % 128) as u8,
                (bend@ / 128) as u8,
            ),
            MidiMessage::TimeCodeQuarterFrame(v) => Packet::framed(
                cable,
                CodeIndexNumber::SystemCommonLen2,
                0xF1,
                v@,
                0,
            ),
            MidiMessage::SongPositionPointer(a, b) => Packet::framed(
                cable,
                CodeIndexNumber::SystemCommonLen3,
                0xF2,
                a@,
                b@,
            ),
            MidiMessage::SongSelect(v) => Packet::framed(
                cable,
                CodeIndexNumber::SystemCommonLen2,
                0xF3,
                v@,
                0,
            ),
            MidiMessage::TuneRequest => Packet::framed(
                cable,
                CodeIndexNumber::SystemCommonLen1,
                0xF6,
                0,
                0,
            ),
            MidiMessage::TimingClock => Packet::framed(cable, CodeIndexNumber::SingleByte, 0xF8, 0, 0),
            MidiMessage::MeasureEnd(v) => Packet::framed(
                cable,
                CodeIndexNumber::SystemCommonLen2,
                0xF9,
                v@,
                0,
            ),
            MidiMessage::Start => Packet::framed(cable, CodeIndexNumber::SingleByte, 0xFA, 0, 0),
            MidiMessage::Continue => Packet::framed(cable, CodeIndexNumber::SingleByte, 0xFB, 0, 0),
            MidiMessage::Stop => Packet::framed(cable, CodeIndexNumber::SingleByte, 0xFC, 0, 0),
            MidiMessage::ActiveSensing => Packet::framed(
                cable,
                CodeIndexNumber::SingleByte,
                0xFE,
                0,
                0,
            ),
            MidiMessage::SystemReset => Packet::framed(cable, CodeIndexNumber::SingleByte, 0xFF, 0, 0),
            MidiMessage::SysexBegin(a, b) => Packet::framed(cable, CodeIndexNumber::Sysex, 0xF0, a, b),
            MidiMessage::SysexCont(a, b, c) => Packet::framed(cable, CodeIndexNumber::Sysex, a, b, c),
            MidiMessage::SysexEnd => Packet::framed(
                cable,
                CodeIndexNumber::SystemCommonLen1,
                0xF7,
                0,
                0,
            ),
            MidiMessage::SysexEnd1(a) => Packet::framed(
                cable,
                CodeIndexNumber::SysexEndsNext2,
                a,
                0xF7,
                0,
            ),
            MidiMessage::SysexEnd2(a, b) => Packet::framed(
                cable,
                CodeIndexNumber::SysexEndsNext3,
                a,
                b,
                0xF7,
            ),
            MidiMessage::SysexEmpty => Packet::framed(
                cable,
                CodeIndexNumber::SysexEndsNext2,
                0xF0,
                0xF7,
                0,
            ),
            MidiMessage::SysexSingleByte(a) => Packet::framed(
                cable,
                CodeIndexNumber::SysexEndsNext3,
                0xF0,
                a,
                0xF7,
            ),
        }
    }

    /// The message with two 7-bit fields that `make` builds from the data
    /// bytes `b1` and `b2`, or `InvalidInteger` where one of them has its top
    /// bit set.
    pub open spec fn two_fields(
        make: spec_fn(U7, U7) -> MidiMessage,
        b1: u8,
        b2: u8,
    ) -> Result<MidiMessage, MidiError> {
        if b1 <= 0x7f && b2 <= 0x7f {
            Ok(make(U7::of(b1), U7::of(b2)))
        } else {
            Err(MidiError::InvalidInteger)
        }
    }

    /// The channel voice message that a packet carries under a channel
    /// voice code. The framing code must be the one of the status byte, else
    /// the packet is bad; a data byte with its top bit set gives
    /// `InvalidInteger`. The channel is the low four bits of the status
    /// byte. A pitch bend holds its low seven bits in the first data byte.
    pub open spec fn channel_voice_decoded(p: Packet) -> Result<MidiMessage, MidiError> {
        let b0 = p@[1];
        let b1 = p@[2];
        let b2 = p@[3];
        let ch = MidiChannel::of_index(b0 % 16)->Some_0;
        if !is_channel_status(b0) || p.spec_cin().spec_code() != b0 / 16 {
            Err(MidiError::BadPacket(p))
        } else {
            match p.spec_cin() {
                CodeIndexNumber::NoteOff => Self::two_fields(
                    |n: U7, v: U7| MidiMessage::NoteOff(ch, n, v),
                    b1,
                    b2,
                ),
                CodeIndexNumber::NoteOn => Self::two_fields(
                    |n: U7, v: U7| MidiMessage::NoteOn(ch, n, v),
                    b1,
                    b2,
                ),
                CodeIndexNumber::PolyKeypress => Self::two_fields(
                    |n: U7, v: U7| MidiMessage::NotePressure(ch, n, v),
                    b1,
                    b2,
                ),
                CodeIndexNumber::ControlChange => Self::two_fields(
                    |n: U7, v: U7| MidiMessage::ControlChange(ch, n, v),
                    b1,
                    b2,
                ),
                CodeIndexNumber::ProgramChange => if b1 <= 0x7f {
                    Ok(MidiMessage::ProgramChange(ch, U7::of(b1)))
                } else {
                    Err(MidiError::InvalidInteger)
                },
                CodeIndexNumber::ChannelPressure => if b1 <= 0x7f {
                    Ok(MidiMessage::ChannelPressure(ch, U7::of(b1)))
                } else {
                    Err(MidiError::InvalidInteger)
                },
                _ => match U14::pair_spec(b2, b1) {
                    Ok(bend) => Ok(MidiMessage::PitchBend(ch, bend)),
                    Err(e) => Err(e),
                },
            }
        }
    }

    /// The message of one byte that a packet carries, by its status byte.
    /// A packet with any other first byte is bad.
    pub open spec fn single_byte_decoded(p: Packet) -> Result<MidiMessage, MidiError> {
        match p@[1] {
            0xF6 => Ok(MidiMessage::TuneRequest),
            0xF8 => Ok(MidiMessage::TimingClock),
            0xFA => Ok(MidiMessage::Start),
            0xFB => Ok(MidiMessage::Continue),
            0xFC => Ok(MidiMessage::Stop),
            0xFE => Ok(MidiMessage::ActiveSensing),
            0xFF => Ok(MidiMessage::SystemReset),
            _ => Err(MidiError::BadPacket(p)),
        }
    }

    /// The message that a packet carries, by its framing code:
    /// - the three system-exclusive codes are read without looking for a
    ///   status: a start byte in front marks the first or only fragment;
    /// - the one-byte code carries the system-exclusive terminator, or a
    ///   message of one byte, which the single-byte code carries too;
    /// - the two- and three-byte system common codes carry the messages of
    ///   that length, their fields culled to seven bits;
    /// - a channel voice code carries the message of its own class.
    /// Any other combination is a bad packet, and the error holds it.
    pub open spec fn decoded(p: Packet) -> Result<MidiMessage, MidiError> {
        let b0 = p@[1];
        let b1 = p@[2];
        let b2 = p@[3];
        match p.spec_cin() {
            CodeIndexNumber::Sysex => if is_non_status(b0) {
                Ok(MidiMessage::SysexCont(b0, b1, b2))
            } else {
                Ok(MidiMessage::SysexBegin(b1, b2))
            },
            CodeIndexNumber::SysexEndsNext2 => if b0 == 0xF0 {
                Ok(MidiMessage::SysexEmpty)
            } else {
                Ok(MidiMessage::SysexEnd1(b0))
            },
            CodeIndexNumber::SysexEndsNext3 => if b0 == 0xF0 {
                Ok(MidiMessage::SysexSingleByte(b1))
            } else {
                Ok(MidiMessage::SysexEnd2(b0, b1))
            },
            CodeIndexNumber::SystemCommonLen1 => if b0 == 0xF7 {
                Ok(MidiMessage::SysexEnd)
            } else {
                Self::single_byte_decoded(p)
            },
            CodeIndexNumber::SingleByte => Self::single_byte_decoded(p),
            CodeIndexNumber::SystemCommonLen2 => match b0 {
                0xF1 => Ok(MidiMessage::TimeCodeQuarterFrame(U7::cull_spec(b1))),
                0xF3 => Ok(MidiMessage::SongSelect(U7::cull_spec(b1))),
                0xF9 => Ok(MidiMessage::MeasureEnd(U7::cull_spec(b1))),
                _ => Err(MidiError::BadPacket(p)),
            },
            CodeIndexNumber::SystemCommonLen3 => if b0 == 0xF2 {
                Ok(MidiMessage::SongPositionPointer(U7::cull_spec(b1), U7::cull_spec(b2)))
            } else {
                Err(MidiError::BadPacket(p))
            },
            CodeIndexNumber::MiscFunction | CodeIndexNumber::CableEvents => Err(
                MidiError::BadPacket(p),
            ),
            _ => Self::channel_voice_decoded(p),
        }
    }

    #[verifier::when_used_as_spec(spec_status_byte)]
    pub fn status_byte(&self) -> (r: Option<u8>)
        ensures
            r == self.spec_status_byte(),
            r is None <==> self.is_sysex(),
            self.is_channel_voice() <==> r is Some && is_channel_status(r->Some_0),
    {
        match self {
            MidiMessage::NoteOff(ch, ..) => Some(NOTE_OFF + ch.as_u8()),
            MidiMessage::NoteOn(ch, ..) => Some(NOTE_ON + ch.as_u8()),
            MidiMessage::NotePressure(ch, ..) => Some(NOTE_PRESSURE + ch.as_u8()),
            MidiMessage::ChannelPressure(ch, ..) => Some(CHANNEL_PRESSURE + ch.as_u8()),
            MidiMessage::ProgramChange(ch, ..) => Some(PROGRAM_CHANGE + ch.as_u8()),
            MidiMessage::ControlChange(ch, ..) => Some(CONTROL_CHANGE + ch.as_u8()),
            MidiMessage::PitchBend(ch, ..) => Some(PITCH_BEND + ch.as_u8()),
            MidiMessage::TimeCodeQuarterFrame(_) => Some(TIME_CODE_QUARTER_FRAME),
            MidiMessage::SongPositionPointer(_, _) => Some(SONG_POSITION_POINTER),
            MidiMessage::SongSelect(_) => Some(SONG_SELECT),
            MidiMessage::TuneRequest => Some(TUNE_REQUEST),
            MidiMessage::TimingClock => Some(TIMING_CLOCK),
            MidiMessage::Start => Some(START),
            MidiMessage::Continue => Some(CONTINUE),
            MidiMessage::Stop => Some(STOP),
            MidiMessage::ActiveSensing => Some(ACTIVE_SENSING),
            MidiMessage::SystemReset => Some(SYSTEM_RESET),
            MidiMessage::MeasureEnd(_) => Some(MEASURE_END),
            _ => None,
        }
    }

    /// Builds the packet that carries the message on cable `cable`.
    pub fn encode(self, cable: CableNumber) -> (r: Packet)
        ensures
            r@ == self.encoded(cable@),
    {
        match self {
            MidiMessage::NoteOff(ch, n, v) => Packet::new(
                cable,
                CodeIndexNumber::NoteOff,
                NOTE_OFF + ch.as_u8(),
                n.value(),
                v.value(),
            ),
            MidiMessage::NoteOn(ch, n, v) => Packet::new(
                cable,
                CodeIndexNumber::NoteOn,
                NOTE_ON + ch.as_u8(),
                n.value(),
                v.value(),
            ),
            MidiMessage::NotePressure(ch, n, p) => Packet::new(
                cable,
                CodeIndexNumber::PolyKeypress,
                NOTE_PRESSURE + ch.as_u8(),
                n.value(),
                p.value(),
            ),
            MidiMessage::ControlChange(ch, c, v) => Packet::new(
                cable,
                CodeIndexNumber::ControlChange,
                CONTROL_CHANGE + ch.as_u8(),
                c.value(),
                v.value(),
            ),
            MidiMessage::ProgramChange(ch, p) => Packet::new(
                cable,
                CodeIndexNumber::ProgramChange,
                PROGRAM_CHANGE + ch.as_u8(),
                p.value(),
                0,
            ),
            MidiMessage::ChannelPressure(ch, p) => Packet::new(
                cable,
                CodeIndexNumber::ChannelPressure,
                CHANNEL_PRESSURE + ch.as_u8(),
                p.value(),
                0,
            ),
            MidiMessage::PitchBend(ch, bend) => Packet::new(
                cable,
                CodeIndexNumber::PitchbendChange,
                PITCH_BEND + ch.as_u8(),
                bend.lsb().value(),
                bend.msb().value(),
            ),
            MidiMessage::TimeCodeQuarterFrame(v) => Packet::new(
                cable,
                CodeIndexNumber::SystemCommonLen2,
                TIME_CODE_QUARTER_FRAME,
                v.value(),
                0,
            ),
            MidiMessage::SongPositionPointer(a, b) => Packet::new(
                cable,
                CodeIndexNumber::SystemCommonLen3,
                SONG_POSITION_POINTER,
                a.value(),
                b.value(),
            ),
            MidiMessage::SongSelect(v) => Packet::new(
                cable,
                CodeIndexNumber::SystemCommonLen2,
                SONG_SELECT,
                v.value(),
                0,
            ),
            MidiMessage::TuneRequest => Packet::new(
                cable,
                CodeIndexNumber::SystemCommonLen1,
                TUNE_REQUEST,
                0,
                0,
            ),
            MidiMessage::TimingClock => Packet::new(
                cable,
                CodeIndexNumber::SingleByte,
                TIMING_CLOCK,
                0,
                0,
            ),
            MidiMessage::MeasureEnd(v) => Packet::new(
                cable,
                CodeIndexNumber::SystemCommonLen2,
                MEASURE_END,
                v.value(),
                0,
            ),
            MidiMessage::Start => Packet::new(cable, CodeIndexNumber::SingleByte, START, 0, 0),
            MidiMessage::Continue => Packet::new(cable, CodeIndexNumber::SingleByte, CONTINUE, 0, 0),
            MidiMessage::Stop => Packet::new(cable, CodeIndexNumber::SingleByte, STOP, 0, 0),
            MidiMessage::ActiveSensing => Packet::new(
                cable,
                CodeIndexNumber::SingleByte,
                ACTIVE_SENSING,
                0,
                0,
            ),
            MidiMessage::SystemReset => Packet::new(
                cable,
                CodeIndexNumber::SingleByte,
                SYSTEM_RESET,
                0,
                0,
            ),
            MidiMessage::SysexBegin(a, b) => Packet::new(
                cable,
                CodeIndexNumber::Sysex,
                SYSEX_START,
                a,
                b,
            ),
            MidiMessage::SysexCont(a, b, c) => Packet::new(cable, CodeIndexNumber::Sysex, a, b, c),
            MidiMessage::SysexEnd => Packet::new(
                cable,
                CodeIndexNumber::SystemCommonLen1,
                SYSEX_END,
                0,
                0,
            ),
            MidiMessage::SysexEnd1(a) => Packet::new(
                cable,
                CodeIndexNumber::SysexEndsNext2,
                a,
                SYSEX_END,
                0,
            ),
            MidiMessage::SysexEnd2(a, b) => Packet::new(
                cable,
                CodeIndexNumber::SysexEndsNext3,
                a,
                b,
                SYSEX_END,
            ),
            MidiMessage::SysexEmpty => Packet::new(
                cable,
                CodeIndexNumber::SysexEndsNext2,
                SYSEX_START,
                SYSEX_END,
                0,
            ),
            MidiMessage::SysexSingleByte(a) => Packet::new(
                cable,
                CodeIndexNumber::SysexEndsNext3,
                SYSEX_START,
                a,
                SYSEX_END,
            ),
        }
    }

    /// Reads the message that a packet carries.
    pub fn decode(packet: Packet) -> (r: Result<MidiMessage, MidiError>)
        ensures
            r == MidiMessage::decoded(packet),
    {
        let cin = packet.code_index_number();
        let bytes = packet.bytes();
        let b0 = bytes[1];
        let b1 = bytes[2];
        let b2 = bytes[3];
        match cin {
            CodeIndexNumber::Sysex => {
                if is_non_status(b0) {
                    Ok(MidiMessage::SysexCont(b0, b1, b2))
                } else {
                    Ok(MidiMessage::SysexBegin(b1, b2))
                }
            },
            CodeIndexNumber::SysexEndsNext2 => {
                if b0 == SYSEX_START {
                    Ok(MidiMessage::SysexEmpty)
                } else {
                    Ok(MidiMessage::SysexEnd1(b0))
                }
            },
            CodeIndexNumber::SysexEndsNext3 => {
                if b0 == SYSEX_START {
                    Ok(MidiMessage::SysexSingleByte(b1))
                } else {
                    Ok(MidiMessage::SysexEnd2(b0, b1))
                }
            },
            CodeIndexNumber::SystemCommonLen1 => {
                if b0 == SYSEX_END {
                    Ok(MidiMessage::SysexEnd)
                } else {
                    decode_single_byte(packet)
                }
            },
            CodeIndexNumber::SingleByte => decode_single_byte(packet),
            CodeIndexNumber::SystemCommonLen2 => {
                if b0 == TIME_CODE_QUARTER_FRAME {
                    Ok(MidiMessage::TimeCodeQuarterFrame(U7::cull(b1)))
                } else if b0 == SONG_SELECT {
                    Ok(MidiMessage::SongSelect(U7::cull(b1)))
                } else if b0 == MEASURE_END {
                    Ok(MidiMessage::MeasureEnd(U7::cull(b1)))
                } else {
                    Err(MidiError::BadPacket(packet))
                }
            },
            CodeIndexNumber::SystemCommonLen3 => {
                if b0 == SONG_POSITION_POINTER {
                    Ok(MidiMessage::SongPositionPointer(U7::cull(b1), U7::cull(b2)))
                } else {
                    Err(MidiError::BadPacket(packet))
                }
            },
            CodeIndexNumber::MiscFunction | CodeIndexNumber::CableEvents => Err(
                MidiError::BadPacket(packet),
            ),
            _ => decode_channel_voice(packet),
        }
    }
}

fn decode_single_byte(packet: Packet) -> (r: Result<MidiMessage, MidiError>)
    ensures
        r == MidiMessage::single_byte_decoded(packet),
{
    let b0 = packet.bytes()[1];
    if b0 == TUNE_REQUEST {
        Ok(MidiMessage::TuneRequest)
    } else if b0 == TIMING_CLOCK {
        Ok(MidiMessage::TimingClock)
    } else if b0 == START {
        Ok(MidiMessage::Start)
    } else if b0 == CONTINUE {
        Ok(MidiMessage::Continue)
    } else if b0 == STOP {
        Ok(MidiMessage::Stop)
    } else if b0 == ACTIVE_SENSING {
        Ok(MidiMessage::ActiveSensing)
    } else if b0 == SYSTEM_RESET {
        Ok(MidiMessage::SystemReset)
    } else {
        Err(MidiError::BadPacket(packet))
    }
}

fn decode_channel_voice(packet: Packet) -> (r: Result<MidiMessage, MidiError>)
    ensures
        r == MidiMessage::channel_voice_decoded(packet),
{
    let cin = packet.code_index_number();
    let bytes = packet.bytes();
    let b0 = bytes[1];
    let b1 = bytes[2];
    let b2 = bytes[3];
    let channel = match packet.channel() {
        Some(channel) => channel,
        None => {
            return Err(MidiError::BadPacket(packet));
        },
    };
    if cin.code() != b0 / 16 {
        return Err(MidiError::BadPacket(packet));
    }
    match cin {
        CodeIndexNumber::NoteOff => match (U7::try_from(b1), U7::try_from(b2)) {
            (Ok(n), Ok(v)) => Ok(MidiMessage::NoteOff(channel, n, v)),
            _ => Err(MidiError::InvalidInteger),
        },
        CodeIndexNumber::NoteOn => match (U7::try_from(b1), U7::try_from(b2)) {
            (Ok(n), Ok(v)) => Ok(MidiMessage::NoteOn(channel, n, v)),
            _ => Err(MidiError::InvalidInteger),
        },
        CodeIndexNumber::PolyKeypress => match (U7::try_from(b1), U7::try_from(b2)) {
            (Ok(n), Ok(v)) => Ok(MidiMessage::NotePressure(channel, n, v)),
            _ => Err(MidiError::InvalidInteger),
        },
        CodeIndexNumber::ControlChange => match (U7::try_from(b1), U7::try_from(b2)) {
            (Ok(n), Ok(v)) => Ok(MidiMessage::ControlChange(channel, n, v)),
            _ => Err(MidiError::InvalidInteger),
        },
        CodeIndexNumber::ProgramChange => match U7::try_from(b1) {
            Ok(p) => Ok(MidiMessage::ProgramChange(channel, p)),
            Err(e) => Err(e),
        },
        CodeIndexNumber::ChannelPressure => match U7::try_from(b1) {
            Ok(p) => Ok(MidiMessage::ChannelPressure(channel, p)),
            Err(e) => Err(e),
        },
        _ => match U14::try_from((b2, b1)) {
            Ok(bend) => Ok(MidiMessage::PitchBend(channel, bend)),
            Err(e) => Err(e),
        },
    }
}

impl From<MidiMessage> for Packet {
    /// The packet that carries the message on cable 0.
    fn from(message: MidiMessage) -> (r: Packet)
        ensures
            r@ == message.encoded(0),
    {
        let r = message.encode(U4::min());
        proof {
            r.lemma_ext_equal(Packet::on_cable_zero(message));
        }
        r
    }
}

impl FromSpecImpl<MidiMessage> for Packet {
    open spec fn obeys_from_spec() -> bool {
        true
    }

    open spec fn from_spec(message: MidiMessage) -> Packet {
        Packet::on_cable_zero(message)
    }
}

impl Packet {
    /// The packet that carries `message` on cable 0.
    pub open spec fn on_cable_zero(message: MidiMessage) -> Packet {
        choose|p: Packet| p@ == message.encoded(0)
    }
}

impl TryFrom<Packet> for MidiMessage {
    type Error = MidiError;

    fn try_from(packet: Packet) -> (r: Result<MidiMessage, MidiError>) {
        MidiMessage::decode(packet)
    }
}

impl TryFromSpecImpl<Packet> for MidiMessage {
    open spec fn obeys_try_from_spec() -> bool {
        true
    }

    open spec fn try_from_spec(packet: Packet) -> Result<MidiMessage, MidiError> {
        MidiMessage::decoded(packet)
    }
}

/// Decoding the packet that encodes a message gives the message back, on
/// whatever cable it travels. This holds of every message whose fields lie
/// in their domains, the channel voice messages among them.
pub proof fn lemma_decode_encode(m: MidiMessage, cable: u8, p: Packet)
    requires
        m.wf(),
        cable <= 15,
        p@ == m.encoded(cable),
    ensures
        MidiMessage::decoded(p) == Ok::<MidiMessage, MidiError>(m),
        p.spec_cable() == cable,
{
    let b0 = p@[1];
    let b1 = p@[2];
    let b2 = p@[3];
    match m {
        MidiMessage::NoteOff(ch, n, v) => {
            assert(MidiChannel::of_index(b0 % 16) == Some(ch));
        },
        MidiMessage::NoteOn(ch, n, v) => {
            assert(MidiChannel::of_index(b0 % 16) == Some(ch));
        },
        MidiMessage::NotePressure(ch, n, v) => {
            assert(MidiChannel::of_index(b0 % 16) == Some(ch));
        },
        MidiMessage::ControlChange(ch, n, v) => {
            assert(MidiChannel::of_index(b0 % 16) == Some(ch));
        },
        MidiMessage::ProgramChange(ch, n) => {
            assert(MidiChannel::of_index(b0 % 16) == Some(ch));
        },
        MidiMessage::ChannelPressure(ch, n) => {
            assert(MidiChannel::of_index(b0 % 16) == Some(ch));
        },
        MidiMessage::PitchBend(ch, bend) => {
            assert(MidiChannel::of_index(b0 % 16) == Some(ch));
            lemma_u14_pair_round_trip(bend);
        },
        MidiMessage::TimeCodeQuarterFrame(v) => {
            lemma_u7_try_from_value(v);
        },
        MidiMessage::SongPositionPointer(a, b) => {
            lemma_u7_try_from_value(a);
            lemma_u7_try_from_value(b);
        },
        MidiMessage::SongSelect(v) => {
            lemma_u7_try_from_value(v);
        },
        MidiMessage::MeasureEnd(v) => {
            lemma_u7_try_from_value(v);
        },
        _ => {},
    }
}

/// What `note_on` and `note_off` give for the note and velocity numbers.
pub open spec fn note_fields(note: u8, velocity: u8) -> Result<(U7, U7), MidiError> {
    if note > 0x7f {
        Err(MidiError::InvalidNote)
    } else if velocity > 0x7f {
        Err(MidiError::InvalidVelocity)
    } else {
        Ok((U7::of(note), U7::of(velocity)))
    }
}

fn checked_note_fields(note: u8, velocity: u8) -> (r: Result<(U7, U7), MidiError>)
    ensures
        r == note_fields(note, velocity),
{
    match U7::try_from(note) {
        Ok(n) => match U7::try_from(velocity) {
            Ok(v) => Ok((n, v)),
            Err(_) => Err(MidiError::InvalidVelocity),
        },
        Err(_) => Err(MidiError::InvalidNote),
    }
}

/// A note-on message. Fails with `InvalidNote` where `note` is above 127,
/// else with `InvalidVelocity` where `velocity` is.
pub fn note_on(channel: MidiChannel, note: u8, velocity: u8) -> (r: Result<MidiMessage, MidiError>)
    ensures
        r == match note_fields(note, velocity) {
            Ok((n, v)) => Ok::<MidiMessage, MidiError>(MidiMessage::NoteOn(channel, n, v)),
            Err(e) => Err(e),
        },
{
    match checked_note_fields(note, velocity) {
        Ok((n, v)) => Ok(MidiMessage::NoteOn(channel, n, v)),
        Err(e) => Err(e),
    }
}

/// A note-off message. Fails with `InvalidNote` where `note` is above 127,
/// else with `InvalidVelocity` where `velocity` is.
pub fn note_off(channel: MidiChannel, note: u8, velocity: u8) -> (r: Result<MidiMessage, MidiError>)
    ensures
        r == match note_fields(note, velocity) {
            Ok((n, v)) => Ok::<MidiMessage, MidiError>(MidiMessage::NoteOff(channel, n, v)),
            Err(e) => Err(e),
        },
{
    match checked_note_fields(note, velocity) {
        Ok((n, v)) => Ok(MidiMessage::NoteOff(channel, n, v)),
        Err(e) => Err(e),
    }
}

/// A program change message. Fails with `InvalidProgram` where `program` is
/// above 127.
pub fn program_change(channel: MidiChannel, program: u8) -> (r: Result<MidiMessage, MidiError>)
    ensures
        program <= 0x7f ==> r == Ok::<MidiMessage, MidiError>(
            MidiMessage::ProgramChange(channel, U7::of(program)),
        ),
        program > 0x7f ==> r == Err::<MidiMessage, MidiError>(MidiError::InvalidProgram),
{
    match U7::try_from(program) {
        Ok(p) => Ok(MidiMessage::ProgramChange(channel, p)),
        Err(_) => Err(MidiError::InvalidProgram),
    }
}

} // verus!

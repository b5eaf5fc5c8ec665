//! Status bytes: their classes, the length of the message each one opens,
//! and the running-status compressor used on the way out to a serial line.

use vstd::prelude::*;
use vstd::slice::slice_subrange;
use vstd::std_specs::convert::TryFromSpecImpl;
use crate::error::MidiError;

verus! {

pub const NOTE_OFF: u8 = 0x80;

pub const NOTE_ON: u8 = 0x90;

pub const NOTE_PRESSURE: u8 = 0xA0;

pub const CONTROL_CHANGE: u8 = 0xB0;

pub const PROGRAM_CHANGE: u8 = 0xC0;

pub const CHANNEL_PRESSURE: u8 = 0xD0;

pub const PITCH_BEND: u8 = 0xE0;

pub const SYSEX_START: u8 = 0xF0;

pub const TIME_CODE_QUARTER_FRAME: u8 = 0xF1;

pub const SONG_POSITION_POINTER: u8 = 0xF2;

pub const SONG_SELECT: u8 = 0xF3;

pub const TUNE_REQUEST: u8 = 0xF6;

pub const TIMING_CLOCK: u8 = 0xF8;

pub const MEASURE_END: u8 = 0xF9;

pub const START: u8 = 0xFA;

pub const CONTINUE: u8 = 0xFB;

pub const STOP: u8 = 0xFC;

pub const ACTIVE_SENSING: u8 = 0xFE;

pub const SYSTEM_RESET: u8 = 0xFF;

/// Terminates a system-exclusive run. It is not a status byte.
pub const SYSEX_END: u8 = 0xF7;

/// A data byte, or the system-exclusive terminator.
pub open spec fn spec_is_non_status(byte: u8) -> bool {
    byte < 0x80 || byte == 0xF7
}

/// The status byte of a channel voice message, whatever its channel.
pub open spec fn spec_is_channel_status(byte: u8) -> bool {
    0x80 <= byte < 0xF0
}

/// A system real-time byte, which may arrive in the middle of any message.
pub open spec fn spec_is_realtime_status(byte: u8) -> bool {
    byte == 0xF8 || byte >= 0xFA
}

#[verifier::when_used_as_spec(spec_is_non_status)]
pub fn is_non_status(byte: u8) -> (r: bool)
    ensures
        r == spec_is_non_status(byte),
{
    byte < NOTE_OFF || byte == SYSEX_END
}

#[verifier::when_used_as_spec(spec_is_channel_status)]
pub fn is_channel_status(byte: u8) -> (r: bool)
    ensures
        r == spec_is_channel_status(byte),
{
    NOTE_OFF <= byte && byte < SYSEX_START
}

#[verifier::when_used_as_spec(spec_is_realtime_status)]
pub fn is_realtime_status(byte: u8) -> (r: bool)
    ensures
        r == spec_is_realtime_status(byte),
{
    byte == TIMING_CLOCK || byte >= START
}

/// The class of a status byte. Channel voice classes stand for all sixteen
/// channels: the channel is not part of the class.
#[derive(Copy, Clone, Debug, Eq, PartialEq, Structural)]
pub enum Status {
    NoteOff,
    NoteOn,
    NotePressure,
    ControlChange,
    ProgramChange,
    ChannelPressure,
    PitchBend,
    SysexStart,
    TimeCodeQuarterFrame,
    SongPositionPointer,
    SongSelect,
    TuneRequest,
    TimingClock,
    MeasureEnd,
    Start,
    Continue,
    Stop,
    ActiveSensing,
    SystemReset,
}

impl Status {
    /// The class of `byte`, if it has one. Channel voice bytes are looked up
    /// by their high four bits.
    pub open spec fn of_byte(byte: u8) -> Option<Status> {
        if byte < 0x80 {
            None
        } else if byte < 0x90 {
            Some(Status::NoteOff)
        } else if byte < 0xA0 {
            Some(Status::NoteOn)
        } else if byte < 0xB0 {
            Some(Status::NotePressure)
        } else if byte < 0xC0 {
            Some(Status::ControlChange)
        } else if byte < 0xD0 {
            Some(Status::ProgramChange)
        } else if byte < 0xE0 {
            Some(Status::ChannelPressure)
        } else if byte < 0xF0 {
            Some(Status::PitchBend)
        } else if byte == 0xF0 {
            Some(Status::SysexStart)
        } else if byte == 0xF1 {
            Some(Status::TimeCodeQuarterFrame)
        } else if byte == 0xF2 {
            Some(Status::SongPositionPointer)
        } else if byte == 0xF3 {
            Some(Status::SongSelect)
        } else if byte == 0xF6 {
            Some(Status::TuneRequest)
        } else if byte == 0xF8 {
            Some(Status::TimingClock)
        } else if byte == 0xF9 {
            Some(Status::MeasureEnd)
        } else if byte == 0xFA {
            Some(Status::Start)
        } else if byte == 0xFB {
            Some(Status::Continue)
        } else if byte == 0xFC {
            Some(Status::Stop)
        } else if byte == 0xFE {
            Some(Status::ActiveSensing)
        } else if byte == 0xFF {
            Some(Status::SystemReset)
        } else {
            None
        }
    }

    /// What `try_from` gives: the class of `byte`, or `InvalidStatus` with the
    /// byte where it has none.
    pub open spec fn classify(byte: u8) -> Result<Status, MidiError> {
        match Status::of_byte(byte) {
            Some(status) => Ok(status),
            None => Err(MidiError::InvalidStatus(byte)),
        }
    }

    /// The status byte of the class, with channel zero for channel voice
    /// classes.
    pub open spec fn spec_byte(self) -> u8 {
        match self {
            Status::NoteOff => 0x80,
            Status::NoteOn => 0x90,
            Status::NotePressure => 0xA0,
            Status::ControlChange => 0xB0,
            Status::ProgramChange => 0xC0,
            Status::ChannelPressure => 0xD0,
            Status::PitchBend => 0xE0,
            Status::SysexStart => 0xF0,
            Status::TimeCodeQuarterFrame => 0xF1,
            Status::SongPositionPointer => 0xF2,
            Status::SongSelect => 0xF3,
            Status::TuneRequest => 0xF6,
            Status::TimingClock => 0xF8,
            Status::MeasureEnd => 0xF9,
            Status::Start => 0xFA,
            Status::Continue => 0xFB,
            Status::Stop => 0xFC,
            Status::ActiveSensing => 0xFE,
            Status::SystemReset => 0xFF,
        }
    }

    /// The length of a message of the class, status byte included.
    pub open spec fn spec_expected_len(&self) -> u8 {
        match self {
            Status::SysexStart => 3,
            Status::TuneRequest | Status::TimingClock | Status::Start | Status::Continue
            | Status::Stop | Status::ActiveSensing | Status::SystemReset => 1,
            Status::NoteOff | Status::NoteOn | Status::NotePressure | Status::ControlChange
            | Status::PitchBend | Status::SongPositionPointer => 3,
            Status::ProgramChange | Status::ChannelPressure | Status::TimeCodeQuarterFrame
            | Status::SongSelect | Status::MeasureEnd => 2,
        }
    }

    /// One of the seven channel voice classes.
    pub open spec fn is_channel_voice(self) -> bool {
        self.spec_byte() < 0xF0
    }

    #[verifier::when_used_as_spec(spec_byte)]
    pub fn byte(self) -> (r: u8)
        ensures
            r == self.spec_byte(),
            Status::of_byte(r) == Some(self),
    {
        match self {
            Status::NoteOff => NOTE_OFF,
            Status::NoteOn => NOTE_ON,
            Status::NotePressure => NOTE_PRESSURE,
            Status::ControlChange => CONTROL_CHANGE,
            Status::ProgramChange => PROGRAM_CHANGE,
            Status::ChannelPressure => CHANNEL_PRESSURE,
            Status::PitchBend => PITCH_BEND,
            Status::SysexStart => SYSEX_START,
            Status::TimeCodeQuarterFrame => TIME_CODE_QUARTER_FRAME,
            Status::SongPositionPointer => SONG_POSITION_POINTER,
            Status::SongSelect => SONG_SELECT,
            Status::TuneRequest => TUNE_REQUEST,
            Status::TimingClock => TIMING_CLOCK,
            Status::MeasureEnd => MEASURE_END,
            Status::Start => START,
            Status::Continue => CONTINUE,
            Status::Stop => STOP,
            Status::ActiveSensing => ACTIVE_SENSING,
            Status::SystemReset => SYSTEM_RESET,
        }
    }

    /// Returns the size in bytes of a message of this class, the status byte
    /// included. A system-exclusive run has no fixed size and ends at its
    /// terminator: for it the result is 3, the size of a full packet.
    #[verifier::when_used_as_spec(spec_expected_len)]
    pub fn expected_len(&self) -> (r: u8)
        ensures
            r == self.spec_expected_len(),
            1 <= r <= 3,
    {
        match self {
            Status::SysexStart => 3,
            Status::TuneRequest | Status::TimingClock | Status::Start | Status::Continue
            | Status::Stop | Status::ActiveSensing | Status::SystemReset => 1,
            Status::NoteOff | Status::NoteOn | Status::NotePressure | Status::ControlChange
            | Status::PitchBend | Status::SongPositionPointer => 3,
            Status::ProgramChange | Status::ChannelPressure | Status::TimeCodeQuarterFrame
            | Status::SongSelect | Status::MeasureEnd => 2,
        }
    }
}

impl TryFrom<u8> for Status {
    type Error = MidiError;

    /// Classifies a status byte. Data bytes, the system-exclusive terminator
    /// and the three bytes that MIDI leaves undefined are rejected.
    fn try_from(byte: u8) -> (r: Result<Status, MidiError>) {
        if byte < NOTE_OFF {
            Err(MidiError::InvalidStatus(byte))
        } else if byte < SYSEX_START {
            let class = byte / 16;
            if class == 0x8 {
                Ok(Status::NoteOff)
            } else if class == 0x9 {
                Ok(Status::NoteOn)
            } else if class == 0xA {
                Ok(Status::NotePressure)
            } else if class == 0xB {
                Ok(Status::ControlChange)
            } else if class == 0xC {
                Ok(Status::ProgramChange)
            } else if class == 0xD {
                Ok(Status::ChannelPressure)
            } else {
                Ok(Status::PitchBend)
            }
        } else {
            match byte {
                0xF0 => Ok(Status::SysexStart),
                0xF1 => Ok(Status::TimeCodeQuarterFrame),
                0xF2 => Ok(Status::SongPositionPointer),
                0xF3 => Ok(Status::SongSelect),
                0xF6 => Ok(Status::TuneRequest),
                0xF8 => Ok(Status::TimingClock),
                0xF9 => Ok(Status::MeasureEnd),
                0xFA => Ok(Status::Start),
                0xFB => Ok(Status::Continue),
                0xFC => Ok(Status::Stop),
                0xFE => Ok(Status::ActiveSensing),
                0xFF => Ok(Status::SystemReset),
                _ => Err(MidiError::InvalidStatus(byte)),
            }
        }
    }
}

impl TryFromSpecImpl<u8> for Status {
    open spec fn obeys_try_from_spec() -> bool {
        true
    }

    open spec fn try_from_spec(byte: u8) -> Result<Status, MidiError> {
        Status::classify(byte)
    }
}

/// Every channel voice byte and every system byte that MIDI defines has a
/// class; data bytes and the system-exclusive terminator have none.
pub proof fn lemma_classify_total(byte: u8)
    ensures
        (0x80 <= byte < 0xF0 || (0xF8 <= byte && byte != 0xFD)) ==> Status::classify(byte) is Ok,
        (byte < 0x80 || byte == 0xF7) ==> Status::classify(byte) == Err::<Status, MidiError>(
            MidiError::InvalidStatus(byte),
        ),
        is_non_status(byte) ==> Status::classify(byte) is Err,
        Status::classify(byte) is Ok ==> !is_non_status(byte),
        is_channel_status(byte) ==> Status::classify(byte) is Ok
            && Status::classify(byte)->Ok_0.is_channel_voice()
            && Status::classify(byte)->Ok_0.spec_byte() == byte - byte % 16,
{
}

/// Omits a repeated status byte from the messages written to a serial line,
/// as MIDI running status allows.
pub struct StatusPacker {
    pub(crate) last_status: Option<u8>,
}

impl StatusPacker {
    /// The channel voice status byte that was sent last, if the next message
    /// may still rely on it.
    pub open(crate) spec fn view(self) -> Option<u8> {
        self.last_status
    }

    /// What `pack` hands on for serialising: the payload without its status
    /// byte where that byte repeats the running status, else the payload.
    pub open spec fn packed(last: Option<u8>, payload: Seq<u8>) -> Seq<u8> {
        if is_channel_status(payload[0]) && last == Some(payload[0]) {
            payload.subrange(1, payload.len() as int)
        } else {
            payload
        }
    }

    /// The running status after a payload: its status byte if that opens a
    /// channel voice message, none after anything else.
    pub open spec fn next_status(payload: Seq<u8>) -> Option<u8> {
        if is_channel_status(payload[0]) {
            Some(payload[0])
        } else {
            None
        }
    }

    pub fn new() -> (r: StatusPacker)
        ensures
            r@ == None::<u8>,
    {
        StatusPacker { last_status: None }
    }

    pub fn pack<'a>(&mut self, payload: &'a [u8]) -> (r: &'a [u8])
        requires
            payload@.len() > 0,
        ensures
            r@ == StatusPacker::packed(old(self)@, payload@),
            final(self)@ == StatusPacker::next_status(payload@),
    {
        let first = payload[0];
        if is_channel_status(first) {
            let repeated = match self.last_status {
                Some(last_status) => last_status == first,
                None => false,
            };
            self.last_status = Some(first);
            if repeated {
                return slice_subrange(payload, 1, payload.len());
            }
        } else {
            self.last_status = None;
        }
        payload
    }
}

/// Running status lasts from one channel voice message to the next, and
/// anything else ends it: a payload that opens with the status byte of the
/// payload before it goes out without that byte, and after a payload that
/// opens with any other byte a channel voice message goes out whole.
pub proof fn lemma_running_status(before: Seq<u8>, payload: Seq<u8>)
    requires
        before.len() > 0,
        payload.len() > 0,
        is_channel_status(payload[0]),
    ensures
        before[0] == payload[0] ==> StatusPacker::packed(
            StatusPacker::next_status(before),
            payload,
        ) == payload.subrange(1, payload.len() as int),
        before[0] != payload[0] ==> StatusPacker::packed(
            StatusPacker::next_status(before),
            payload,
        ) == payload,
{
}

impl Default for StatusPacker {
    fn default() -> (r: StatusPacker)
        ensures
            r@ == None::<u8>,
    {
        StatusPacker::new()
    }
}

} // verus!

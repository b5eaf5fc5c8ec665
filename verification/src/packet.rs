//! The four-byte USB-MIDI event packet and its code index number.

use vstd::prelude::*;
use vstd::array::array_as_slice;
use vstd::slice::slice_subrange;
use vstd::std_specs::convert::TryFromSpecImpl;
use crate::bounded::U4;
use crate::channel::MidiChannel;
use crate::error::MidiError;
use crate::status::{is_channel_status, is_non_status, Status};

verus! {

/// The virtual cable that a packet travels on, 0 to 15.
pub type CableNumber = U4;

/// The framing code of a packet: it tells what the payload holds and how many
/// of its three bytes count.
#[derive(Clone, Copy, Debug, PartialEq, Eq, Structural)]
pub enum CodeIndexNumber {
    /// Reserved for miscellaneous function codes.
    MiscFunction,
    /// Reserved for cable events.
    CableEvents,
    /// A system common message of two bytes.
    SystemCommonLen2,
    /// A system common message of three bytes.
    SystemCommonLen3,
    /// Three bytes that start or continue a system-exclusive run.
    Sysex,
    /// A system common message of one byte, or the one byte that ends a
    /// system-exclusive run.
    SystemCommonLen1,
    /// The two bytes that end a system-exclusive run.
    SysexEndsNext2,
    /// The three bytes that end a system-exclusive run.
    SysexEndsNext3,
    NoteOff,
    NoteOn,
    PolyKeypress,
    ControlChange,
    ProgramChange,
    ChannelPressure,
    PitchbendChange,
    /// A single byte, used for system real-time messages.
    SingleByte,
}

impl CodeIndexNumber {
    /// The four-bit code that stands for the framing code on the wire.
    pub open spec fn spec_code(&self) -> u8 {
        match self {
            CodeIndexNumber::MiscFunction => 0x0,
            CodeIndexNumber::CableEvents => 0x1,
            CodeIndexNumber::SystemCommonLen2 => 0x2,
            CodeIndexNumber::SystemCommonLen3 => 0x3,
            CodeIndexNumber::Sysex => 0x4,
            CodeIndexNumber::SystemCommonLen1 => 0x5,
            CodeIndexNumber::SysexEndsNext2 => 0x6,
            CodeIndexNumber::SysexEndsNext3 => 0x7,
            CodeIndexNumber::NoteOff => 0x8,
            CodeIndexNumber::NoteOn => 0x9,
            CodeIndexNumber::PolyKeypress => 0xA,
            CodeIndexNumber::ControlChange => 0xB,
            CodeIndexNumber::ProgramChange => 0xC,
            CodeIndexNumber::ChannelPressure => 0xD,
            CodeIndexNumber::PitchbendChange => 0xE,
            CodeIndexNumber::SingleByte => 0xF,
        }
    }

    /// The framing code that the low four bits of `byte` stand for.
    pub open spec fn of_nibble(byte: u8) -> CodeIndexNumber {
        match byte % 16 {
            0x0 => CodeIndexNumber::MiscFunction,
            0x1 => CodeIndexNumber::CableEvents,
            0x2 => CodeIndexNumber::SystemCommonLen2,
            0x3 => CodeIndexNumber::SystemCommonLen3,
            0x4 => CodeIndexNumber::Sysex,
            0x5 => CodeIndexNumber::SystemCommonLen1,
            0x6 => CodeIndexNumber::SysexEndsNext2,
            0x7 => CodeIndexNumber::SysexEndsNext3,
            0x8 => CodeIndexNumber::NoteOff,
            0x9 => CodeIndexNumber::NoteOn,
            0xA => CodeIndexNumber::PolyKeypress,
            0xB => CodeIndexNumber::ControlChange,
            0xC => CodeIndexNumber::ProgramChange,
            0xD => CodeIndexNumber::ChannelPressure,
            0xE => CodeIndexNumber::PitchbendChange,
            _ => CodeIndexNumber::SingleByte,
        }
    }

    /// What `try_from` gives: the framing code that `code` stands for, or
    /// `InvalidCodeIndexNumber` where `code` does not fit in four bits.
    pub open spec fn checked(code: u8) -> Result<CodeIndexNumber, MidiError> {
        if code <= 0x0f {
            Ok(CodeIndexNumber::of_nibble(code))
        } else {
            Err(MidiError::InvalidCodeIndexNumber)
        }
    }

    /// The number of payload bytes that belong to the MIDI stream. The two
    /// reserved codes carry none.
    pub open spec fn spec_payload_len(&self) -> usize {
        match self {
            CodeIndexNumber::MiscFunction | CodeIndexNumber::CableEvents => 0,
            CodeIndexNumber::SystemCommonLen1 | CodeIndexNumber::SingleByte => 1,
            CodeIndexNumber::SystemCommonLen2 | CodeIndexNumber::SysexEndsNext2
            | CodeIndexNumber::ProgramChange | CodeIndexNumber::ChannelPressure => 2,
            CodeIndexNumber::SystemCommonLen3 | CodeIndexNumber::Sysex
            | CodeIndexNumber::SysexEndsNext3 | CodeIndexNumber::NoteOff | CodeIndexNumber::NoteOn
            | CodeIndexNumber::PolyKeypress | CodeIndexNumber::ControlChange
            | CodeIndexNumber::PitchbendChange => 3,
        }
    }

    /// The framing code of a channel voice message of class `status`: its
    /// code is the high four bits of the status byte. Other classes have
    /// no such code.
    pub open spec fn spec_channel_voice(status: Status) -> Option<CodeIndexNumber> {
        match status {
            Status::NoteOff => Some(CodeIndexNumber::NoteOff),
            Status::NoteOn => Some(CodeIndexNumber::NoteOn),
            Status::NotePressure => Some(CodeIndexNumber::PolyKeypress),
            Status::ControlChange => Some(CodeIndexNumber::ControlChange),
            Status::ProgramChange => Some(CodeIndexNumber::ProgramChange),
            Status::ChannelPressure => Some(CodeIndexNumber::ChannelPressure),
            Status::PitchBend => Some(CodeIndexNumber::PitchbendChange),
            _ => None,
        }
    }

    #[verifier::when_used_as_spec(spec_code)]
    pub fn code(&self) -> (r: u8)
        ensures
            r == self.spec_code(),
            r <= 15,
            CodeIndexNumber::of_nibble(r) == *self,
    {
        match self {
            CodeIndexNumber::MiscFunction => 0x0,
            CodeIndexNumber::CableEvents => 0x1,
            CodeIndexNumber::SystemCommonLen2 => 0x2,
            CodeIndexNumber::SystemCommonLen3 => 0x3,
            CodeIndexNumber::Sysex => 0x4,
            CodeIndexNumber::SystemCommonLen1 => 0x5,
            CodeIndexNumber::SysexEndsNext2 => 0x6,
            CodeIndexNumber::SysexEndsNext3 => 0x7,
            CodeIndexNumber::NoteOff => 0x8,
            CodeIndexNumber::NoteOn => 0x9,
            CodeIndexNumber::PolyKeypress => 0xA,
            CodeIndexNumber::ControlChange => 0xB,
            CodeIndexNumber::ProgramChange => 0xC,
            CodeIndexNumber::ChannelPressure => 0xD,
            CodeIndexNumber::PitchbendChange => 0xE,
            CodeIndexNumber::SingleByte => 0xF,
        }
    }

    /// Reads the framing code from the low four bits of a header byte.
    pub fn from_nibble(byte: u8) -> (r: CodeIndexNumber)
        ensures
            r == CodeIndexNumber::of_nibble(byte),
            r.spec_code() == byte % 16,
    {
        match byte % 16 {
            0x0 => CodeIndexNumber::MiscFunction,
            0x1 => CodeIndexNumber::CableEvents,
            0x2 => CodeIndexNumber::SystemCommonLen2,
            0x3 => CodeIndexNumber::SystemCommonLen3,
            0x4 => CodeIndexNumber::Sysex,
            0x5 => CodeIndexNumber::SystemCommonLen1,
            0x6 => CodeIndexNumber::SysexEndsNext2,
            0x7 => CodeIndexNumber::SysexEndsNext3,
            0x8 => CodeIndexNumber::NoteOff,
            0x9 => CodeIndexNumber::NoteOn,
            0xA => CodeIndexNumber::PolyKeypress,
            0xB => CodeIndexNumber::ControlChange,
            0xC => CodeIndexNumber::ProgramChange,
            0xD => CodeIndexNumber::ChannelPressure,
            0xE => CodeIndexNumber::PitchbendChange,
            _ => CodeIndexNumber::SingleByte,
        }
    }

    #[verifier::when_used_as_spec(spec_payload_len)]
    pub fn payload_len(&self) -> (r: usize)
        ensures
            r == self.spec_payload_len(),
            r <= 3,
    {
        match self {
            CodeIndexNumber::MiscFunction | CodeIndexNumber::CableEvents => 0,
            CodeIndexNumber::SystemCommonLen1 | CodeIndexNumber::SingleByte => 1,
            CodeIndexNumber::SystemCommonLen2 | CodeIndexNumber::SysexEndsNext2
            | CodeIndexNumber::ProgramChange | CodeIndexNumber::ChannelPressure => 2,
            CodeIndexNumber::SystemCommonLen3 | CodeIndexNumber::Sysex
            | CodeIndexNumber::SysexEndsNext3 | CodeIndexNumber::NoteOff | CodeIndexNumber::NoteOn
            | CodeIndexNumber::PolyKeypress | CodeIndexNumber::ControlChange
            | CodeIndexNumber::PitchbendChange => 3,
        }
    }

    /// The framing code of a channel voice message of class `status`.
    pub fn channel_voice(status: Status) -> (r: Option<CodeIndexNumber>)
        ensures
            r == CodeIndexNumber::spec_channel_voice(status),
            r is Some <==> status.is_channel_voice(),
            r is Some ==> r->Some_0.spec_code() == status.spec_byte() / 16,
    {
        match status {
            Status::NoteOff => Some(CodeIndexNumber::NoteOff),
            Status::NoteOn => Some(CodeIndexNumber::NoteOn),
            Status::NotePressure => Some(CodeIndexNumber::PolyKeypress),
            Status::ControlChange => Some(CodeIndexNumber::ControlChange),
            Status::ProgramChange => Some(CodeIndexNumber::ProgramChange),
            Status::ChannelPressure => Some(CodeIndexNumber::ChannelPressure),
            Status::PitchBend => Some(CodeIndexNumber::PitchbendChange),
            _ => None,
        }
    }
}

impl TryFrom<u8> for CodeIndexNumber {
    type Error = MidiError;

    fn try_from(code: u8) -> (r: Result<CodeIndexNumber, MidiError>) {
        if code <= 0x0f {
            Ok(CodeIndexNumber::from_nibble(code))
        } else {
            Err(MidiError::InvalidCodeIndexNumber)
        }
    }
}

impl TryFromSpecImpl<u8> for CodeIndexNumber {
    open spec fn obeys_try_from_spec() -> bool {
        true
    }

    open spec fn try_from_spec(code: u8) -> Result<CodeIndexNumber, MidiError> {
        CodeIndexNumber::checked(code)
    }
}

/// One USB-MIDI event packet: a header byte that holds the cable number in
/// its high four bits and the code index number in its low four, then three
/// payload bytes. Payload bytes that the code index number does not count
/// are zero in every packet that this library builds.
#[derive(Clone, Copy, Debug, PartialEq, Eq)]
pub struct Packet {
    pub(crate) bytes: [u8; 4],
}

impl Packet {
    /// The four bytes as they travel over USB.
    pub open(crate) spec fn view(self) -> Seq<u8> {
        self.bytes@
    }

    /// The four bytes of the packet on cable `cable` with framing code `cin`
    /// and payload `b0`, `b1`, `b2`.
    pub open spec fn framed(cable: u8, cin: CodeIndexNumber, b0: u8, b1: u8, b2: u8) -> Seq<u8> {
        seq![(cable * 16 + cin.spec_code()) as u8, b0, b1, b2]
    }

    /// The cable number held in the header byte.
    pub open spec fn spec_cable(self) -> u8 {
        self@[0] / 16
    }

    /// The framing code held in the header byte.
    pub open spec fn spec_cin(self) -> CodeIndexNumber {
        CodeIndexNumber::of_nibble(self@[0])
    }

    /// The payload bytes that the framing code counts.
    pub open spec fn spec_payload(self) -> Seq<u8> {
        self@.subrange(1, 1 + self.spec_cin().spec_payload_len())
    }

    /// The class of the first payload byte: none where that is a data byte
    /// or the system-exclusive terminator, an error where it is a status
    /// byte that MIDI leaves undefined.
    pub open spec fn spec_status(self) -> Result<Option<Status>, MidiError> {
        if is_non_status(self@[1]) {
            Ok(None)
        } else {
            match Status::classify(self@[1]) {
                Ok(status) => Ok(Some(status)),
                Err(e) => Err(e),
            }
        }
    }

    /// The channel held in the low four bits of a channel voice status byte.
    pub open spec fn spec_channel(self) -> Option<MidiChannel> {
        if is_channel_status(self@[1]) {
            MidiChannel::of_index(self@[1] % 16)
        } else {
            None
        }
    }

    /// Two packets with the same four bytes are the same packet.
    pub proof fn lemma_ext_equal(self, other: Packet)
        requires
            self@ == other@,
        ensures
            self == other,
    {
        broadcast use vstd::array::axiom_array_ext_equal;
        assert(self.bytes@.len() == 4);
        assert(self.bytes =~= other.bytes);
    }

    pub fn new(cable: CableNumber, cin: CodeIndexNumber, b0: u8, b1: u8, b2: u8) -> (r: Packet)
        ensures
            r@ == Packet::framed(cable@, cin, b0, b1, b2),
            r.spec_cable() == cable@,
            r.spec_cin() == cin,
    {
        let header: u8 = cable.value() * 16 + cin.code();
        let r = Packet { bytes: [header, b0, b1, b2] };
        assert(r@ =~= Packet::framed(cable@, cin, b0, b1, b2));
        r
    }

    /// Takes the four bytes of a packet as they came over USB.
    pub fn from_raw(bytes: [u8; 4]) -> (r: Packet)
        ensures
            r@ == bytes@,
    {
        Packet { bytes }
    }

    /// The four bytes of the packet as they go over USB.
    pub fn bytes(&self) -> (r: &[u8; 4])
        ensures
            r@ == self@,
            r@.len() == 4,
    {
        &self.bytes
    }

    pub fn cable_number(&self) -> (r: CableNumber)
        ensures
            r@ == self.spec_cable(),
    {
        U4(self.bytes[0] / 16)
    }

    pub fn code_index_number(&self) -> (r: CodeIndexNumber)
        ensures
            r == self.spec_cin(),
    {
        CodeIndexNumber::from_nibble(self.bytes[0])
    }

    pub fn status(&self) -> (r: Result<Option<Status>, MidiError>)
        ensures
            r == self.spec_status(),
    {
        let first = self.bytes[1];
        if is_non_status(first) {
            Ok(None)
        } else {
            match Status::try_from(first) {
                Ok(status) => Ok(Some(status)),
                Err(e) => Err(e),
            }
        }
    }

    pub fn channel(&self) -> (r: Option<MidiChannel>)
        ensures
            r == self.spec_channel(),
            r is Some <==> is_channel_status(self@[1]),
    {
        let first = self.bytes[1];
        if is_channel_status(first) {
            MidiChannel::from_index(first % 16)
        } else {
            None
        }
    }

    /// The bytes of the packet that belong to the MIDI stream, as they go
    /// out on a serial line.
    pub fn payload(&self) -> (r: &[u8])
        ensures
            r@ == self.spec_payload(),
            r@.len() == self.spec_cin().spec_payload_len(),
    {
        let len = self.code_index_number().payload_len();
        slice_subrange(array_as_slice(&self.bytes), 1, 1 + len)
    }

    /// The same packet on another cable. Fails with `InvalidCableNumber`
    /// where `cable` is above 15.
    pub fn with_cable_num(self, cable: u8) -> (r: Result<Packet, MidiError>)
        ensures
            cable <= 15 ==> r is Ok && r->Ok_0@ == Packet::framed(
                cable,
                self.spec_cin(),
                self@[1],
                self@[2],
                self@[3],
            ),
            cable > 15 ==> r == Err::<Packet, MidiError>(MidiError::InvalidCableNumber),
    {
        if cable > 15 {
            return Err(MidiError::InvalidCableNumber);
        }
        let cin = self.code_index_number();
        Ok(Packet::new(U4(cable), cin, self.bytes[1], self.bytes[2], self.bytes[3]))
    }
}

/// Taking a packet apart and framing its parts again gives the same four
/// bytes.
pub proof fn lemma_packet_reframed(p: Packet)
    ensures
        Packet::framed(p.spec_cable(), p.spec_cin(), p@[1], p@[2], p@[3]) == p@,
{
    assert(p.bytes@.len() == 4);
    assert(Packet::framed(p.spec_cable(), p.spec_cin(), p@[1], p@[2], p@[3]) =~= p@);
}

} // verus!

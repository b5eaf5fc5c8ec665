//! Rebuilds USB-MIDI packets from a raw serial byte stream, one byte at a
//! time.

use vstd::prelude::*;
use crate::bounded::U4;
use crate::error::MidiError;
use crate::message::MidiMessage;
use crate::packet::{CodeIndexNumber, Packet};
use crate::status::{is_realtime_status, Status, StatusPacker, SYSEX_END, SYSEX_START};
use crate::sysex::{closes_at, fragment_at, fragments_from};

verus! {

/// The bytes of a system-exclusive run that wait for their packet to fill.
#[derive(Clone, Copy, Debug, PartialEq, Eq, Structural)]
pub enum Held {
    Nothing,
    One(u8),
    Two(u8, u8),
}

/// Where the parser stands in the stream.
#[derive(Clone, Copy, Debug, PartialEq, Eq, Structural)]
pub enum ParserState {
    /// No status is known: a data byte cannot be placed.
    Idle,
    /// A message of two or three bytes is open or may be repeated under
    /// running status. `first` is the first data byte of a three-byte
    /// message whose second has not come yet.
    AwaitingData { status: u8, first: Option<u8> },
    /// A system-exclusive run is open. The start byte is held like the data
    /// bytes that follow it, so that it goes out in front of the first
    /// packet of the run.
    InSysex { held: Held },
}

/// What one step of the parser hands back, with a packet given by its bytes.
pub type Emitted = Result<Option<Seq<u8>>, MidiError>;

impl ParserState {
    /// The framing code of a complete message that `status` opens: the
    /// high four bits of a channel voice status byte, and for the other
    /// messages the system common code of their length.
    pub open spec fn message_cin(status: u8) -> CodeIndexNumber {
        if status < 0xF0 {
            CodeIndexNumber::of_nibble(status / 16)
        } else if Status::of_byte(status) matches Some(class) && class.spec_expected_len() == 3 {
            CodeIndexNumber::SystemCommonLen3
        } else {
            CodeIndexNumber::SystemCommonLen2
        }
    }

    /// A status byte that opens a message of two or three bytes.
    pub open spec fn opens_message(status: u8) -> bool {
        Status::of_byte(status) matches Some(class) && class != Status::SysexStart
            && class.spec_expected_len() >= 2
    }

    /// The states that the parser can reach.
    pub open spec fn wf(self) -> bool {
        match self {
            ParserState::Idle => true,
            ParserState::AwaitingData { status, first } => {
                &&& Self::opens_message(status)
                &&& first is Some ==> Status::of_byte(status)->Some_0.spec_expected_len() == 3
                    && first->Some_0 < 0x80
            },
            ParserState::InSysex { held } => true,
        }
    }

    /// The state after `byte`.
    pub open spec fn next(self, byte: u8) -> ParserState {
        if is_realtime_status(byte) {
            self
        } else if byte == 0xF0 {
            ParserState::InSysex { held: Held::One(0xF0) }
        } else if byte == 0xF7 {
            ParserState::Idle
        } else if byte >= 0x80 {
            if Self::opens_message(byte) {
                ParserState::AwaitingData { status: byte, first: None }
            } else {
                ParserState::Idle
            }
        } else {
            match self {
                ParserState::Idle => ParserState::Idle,
                ParserState::AwaitingData { status, first } => {
                    if !Self::opens_message(status) {
                        ParserState::Idle
                    } else if Status::of_byte(status)->Some_0.spec_expected_len() == 3
                        && first is None {
                        ParserState::AwaitingData { status, first: Some(byte) }
                    } else {
                        ParserState::AwaitingData { status, first: None }
                    }
                },
                ParserState::InSysex { held } => match held {
                    Held::Nothing => ParserState::InSysex { held: Held::One(byte) },
                    Held::One(a) => ParserState::InSysex { held: Held::Two(a, byte) },
                    Held::Two(_, _) => ParserState::InSysex { held: Held::Nothing },
                },
            }
        }
    }

    /// What the parser hands back for `byte`: a packet on cable 0, nothing,
    /// or an error.
    /// - A system real-time byte gives a single-byte packet at once, in any
    ///   state.
    /// - The system-exclusive start byte gives nothing yet.
    /// - The system-exclusive terminator closes an open run with the packet
    ///   that ends it; with no run open it is spurious.
    /// - Any other status byte gives nothing yet if it opens a message of
    ///   two or three bytes, a one-byte system common packet if it is a
    ///   message by itself, and is invalid if MIDI does not define it.
    /// - A data byte is invalid with no status known, completes a message
    ///   when it is the last byte of one, fills a packet of a
    ///   system-exclusive run when it is the third byte held, and gives
    ///   nothing yet otherwise.
    pub open spec fn emitted(self, byte: u8) -> Emitted {
        if is_realtime_status(byte) {
            Ok(Some(Packet::framed(0, CodeIndexNumber::SingleByte, byte, 0, 0)))
        } else if byte == 0xF0 {
            Ok(None)
        } else if byte == 0xF7 {
            match self {
                ParserState::InSysex { held } => match held {
                    Held::Nothing => Ok(
                        Some(Packet::framed(0, CodeIndexNumber::SystemCommonLen1, 0xF7, 0, 0)),
                    ),
                    Held::One(a) => Ok(
                        Some(Packet::framed(0, CodeIndexNumber::SysexEndsNext2, a, 0xF7, 0)),
                    ),
                    Held::Two(a, b) => Ok(
                        Some(Packet::framed(0, CodeIndexNumber::SysexEndsNext3, a, b, 0xF7)),
                    ),
                },
                _ => Err(MidiError::SpuriousSysexEnd),
            }
        } else if byte >= 0x80 {
            match Status::of_byte(byte) {
                None => Err(MidiError::InvalidStatus(byte)),
                Some(class) => if class.spec_expected_len() == 1 {
                    Ok(Some(Packet::framed(0, CodeIndexNumber::SystemCommonLen1, byte, 0, 0)))
                } else {
                    Ok(None)
                },
            }
        } else {
            match self {
                ParserState::Idle => Err(MidiError::InvalidStatus(byte)),
                ParserState::AwaitingData { status, first } => {
                    if !Self::opens_message(status) {
                        Err(MidiError::InvalidStatus(byte))
                    } else if Status::of_byte(status)->Some_0.spec_expected_len() == 3 {
                        match first {
                            None => Ok(None),
                            Some(a) => Ok(
                                Some(Packet::framed(0, Self::message_cin(status), status, a, byte)),
                            ),
                        }
                    } else {
                        Ok(Some(Packet::framed(0, Self::message_cin(status), status, byte, 0)))
                    }
                },
                ParserState::InSysex { held } => match held {
                    Held::Two(a, b) => Ok(
                        Some(Packet::framed(0, CodeIndexNumber::Sysex, a, b, byte)),
                    ),
                    _ => Ok(None),
                },
            }
        }
    }
}

/// The result of a step with its packet taken by its bytes.
pub open spec fn emitted_view(r: Result<Option<Packet>, MidiError>) -> Emitted {
    match r {
        Ok(Some(p)) => Ok(Some(p@)),
        Ok(None) => Ok(None),
        Err(e) => Err(e),
    }
}

/// Consumes a serial MIDI stream byte by byte and hands out the packets that
/// it holds. It rebuilds running status, lets real-time bytes through in the
/// middle of anything, and cuts system-exclusive runs into packets. After an
/// error it stands idle until the next status byte.
#[derive(Clone, Copy, Debug)]
pub struct PacketParser {
    pub(crate) state: ParserState,
}

impl PacketParser {
    /// Where the parser stands.
    pub open(crate) spec fn view(self) -> ParserState {
        self.state
    }

    pub fn new() -> (r: PacketParser)
        ensures
            r@ == ParserState::Idle,
    {
        PacketParser { state: ParserState::Idle }
    }

    /// Where the parser stands.
    pub fn state(&self) -> (r: ParserState)
        ensures
            r == self@,
    {
        self.state
    }

    /// Takes the next byte of the stream. Returns the packet that the byte
    /// completes, if it completes one.
    pub fn advance(&mut self, byte: u8) -> (r: Result<Option<Packet>, MidiError>)
        ensures
            final(self)@ == old(self)@.next(byte),
            emitted_view(r) == old(self)@.emitted(byte),
    {
        let cable = U4::min();
        if is_realtime_status(byte) {
            return Ok(Some(Packet::new(cable, CodeIndexNumber::SingleByte, byte, 0, 0)));
        }
        if byte == SYSEX_START {
            self.state = ParserState::InSysex { held: Held::One(SYSEX_START) };
            return Ok(None);
        }
        if byte == SYSEX_END {
            let state = self.state;
            self.state = ParserState::Idle;
            return match state {
                ParserState::InSysex { held } => match held {
                    Held::Nothing => Ok(
                        Some(Packet::new(cable, CodeIndexNumber::SystemCommonLen1, SYSEX_END, 0, 0)),
                    ),
                    Held::One(a) => Ok(
                        Some(Packet::new(cable, CodeIndexNumber::SysexEndsNext2, a, SYSEX_END, 0)),
                    ),
                    Held::Two(a, b) => Ok(
                        Some(Packet::new(cable, CodeIndexNumber::SysexEndsNext3, a, b, SYSEX_END)),
                    ),
                },
                _ => Err(MidiError::SpuriousSysexEnd),
            };
        }
        if byte >= 0x80 {
            return match Status::try_from(byte) {
                Err(e) => {
                    self.state = ParserState::Idle;
                    Err(e)
                },
                Ok(class) => {
                    if class.expected_len() == 1 {
                        self.state = ParserState::Idle;
                        Ok(Some(Packet::new(cable, CodeIndexNumber::SystemCommonLen1, byte, 0, 0)))
                    } else {
                        self.state = ParserState::AwaitingData { status: byte, first: None };
                        Ok(None)
                    }
                },
            };
        }
        match self.state {
            ParserState::Idle => Err(MidiError::InvalidStatus(byte)),
            ParserState::AwaitingData { status, first } => {
                let len = match open_message_len(status) {
                    Some(len) => len,
                    None => {
                        self.state = ParserState::Idle;
                        return Err(MidiError::InvalidStatus(byte));
                    },
                };
                let cin = complete_message_cin(status, len);
                if len == 3 {
                    match first {
                        None => {
                            self.state = ParserState::AwaitingData { status, first: Some(byte) };
                            Ok(None)
                        },
                        Some(a) => {
                            self.state = ParserState::AwaitingData { status, first: None };
                            Ok(Some(Packet::new(cable, cin, status, a, byte)))
                        },
                    }
                } else {
                    self.state = ParserState::AwaitingData { status, first: None };
                    Ok(Some(Packet::new(cable, cin, status, byte, 0)))
                }
            },
            ParserState::InSysex { held } => match held {
                Held::Nothing => {
                    self.state = ParserState::InSysex { held: Held::One(byte) };
                    Ok(None)
                },
                Held::One(a) => {
                    self.state = ParserState::InSysex { held: Held::Two(a, byte) };
                    Ok(None)
                },
                Held::Two(a, b) => {
                    self.state = ParserState::InSysex { held: Held::Nothing };
                    Ok(Some(Packet::new(cable, CodeIndexNumber::Sysex, a, b, byte)))
                },
            },
        }
    }
}

impl Default for PacketParser {
    fn default() -> (r: PacketParser)
        ensures
            r@ == ParserState::Idle,
    {
        PacketParser::new()
    }
}

/// The length of the message that `status` opens, where it opens one of two
/// or three bytes.
fn open_message_len(status: u8) -> (r: Option<u8>)
    ensures
        r is Some <==> ParserState::opens_message(status),
        r is Some ==> r->Some_0 == Status::of_byte(status)->Some_0.spec_expected_len(),
        r is Some ==> r->Some_0 == 2 || r->Some_0 == 3,
{
    if status == SYSEX_START {
        return None;
    }
    match Status::try_from(status) {
        Ok(class) => {
            let len = class.expected_len();
            if len >= 2 {
                Some(len)
            } else {
                None
            }
        },
        Err(_) => None,
    }
}

fn complete_message_cin(status: u8, len: u8) -> (r: CodeIndexNumber)
    requires
        ParserState::opens_message(status),
        len == Status::of_byte(status)->Some_0.spec_expected_len(),
    ensures
        r == ParserState::message_cin(status),
{
    if status < SYSEX_START {
        CodeIndexNumber::from_nibble(status / 16)
    } else if len == 3 {
        CodeIndexNumber::SystemCommonLen3
    } else {
        CodeIndexNumber::SystemCommonLen2
    }
}

/// Every step takes a reachable state to a reachable state.
pub proof fn lemma_step_keeps_wf(s: ParserState, byte: u8)
    requires
        s.wf(),
    ensures
        s.next(byte).wf(),
{
}

/// A system real-time byte may arrive in any state: it comes out at once as
/// a single-byte packet and leaves the state as it was, so that the message
/// it interrupts completes as if the byte had not been there.
pub proof fn lemma_realtime_is_transparent(s: ParserState, byte: u8)
    requires
        is_realtime_status(byte),
    ensures
        s.next(byte) == s,
        s.emitted(byte) == Ok::<Option<Seq<u8>>, MidiError>(
            Some(Packet::framed(0, CodeIndexNumber::SingleByte, byte, 0, 0)),
        ),
{
}

/// An error leaves the parser idle.
pub proof fn lemma_error_resets(s: ParserState, byte: u8)
    requires
        s.emitted(byte) is Err,
    ensures
        s.next(byte) == ParserState::Idle,
{
}

/// From any state, the bytes of a channel voice message as they stand on a
/// serial line come out as the packet that encodes the message. The parser
/// then keeps the status byte, so that the data bytes of a further message
/// of the same kind and channel, sent without their status byte, come out as
/// the packet of that message.
pub proof fn lemma_parses_channel_voice(s: ParserState, m: MidiMessage)
    requires
        m.wf(),
        m.is_channel_voice(),
    ensures
        ({
            let wire = m.encoded(0);
            let after_status = s.next(wire[1]);
            let running = ParserState::AwaitingData { status: wire[1], first: None };
            if m is ProgramChange || m is ChannelPressure {
                &&& s.emitted(wire[1]) == Ok::<Option<Seq<u8>>, MidiError>(None)
                &&& after_status == running
                &&& running.emitted(wire[2]) == Ok::<Option<Seq<u8>>, MidiError>(Some(wire))
                &&& running.next(wire[2]) == running
            } else {
                &&& s.emitted(wire[1]) == Ok::<Option<Seq<u8>>, MidiError>(None)
                &&& after_status == running
                &&& running.emitted(wire[2]) == Ok::<Option<Seq<u8>>, MidiError>(None)
                &&& running.next(wire[2]).emitted(wire[3]) == Ok::<Option<Seq<u8>>, MidiError>(
                    Some(wire),
                )
                &&& running.next(wire[2]).next(wire[3]) == running
            }
        }),
{
    let wire = m.encoded(0);
    assert(wire[1] >= 0x80 && wire[1] < 0xF0);
    assert(wire =~= Packet::framed(0, ParserState::message_cin(wire[1]), wire[1], wire[2], wire[3]));
}

/// The packets that the parser hands out for the bytes of `bytes` from `i`
/// on, when it stands in state `s` before them. A byte that gives an error
/// hands out nothing.
pub open spec fn packets_from(s: ParserState, bytes: Seq<u8>, i: int) -> Seq<Seq<u8>>
    decreases bytes.len() - i,
{
    if i < 0 || i >= bytes.len() {
        Seq::<Seq<u8>>::empty()
    } else {
        let rest = packets_from(s.next(bytes[i]), bytes, i + 1);
        match s.emitted(bytes[i]) {
            Ok(Some(p)) => seq![p] + rest,
            _ => rest,
        }
    }
}

/// The state of the parser after the bytes of `bytes` from `i` on, when it
/// stands in state `s` before them.
pub open spec fn state_after(s: ParserState, bytes: Seq<u8>, i: int) -> ParserState
    decreases bytes.len() - i,
{
    if i < 0 || i >= bytes.len() {
        s
    } else {
        state_after(s.next(bytes[i]), bytes, i + 1)
    }
}

/// The four bytes of the packets that carry the fragments of a payload from
/// `pos` on, on cable 0.
pub open spec fn fragment_packets(data: Seq<u8>, pos: int) -> Seq<Seq<u8>> {
    fragments_from(data, pos).map_values(|m: MidiMessage| m.encoded(0))
}

/// A system-exclusive run on the wire: the start byte, the payload, the
/// terminator.
pub open spec fn sysex_wire(data: Seq<u8>) -> Seq<u8> {
    seq![0xF0u8] + data + seq![0xF7u8]
}

proof fn lemma_fragment_packets_unfold(data: Seq<u8>, pos: int)
    requires
        0 <= pos,
    ensures
        closes_at(data, pos) ==> fragment_packets(data, pos) == seq![
            fragment_at(data, pos).encoded(0),
        ],
        !closes_at(data, pos) ==> fragment_packets(data, pos) == seq![
            fragment_at(data, pos).encoded(0),
        ] + fragment_packets(data, if pos == 0 {
            2
        } else {
            pos + 3
        }),
{
    if closes_at(data, pos) {
        assert(fragment_packets(data, pos) =~= seq![fragment_at(data, pos).encoded(0)]);
    } else {
        let next = if pos == 0 {
            2
        } else {
            pos + 3
        };
        assert(fragments_from(data, pos) =~= seq![fragment_at(data, pos)] + fragments_from(
            data,
            next,
        ));
        assert(fragment_packets(data, pos) =~= seq![fragment_at(data, pos).encoded(0)]
            + fragment_packets(data, next));
    }
}

/// With the first packet of a run handed out and nothing held, the rest of
/// the run comes out as the packets of the fragments that carry the rest of
/// its payload.
proof fn lemma_parses_sysex_rest(data: Seq<u8>, pos: int)
    requires
        forall|k: int| 0 <= k < data.len() ==> data[k] < 0x80,
        2 <= pos <= data.len(),
    ensures
        packets_from(ParserState::InSysex { held: Held::Nothing }, sysex_wire(data), pos + 1)
            == fragment_packets(data, pos),
        state_after(ParserState::InSysex { held: Held::Nothing }, sysex_wire(data), pos + 1)
            == ParserState::Idle,
    decreases data.len() - pos,
{
    let wire = sysex_wire(data);
    let s0 = ParserState::InSysex { held: Held::Nothing };
    let left = data.len() - pos;
    assert(wire.len() == data.len() + 2);
    assert(forall|k: int| 0 <= k < data.len() ==> wire[k + 1] == data[k]);
    assert(wire[data.len() as int + 1] == 0xF7);
    lemma_fragment_packets_unfold(data, pos);
    reveal_with_fuel(packets_from, 5);
    reveal_with_fuel(state_after, 5);
    if left == 0 {
        assert(packets_from(s0, wire, pos + 1) =~= fragment_packets(data, pos));
    } else if left == 1 {
        assert(wire[pos + 1] == data[pos]);
        assert(packets_from(s0, wire, pos + 1) =~= fragment_packets(data, pos));
    } else if left == 2 {
        assert(wire[pos + 1] == data[pos]);
        assert(wire[pos + 2] == data[pos + 1]);
        assert(packets_from(s0, wire, pos + 1) =~= fragment_packets(data, pos));
    } else {
        assert(wire[pos + 1] == data[pos]);
        assert(wire[pos + 2] == data[pos + 1]);
        assert(wire[pos + 3] == data[pos + 2]);
        lemma_parses_sysex_rest(data, pos + 3);
        let s1 = s0.next(wire[pos + 1]);
        let s2 = s1.next(wire[pos + 2]);
        let s3 = s2.next(wire[pos + 3]);
        assert(s3 == s0);
        assert(packets_from(s0, wire, pos + 1) =~= seq![
            fragment_at(data, pos).encoded(0),
        ] + packets_from(s0, wire, pos + 4));
    }
}

/// From any state, a system-exclusive run on the wire comes out as the
/// packets of the fragments that carry its payload, the same packets that a
/// message on its way out would hand out for that payload. The parser is
/// idle afterwards.
pub proof fn lemma_parses_sysex(s: ParserState, data: Seq<u8>)
    requires
        forall|k: int| 0 <= k < data.len() ==> data[k] < 0x80,
    ensures
        packets_from(s, sysex_wire(data), 0) == fragment_packets(data, 0),
        state_after(s, sysex_wire(data), 0) == ParserState::Idle,
{
    let wire = sysex_wire(data);
    assert(wire.len() == data.len() + 2);
    assert(wire[0] == 0xF0);
    assert(forall|k: int| 0 <= k < data.len() ==> wire[k + 1] == data[k]);
    assert(wire[data.len() as int + 1] == 0xF7);
    lemma_fragment_packets_unfold(data, 0);
    reveal_with_fuel(packets_from, 5);
    reveal_with_fuel(state_after, 5);
    if data.len() == 0 {
        assert(packets_from(s, wire, 0) =~= fragment_packets(data, 0));
    } else if data.len() == 1 {
        assert(wire[1] == data[0]);
        assert(packets_from(s, wire, 0) =~= fragment_packets(data, 0));
    } else {
        assert(wire[1] == data[0]);
        assert(wire[2] == data[1]);
        lemma_parses_sysex_rest(data, 2);
        let s1 = s.next(wire[0]);
        let s2 = s1.next(wire[1]);
        let s3 = s2.next(wire[2]);
        assert(s3 == ParserState::InSysex { held: Held::Nothing });
        assert(packets_from(s, wire, 0) =~= seq![fragment_at(data, 0).encoded(0)] + packets_from(
            s3,
            wire,
            3,
        ));
    }
}

/// The bytes of a channel voice message as they stand on a serial line: the
/// status byte, then one or two data bytes.
pub open spec fn serial_bytes(m: MidiMessage) -> Seq<u8> {
    if m is ProgramChange || m is ChannelPressure {
        m.encoded(0).subrange(1, 3)
    } else {
        m.encoded(0).subrange(1, 4)
    }
}

/// What the running-status compressor takes out on the way to a serial
/// line, the parser puts back at the other end. When one channel voice
/// message follows another, the bytes that the compressor lets through for
/// the second, with or without their status byte, come out of the parser as
/// the packet of the second message.
pub proof fn lemma_compressed_stream_parses(first: MidiMessage, second: MidiMessage)
    requires
        first.wf(),
        first.is_channel_voice(),
        second.wf(),
        second.is_channel_voice(),
    ensures
        ({
            let sent = StatusPacker::packed(
                StatusPacker::next_status(serial_bytes(first)),
                serial_bytes(second),
            );
            let listening = state_after(ParserState::Idle, serial_bytes(first), 0);
            packets_from(listening, sent, 0) == seq![second.encoded(0)]
        }),
{
    let one = serial_bytes(first);
    let two = serial_bytes(second);
    let sent = StatusPacker::packed(StatusPacker::next_status(one), two);
    let listening = state_after(ParserState::Idle, one, 0);
    let running = ParserState::AwaitingData { status: one[0], first: None };
    lemma_parses_channel_voice(ParserState::Idle, first);
    lemma_parses_channel_voice(listening, second);
    lemma_parses_channel_voice(running, second);
    reveal_with_fuel(packets_from, 5);
    reveal_with_fuel(state_after, 5);
    assert(one[0] == first.encoded(0)[1]);
    assert(two[0] == second.encoded(0)[1]);
    assert(listening == running);
    if one[0] == two[0] {
        assert(sent =~= two.subrange(1, two.len() as int));
        assert(packets_from(listening, sent, 0) =~= seq![second.encoded(0)]);
    } else {
        assert(sent == two);
        assert(packets_from(listening, sent, 0) =~= seq![second.encoded(0)]);
    }
}

} // verus!

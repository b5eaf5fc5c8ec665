use midi_bridge::bounded::{U14, U4, U7};
use midi_bridge::channel::MidiChannel;
use midi_bridge::error::MidiError;
use midi_bridge::message::{note_off, note_on, program_change, MidiMessage};
use midi_bridge::packet::{CodeIndexNumber, Packet};
use midi_bridge::status::Status;

fn u7(v: u8) -> U7 {
    U7::try_from(v).unwrap()
}

fn every_kind() -> Vec<MidiMessage> {
    let ch = MidiChannel::CH3;
    vec![
        MidiMessage::NoteOff(ch, u7(60), u7(0)),
        MidiMessage::NoteOn(ch, u7(60), u7(100)),
        MidiMessage::NotePressure(ch, u7(61), u7(7)),
        MidiMessage::ChannelPressure(ch, u7(99)),
        MidiMessage::ProgramChange(ch, u7(12)),
        MidiMessage::ControlChange(ch, u7(7), u7(127)),
        MidiMessage::PitchBend(ch, U14::try_from(8192u16).unwrap()),
        MidiMessage::PitchBend(MidiChannel::CH16, U14::try_from(0x1234u16).unwrap()),
        MidiMessage::TimeCodeQuarterFrame(u7(0x35)),
        MidiMessage::SongPositionPointer(u7(0x12), u7(0x34)),
        MidiMessage::SongSelect(u7(3)),
        MidiMessage::TuneRequest,
        MidiMessage::TimingClock,
        MidiMessage::MeasureEnd(u7(9)),
        MidiMessage::Start,
        MidiMessage::Continue,
        MidiMessage::Stop,
        MidiMessage::ActiveSensing,
        MidiMessage::SystemReset,
        MidiMessage::SysexBegin(1, 2),
        MidiMessage::SysexCont(3, 4, 5),
        MidiMessage::SysexEnd,
        MidiMessage::SysexEnd1(6),
        MidiMessage::SysexEnd2(7, 8),
        MidiMessage::SysexEmpty,
        MidiMessage::SysexSingleByte(9),
    ]
}

#[test]
fn decode_inverts_encode_on_every_cable() {
    for cable in 0u8..16 {
        let cable = U4::try_from(cable).unwrap();
        for m in every_kind() {
            let p = m.encode(cable);
            assert_eq!(p.cable_number(), cable);
            assert_eq!(MidiMessage::decode(p), Ok(m));
            assert_eq!(MidiMessage::try_from(p), Ok(m));
        }
    }
}

#[test]
fn decode_inverts_encode_for_all_channel_voice_notes() {
    for ch in 0u8..16 {
        let channel = MidiChannel::from_index(ch).unwrap();
        for note in 0u8..128 {
            let m = MidiMessage::NoteOn(channel, u7(note), u7(127 - note));
            assert_eq!(MidiMessage::decode(Packet::from(m)), Ok(m));
        }
    }
}

#[test]
fn channel_voice_packets_are_byte_exact() {
    let note_on = MidiMessage::NoteOn(MidiChannel::CH1, u7(0x3C), u7(0x64));
    assert_eq!(Packet::from(note_on).bytes(), &[0x09, 0x90, 0x3C, 0x64]);
    let cable = U4::try_from(2u8).unwrap();
    let cc = MidiMessage::ControlChange(MidiChannel::CH10, u7(7), u7(100));
    assert_eq!(cc.encode(cable).bytes(), &[0x2B, 0xB9, 7, 100]);
    let pc = MidiMessage::ProgramChange(MidiChannel::CH2, u7(5));
    assert_eq!(Packet::from(pc).bytes(), &[0x0C, 0xC1, 5, 0]);
    let off = MidiMessage::NoteOff(MidiChannel::CH16, u7(1), u7(2));
    assert_eq!(Packet::from(off).bytes(), &[0x08, 0x8F, 1, 2]);
}

#[test]
fn pitch_bend_sends_the_low_bits_first() {
    let centre = MidiMessage::PitchBend(MidiChannel::CH1, U14::try_from(8192u16).unwrap());
    assert_eq!(Packet::from(centre).bytes(), &[0x0E, 0xE0, 0x00, 0x40]);
    let p = Packet::from_raw([0x0E, 0xE1, 0x01, 0x02]);
    assert_eq!(
        MidiMessage::decode(p),
        Ok(MidiMessage::PitchBend(MidiChannel::CH2, U14::try_from(0x0101u16).unwrap()))
    );
}

#[test]
fn system_packets_are_byte_exact() {
    assert_eq!(Packet::from(MidiMessage::TimingClock).bytes(), &[0x0F, 0xF8, 0, 0]);
    assert_eq!(Packet::from(MidiMessage::SystemReset).bytes(), &[0x0F, 0xFF, 0, 0]);
    assert_eq!(Packet::from(MidiMessage::TuneRequest).bytes(), &[0x05, 0xF6, 0, 0]);
    assert_eq!(Packet::from(MidiMessage::SongSelect(u7(3))).bytes(), &[0x02, 0xF3, 3, 0]);
    assert_eq!(
        Packet::from(MidiMessage::SongPositionPointer(u7(1), u7(2))).bytes(),
        &[0x03, 0xF2, 1, 2]
    );
}

#[test]
fn sysex_packets_are_byte_exact() {
    assert_eq!(Packet::from(MidiMessage::SysexBegin(1, 2)).bytes(), &[0x04, 0xF0, 1, 2]);
    assert_eq!(Packet::from(MidiMessage::SysexCont(3, 4, 5)).bytes(), &[0x04, 3, 4, 5]);
    assert_eq!(Packet::from(MidiMessage::SysexEnd).bytes(), &[0x05, 0xF7, 0, 0]);
    assert_eq!(Packet::from(MidiMessage::SysexEnd1(6)).bytes(), &[0x06, 6, 0xF7, 0]);
    assert_eq!(Packet::from(MidiMessage::SysexEnd2(7, 8)).bytes(), &[0x07, 7, 8, 0xF7]);
    assert_eq!(Packet::from(MidiMessage::SysexEmpty).bytes(), &[0x06, 0xF0, 0xF7, 0]);
    assert_eq!(Packet::from(MidiMessage::SysexSingleByte(9)).bytes(), &[0x07, 0xF0, 9, 0xF7]);
}

#[test]
fn song_position_pointer_keeps_two_distinct_fields() {
    let p = Packet::from_raw([0x03, 0xF2, 0x12, 0x34]);
    assert_eq!(
        MidiMessage::decode(p),
        Ok(MidiMessage::SongPositionPointer(u7(0x12), u7(0x34)))
    );
    let reset = Packet::from_raw([0x03, 0xFF, 0x12, 0x34]);
    assert_eq!(MidiMessage::decode(reset), Err(MidiError::BadPacket(reset)));
}

#[test]
fn one_byte_messages_decode_under_both_codes() {
    assert_eq!(MidiMessage::decode(Packet::from_raw([0x05, 0xF8, 0, 0])), Ok(MidiMessage::TimingClock));
    assert_eq!(MidiMessage::decode(Packet::from_raw([0x0F, 0xF8, 0, 0])), Ok(MidiMessage::TimingClock));
    assert_eq!(MidiMessage::decode(Packet::from_raw([0x0F, 0xF6, 0, 0])), Ok(MidiMessage::TuneRequest));
    assert_eq!(MidiMessage::decode(Packet::from_raw([0x05, 0xF7, 0, 0])), Ok(MidiMessage::SysexEnd));
    let end_as_single = Packet::from_raw([0x0F, 0xF7, 0, 0]);
    assert_eq!(MidiMessage::decode(end_as_single), Err(MidiError::BadPacket(end_as_single)));
}

#[test]
fn system_common_fields_are_culled() {
    assert_eq!(
        MidiMessage::decode(Packet::from_raw([0x02, 0xF3, 0x85, 0])),
        Ok(MidiMessage::SongSelect(u7(5)))
    );
}

#[test]
fn mismatched_packets_are_bad_packets() {
    let cases = [
        [0x02, 0x90, 0x3C, 0x64],
        [0x03, 0x90, 0x3C, 0x64],
        [0x09, 0x80, 0x3C, 0x64],
        [0x09, 0xF8, 0x00, 0x00],
        [0x09, 0x3C, 0x64, 0x00],
        [0x00, 0x90, 0x3C, 0x64],
        [0x01, 0x90, 0x3C, 0x64],
        [0x05, 0x90, 0x00, 0x00],
        [0x02, 0xF2, 0x01, 0x02],
        [0x0F, 0x45, 0x00, 0x00],
    ];
    for raw in cases {
        let p = Packet::from_raw(raw);
        assert_eq!(MidiMessage::decode(p), Err(MidiError::BadPacket(p)));
    }
}

#[test]
fn channel_voice_data_with_a_top_bit_is_invalid() {
    assert_eq!(
        MidiMessage::decode(Packet::from_raw([0x09, 0x90, 0x80, 0x10])),
        Err(MidiError::InvalidInteger)
    );
    assert_eq!(
        MidiMessage::decode(Packet::from_raw([0x09, 0x90, 0x10, 0x80])),
        Err(MidiError::InvalidInteger)
    );
    assert_eq!(
        MidiMessage::decode(Packet::from_raw([0x0E, 0xE0, 0x00, 0x80])),
        Err(MidiError::InvalidInteger)
    );
}

#[test]
fn status_byte_of_a_message() {
    assert_eq!(MidiMessage::NoteOn(MidiChannel::CH4, u7(1), u7(2)).status_byte(), Some(0x93));
    assert_eq!(MidiMessage::PitchBend(MidiChannel::CH16, U14::min()).status_byte(), Some(0xEF));
    assert_eq!(MidiMessage::TuneRequest.status_byte(), Some(0xF6));
    assert_eq!(MidiMessage::MeasureEnd(u7(1)).status_byte(), Some(0xF9));
    assert_eq!(MidiMessage::SysexBegin(1, 2).status_byte(), None);
    assert_eq!(MidiMessage::SysexEnd.status_byte(), None);
}

#[test]
fn message_builders_check_their_numbers() {
    let ch = MidiChannel::CH1;
    assert_eq!(note_on(ch, 60, 100), Ok(MidiMessage::NoteOn(ch, u7(60), u7(100))));
    assert_eq!(note_off(ch, 60, 0), Ok(MidiMessage::NoteOff(ch, u7(60), u7(0))));
    assert_eq!(note_on(ch, 128, 100), Err(MidiError::InvalidNote));
    assert_eq!(note_on(ch, 60, 128), Err(MidiError::InvalidVelocity));
    assert_eq!(note_off(ch, 200, 200), Err(MidiError::InvalidNote));
    assert_eq!(note_off(ch, 0, 255), Err(MidiError::InvalidVelocity));
    assert_eq!(program_change(ch, 127), Ok(MidiMessage::ProgramChange(ch, u7(127))));
    assert_eq!(program_change(ch, 128), Err(MidiError::InvalidProgram));
}

#[test]
fn packet_parts() {
    let p = Packet::from_raw([0x39, 0x95, 0x3C, 0x64]);
    assert_eq!(p.cable_number().value(), 3);
    assert_eq!(p.code_index_number(), CodeIndexNumber::NoteOn);
    assert_eq!(p.status(), Ok(Some(Status::NoteOn)));
    assert_eq!(p.channel(), Some(MidiChannel::CH6));
    assert_eq!(p.payload(), &[0x95u8, 0x3C, 0x64][..]);
    assert_eq!(p.bytes(), &[0x39, 0x95, 0x3C, 0x64]);
    let cont = Packet::from_raw([0x04, 0x01, 0x02, 0x03]);
    assert_eq!(cont.status(), Ok(None));
    assert_eq!(cont.channel(), None);
    let undefined = Packet::from_raw([0x0F, 0xFD, 0, 0]);
    assert_eq!(undefined.status(), Err(MidiError::InvalidStatus(0xFD)));
}

#[test]
fn payload_length_follows_the_code() {
    assert_eq!(Packet::from_raw([0x0C, 0xC0, 5, 9]).payload(), &[0xC0u8, 5][..]);
    assert_eq!(Packet::from_raw([0x0F, 0xF8, 1, 2]).payload(), &[0xF8u8][..]);
    assert_eq!(Packet::from_raw([0x05, 0xF7, 1, 2]).payload(), &[0xF7u8][..]);
    assert_eq!(Packet::from_raw([0x06, 0x01, 0xF7, 2]).payload(), &[0x01u8, 0xF7][..]);
    assert_eq!(Packet::from_raw([0x07, 1, 2, 0xF7]).payload(), &[1u8, 2, 0xF7][..]);
    assert_eq!(Packet::from_raw([0x00, 1, 2, 3]).payload().len(), 0);
    assert_eq!(Packet::from_raw([0x01, 1, 2, 3]).payload().len(), 0);
    assert_eq!(CodeIndexNumber::PitchbendChange.payload_len(), 3);
}

#[test]
fn cable_number_is_checked() {
    let p = Packet::from_raw([0x09, 0x90, 0x3C, 0x64]);
    assert_eq!(p.with_cable_num(1).unwrap().bytes(), &[0x19, 0x90, 0x3C, 0x64]);
    assert_eq!(p.with_cable_num(15).unwrap().bytes(), &[0xF9, 0x90, 0x3C, 0x64]);
    assert_eq!(p.with_cable_num(16), Err(MidiError::InvalidCableNumber));
}

#[test]
fn code_index_number_is_checked() {
    assert_eq!(CodeIndexNumber::try_from(0x4), Ok(CodeIndexNumber::Sysex));
    assert_eq!(CodeIndexNumber::try_from(0xF), Ok(CodeIndexNumber::SingleByte));
    assert_eq!(CodeIndexNumber::try_from(0x10), Err(MidiError::InvalidCodeIndexNumber));
    for code in 0u8..16 {
        assert_eq!(CodeIndexNumber::from_nibble(code).code(), code);
        assert_eq!(CodeIndexNumber::from_nibble(0xA0 | code).code(), code);
    }
    assert_eq!(CodeIndexNumber::channel_voice(Status::NotePressure), Some(CodeIndexNumber::PolyKeypress));
    assert_eq!(CodeIndexNumber::channel_voice(Status::TuneRequest), None);
}

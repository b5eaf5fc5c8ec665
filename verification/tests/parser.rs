use midi_bridge::channel::MidiChannel;
use midi_bridge::error::MidiError;
use midi_bridge::message::MidiMessage;
use midi_bridge::packet::Packet;
use midi_bridge::parser::{Held, PacketParser, ParserState};
use midi_bridge::sysex::SysexSeq;
use midi_bridge::bounded::U7;

fn u7(v: u8) -> U7 {
    U7::try_from(v).unwrap()
}

fn feed(parser: &mut PacketParser, bytes: &[u8]) -> Vec<Result<Option<Packet>, MidiError>> {
    bytes.iter().map(|b| parser.advance(*b)).collect()
}

fn packets(parser: &mut PacketParser, bytes: &[u8]) -> Vec<Packet> {
    feed(parser, bytes).into_iter().filter_map(|r| r.unwrap()).collect()
}

#[test]
fn running_status_rebuilds_the_second_note_on() {
    let mut parser = PacketParser::default();
    let out = feed(&mut parser, &[0x90, 0x3C, 0x64, 0x3E, 0x64]);
    assert_eq!(out[0], Ok(None));
    assert_eq!(out[1], Ok(None));
    assert_eq!(out[2], Ok(Some(Packet::from_raw([0x09, 0x90, 0x3C, 0x64]))));
    assert_eq!(out[3], Ok(None));
    assert_eq!(out[4], Ok(Some(Packet::from_raw([0x09, 0x90, 0x3E, 0x64]))));
    let second = out[4].unwrap().unwrap();
    assert_eq!(
        MidiMessage::decode(second),
        Ok(MidiMessage::NoteOn(MidiChannel::CH1, u7(0x3E), u7(0x64)))
    );
}

#[test]
fn realtime_byte_does_not_disturb_a_message() {
    let mut parser = PacketParser::new();
    let out = feed(&mut parser, &[0x90, 0x3C, 0xF8, 0x64]);
    assert_eq!(out[0], Ok(None));
    assert_eq!(out[1], Ok(None));
    assert_eq!(out[2], Ok(Some(Packet::from_raw([0x0F, 0xF8, 0, 0]))));
    assert_eq!(MidiMessage::decode(out[2].unwrap().unwrap()), Ok(MidiMessage::TimingClock));
    assert_eq!(out[3], Ok(Some(Packet::from_raw([0x09, 0x90, 0x3C, 0x64]))));
}

#[test]
fn realtime_bytes_pass_in_every_state() {
    for rt in [0xF8u8, 0xFA, 0xFB, 0xFC, 0xFD, 0xFE, 0xFF] {
        let mut parser = PacketParser::new();
        assert_eq!(parser.advance(rt), Ok(Some(Packet::from_raw([0x0F, rt, 0, 0]))));
        assert_eq!(parser.state(), ParserState::Idle);
        let _ = feed(&mut parser, &[0xF0, 0x01]);
        let before = parser.state();
        assert_eq!(parser.advance(rt), Ok(Some(Packet::from_raw([0x0F, rt, 0, 0]))));
        assert_eq!(parser.state(), before);
    }
}

#[test]
fn two_byte_messages_complete_after_one_data_byte() {
    let mut parser = PacketParser::new();
    let out = packets(&mut parser, &[0xC5, 0x07, 0x08, 0xD0, 0x7F]);
    assert_eq!(
        out,
        vec![
            Packet::from_raw([0x0C, 0xC5, 0x07, 0]),
            Packet::from_raw([0x0C, 0xC5, 0x08, 0]),
            Packet::from_raw([0x0D, 0xD0, 0x7F, 0]),
        ]
    );
}

#[test]
fn system_common_messages_take_the_code_of_their_length() {
    let mut parser = PacketParser::new();
    let out = packets(&mut parser, &[0xF2, 0x01, 0x02, 0xF3, 0x05, 0xF1, 0x33, 0xF6]);
    assert_eq!(
        out,
        vec![
            Packet::from_raw([0x03, 0xF2, 0x01, 0x02]),
            Packet::from_raw([0x02, 0xF3, 0x05, 0]),
            Packet::from_raw([0x02, 0xF1, 0x33, 0]),
            Packet::from_raw([0x05, 0xF6, 0, 0]),
        ]
    );
    assert_eq!(parser.state(), ParserState::Idle);
}

#[test]
fn data_byte_without_status_is_an_error() {
    let mut parser = PacketParser::new();
    assert_eq!(parser.advance(0x40), Err(MidiError::InvalidStatus(0x40)));
    assert_eq!(parser.state(), ParserState::Idle);
    assert_eq!(parser.advance(0xF6), Ok(Some(Packet::from_raw([0x05, 0xF6, 0, 0]))));
    assert_eq!(parser.advance(0x40), Err(MidiError::InvalidStatus(0x40)));
}

#[test]
fn sysex_end_outside_a_run_is_spurious() {
    let mut parser = PacketParser::new();
    assert_eq!(parser.advance(0xF7), Err(MidiError::SpuriousSysexEnd));
    let _ = feed(&mut parser, &[0x90, 0x3C]);
    assert_eq!(parser.advance(0xF7), Err(MidiError::SpuriousSysexEnd));
    assert_eq!(parser.state(), ParserState::Idle);
    assert_eq!(parser.advance(0x64), Err(MidiError::InvalidStatus(0x64)));
}

#[test]
fn undefined_status_bytes_are_invalid() {
    let mut parser = PacketParser::new();
    let _ = feed(&mut parser, &[0x90, 0x3C]);
    assert_eq!(parser.advance(0xF4), Err(MidiError::InvalidStatus(0xF4)));
    assert_eq!(parser.state(), ParserState::Idle);
    assert_eq!(parser.advance(0xF5), Err(MidiError::InvalidStatus(0xF5)));
}

#[test]
fn stream_resynchronises_on_the_next_status_byte() {
    let mut parser = PacketParser::new();
    assert!(parser.advance(0x10).is_err());
    let out = packets(&mut parser, &[0x80, 0x01, 0x02]);
    assert_eq!(out, vec![Packet::from_raw([0x08, 0x80, 0x01, 0x02])]);
}

#[test]
fn new_status_byte_drops_an_unfinished_message() {
    let mut parser = PacketParser::new();
    let out = packets(&mut parser, &[0x90, 0x3C, 0xB1, 0x07, 0x64]);
    assert_eq!(out, vec![Packet::from_raw([0x0B, 0xB1, 0x07, 0x64])]);
    assert_eq!(parser.state(), ParserState::AwaitingData { status: 0xB1, first: None });
}

#[test]
fn sysex_runs_are_cut_into_packets() {
    let mut parser = PacketParser::new();
    let out = packets(&mut parser, &[0xF0, 1, 2, 3, 4, 5, 6, 0xF7]);
    assert_eq!(
        out,
        vec![
            Packet::from_raw([0x04, 0xF0, 1, 2]),
            Packet::from_raw([0x04, 3, 4, 5]),
            Packet::from_raw([0x06, 6, 0xF7, 0]),
        ]
    );
    assert_eq!(parser.state(), ParserState::Idle);
}

#[test]
fn sysex_runs_end_with_zero_one_or_two_bytes() {
    let mut parser = PacketParser::new();
    assert_eq!(
        packets(&mut parser, &[0xF0, 1, 2, 0xF7]),
        vec![Packet::from_raw([0x04, 0xF0, 1, 2]), Packet::from_raw([0x05, 0xF7, 0, 0])]
    );
    assert_eq!(
        packets(&mut parser, &[0xF0, 1, 2, 3, 4, 0xF7]),
        vec![Packet::from_raw([0x04, 0xF0, 1, 2]), Packet::from_raw([0x07, 3, 4, 0xF7])]
    );
    assert_eq!(packets(&mut parser, &[0xF0, 0xF7]), vec![Packet::from_raw([0x06, 0xF0, 0xF7, 0])]);
    assert_eq!(packets(&mut parser, &[0xF0, 9, 0xF7]), vec![Packet::from_raw([0x07, 0xF0, 9, 0xF7])]);
}

#[test]
fn sysex_state_holds_the_bytes_of_the_open_packet() {
    let mut parser = PacketParser::new();
    let _ = parser.advance(0xF0);
    assert_eq!(parser.state(), ParserState::InSysex { held: Held::One(0xF0) });
    let _ = parser.advance(0x11);
    assert_eq!(parser.state(), ParserState::InSysex { held: Held::Two(0xF0, 0x11) });
    let _ = parser.advance(0x12);
    assert_eq!(parser.state(), ParserState::InSysex { held: Held::Nothing });
}

#[test]
fn status_byte_ends_an_open_sysex_run() {
    let mut parser = PacketParser::new();
    let out = packets(&mut parser, &[0xF0, 1, 2, 3, 0x90, 0x3C, 0x64]);
    assert_eq!(
        out,
        vec![Packet::from_raw([0x04, 0xF0, 1, 2]), Packet::from_raw([0x09, 0x90, 0x3C, 0x64])]
    );
}

#[test]
fn parser_and_generator_frame_a_payload_alike() {
    for len in 0usize..20 {
        let data: Vec<u8> = (0..len).map(|i| (i as u8) + 1).collect();
        let mut wire = vec![0xF0u8];
        wire.extend_from_slice(&data);
        wire.push(0xF7);
        let mut parser = PacketParser::new();
        let parsed = packets(&mut parser, &wire);
        let mut seq = SysexSeq::from_slices(&[&data]);
        let mut generated = Vec::new();
        while let Some(p) = seq.next() {
            generated.push(p);
        }
        assert_eq!(parsed, generated);
    }
}

#[test]
fn parser_restores_what_the_compressor_removed() {
    let messages = [
        MidiMessage::NoteOn(MidiChannel::CH1, u7(60), u7(100)),
        MidiMessage::NoteOn(MidiChannel::CH1, u7(62), u7(100)),
        MidiMessage::NoteOn(MidiChannel::CH2, u7(62), u7(100)),
        MidiMessage::ProgramChange(MidiChannel::CH2, u7(5)),
        MidiMessage::ProgramChange(MidiChannel::CH2, u7(6)),
        MidiMessage::TimingClock,
        MidiMessage::ProgramChange(MidiChannel::CH2, u7(7)),
        MidiMessage::ControlChange(MidiChannel::CH9, u7(1), u7(2)),
        MidiMessage::ControlChange(MidiChannel::CH9, u7(3), u7(4)),
    ];
    let mut packer = midi_bridge::status::StatusPacker::new();
    let mut wire: Vec<u8> = Vec::new();
    let mut sent = Vec::new();
    for m in messages {
        let p = Packet::from(m);
        sent.push(p);
        wire.extend_from_slice(packer.pack(p.payload()));
    }
    assert_eq!(wire.len(), 3 + 2 + 3 + 2 + 1 + 1 + 2 + 3 + 2);
    let mut parser = PacketParser::new();
    assert_eq!(packets(&mut parser, &wire), sent);
}

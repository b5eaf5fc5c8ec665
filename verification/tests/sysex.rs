use midi_bridge::buffer::{bytes_len, bytes_push_all};
use midi_bridge::capture::{capture_sysex, SysexCapture, SysexError};
use midi_bridge::channel::MidiChannel;
use midi_bridge::list::PacketList;
use midi_bridge::message::MidiMessage;
use midi_bridge::packet::Packet;
use midi_bridge::sysex::{pattern_match, recorded, ExpType, PatternExp, SysexSeq};
use midi_bridge::bounded::U7;

fn u7(v: u8) -> U7 {
    U7::try_from(v).unwrap()
}

fn drain(seq: &mut SysexSeq) -> Vec<MidiMessage> {
    let mut out = Vec::new();
    while let Some(p) = seq.next() {
        out.push(MidiMessage::decode(p).unwrap());
    }
    out
}

#[test]
fn capture_gathers_a_run() {
    let mut buffer: heapless::Vec<u8, 64> = heapless::Vec::new();
    assert_eq!(
        capture_sysex(&mut buffer, MidiMessage::SysexBegin(1, 2)),
        Ok(SysexCapture::Pending(2))
    );
    assert_eq!(
        capture_sysex(&mut buffer, MidiMessage::SysexCont(3, 4, 5)),
        Ok(SysexCapture::Pending(5))
    );
    assert_eq!(
        capture_sysex(&mut buffer, MidiMessage::SysexEnd1(6)),
        Ok(SysexCapture::Captured(6))
    );
    assert_eq!(buffer.as_slice(), &[1u8, 2, 3, 4, 5, 6][..]);
}

#[test]
fn lone_continuation_is_spurious() {
    let mut buffer: heapless::Vec<u8, 64> = heapless::Vec::new();
    assert_eq!(
        capture_sysex(&mut buffer, MidiMessage::SysexCont(3, 4, 5)),
        Err(SysexError::SpuriousContinuation)
    );
    assert!(buffer.is_empty());
}

#[test]
fn lone_ends_are_spurious() {
    let mut buffer: heapless::Vec<u8, 64> = heapless::Vec::new();
    assert_eq!(capture_sysex(&mut buffer, MidiMessage::SysexEnd), Err(SysexError::SpuriousEnd));
    assert_eq!(capture_sysex(&mut buffer, MidiMessage::SysexEnd1(1)), Err(SysexError::SpuriousEnd));
    assert_eq!(
        capture_sysex(&mut buffer, MidiMessage::SysexEnd2(1, 2)),
        Err(SysexError::SpuriousEnd)
    );
    assert!(buffer.is_empty());
}

#[test]
fn capture_ends_with_zero_or_two_bytes() {
    let mut buffer: heapless::Vec<u8, 64> = heapless::Vec::new();
    let _ = capture_sysex(&mut buffer, MidiMessage::SysexBegin(1, 2));
    assert_eq!(capture_sysex(&mut buffer, MidiMessage::SysexEnd), Ok(SysexCapture::Captured(2)));
    assert_eq!(buffer.as_slice(), &[1u8, 2][..]);
    let _ = capture_sysex(&mut buffer, MidiMessage::SysexBegin(7, 8));
    assert_eq!(
        capture_sysex(&mut buffer, MidiMessage::SysexEnd2(9, 10)),
        Ok(SysexCapture::Captured(4))
    );
    assert_eq!(buffer.as_slice(), &[7u8, 8, 9, 10][..]);
}

#[test]
fn degenerate_runs_are_captured_at_once() {
    let mut buffer: heapless::Vec<u8, 64> = heapless::Vec::new();
    let _ = capture_sysex(&mut buffer, MidiMessage::SysexBegin(1, 2));
    assert_eq!(
        capture_sysex(&mut buffer, MidiMessage::SysexSingleByte(9)),
        Ok(SysexCapture::Captured(1))
    );
    assert_eq!(buffer.as_slice(), &[9u8][..]);
    assert_eq!(capture_sysex(&mut buffer, MidiMessage::SysexEmpty), Ok(SysexCapture::Captured(0)));
    assert!(buffer.is_empty());
}

#[test]
fn other_messages_reset_the_capture() {
    let mut buffer: heapless::Vec<u8, 64> = heapless::Vec::new();
    let _ = capture_sysex(&mut buffer, MidiMessage::SysexBegin(1, 2));
    assert_eq!(
        capture_sysex(&mut buffer, MidiMessage::NoteOn(MidiChannel::CH1, u7(1), u7(2))),
        Ok(SysexCapture::NotSysex)
    );
    assert!(buffer.is_empty());
    assert_eq!(
        capture_sysex(&mut buffer, MidiMessage::SysexCont(1, 2, 3)),
        Err(SysexError::SpuriousContinuation)
    );
}

#[test]
fn capture_overflows_at_the_capacity() {
    let mut buffer: heapless::Vec<u8, 64> = heapless::Vec::new();
    let _ = capture_sysex(&mut buffer, MidiMessage::SysexBegin(0, 1));
    for i in 0..20u8 {
        assert_eq!(
            capture_sysex(&mut buffer, MidiMessage::SysexCont(i, i, i)),
            Ok(SysexCapture::Pending(5 + 3 * i as usize))
        );
    }
    assert_eq!(buffer.len(), 62);
    assert_eq!(
        capture_sysex(&mut buffer, MidiMessage::SysexCont(7, 8, 9)),
        Err(SysexError::BufferOverflow)
    );
    assert_eq!(buffer.len(), 64);
    assert_eq!(&buffer.as_slice()[62..], &[7u8, 8][..]);
    assert_eq!(capture_sysex(&mut buffer, MidiMessage::SysexEnd1(1)), Err(SysexError::BufferOverflow));
    assert_eq!(capture_sysex(&mut buffer, MidiMessage::SysexEnd), Ok(SysexCapture::Captured(64)));
    assert_eq!(
        capture_sysex(&mut buffer, MidiMessage::SysexBegin(1, 2)),
        Ok(SysexCapture::Pending(2))
    );
}

#[test]
fn overflow_error_stands_for_a_byte_handed_back() {
    assert_eq!(SysexError::from(7u8), SysexError::BufferOverflow);
}

#[test]
fn push_all_stops_at_the_first_byte_that_does_not_fit() {
    let mut buffer: heapless::Vec<u8, 64> = heapless::Vec::new();
    assert!(bytes_push_all(&mut buffer, &[1; 60]));
    assert_eq!(bytes_len(&buffer), 60);
    assert!(!bytes_push_all(&mut buffer, &[2; 6]));
    assert_eq!(bytes_len(&buffer), 64);
    assert_eq!(&buffer.as_slice()[60..], &[2u8; 4][..]);
}

#[test]
fn sequence_frames_by_length() {
    assert_eq!(drain(&mut SysexSeq::new()), vec![MidiMessage::SysexEmpty]);
    assert_eq!(drain(&mut SysexSeq::from_slices(&[&[9]])), vec![MidiMessage::SysexSingleByte(9)]);
    assert_eq!(
        drain(&mut SysexSeq::from_slices(&[&[1, 2]])),
        vec![MidiMessage::SysexBegin(1, 2), MidiMessage::SysexEnd]
    );
    assert_eq!(
        drain(&mut SysexSeq::from_slices(&[&[1, 2, 3]])),
        vec![MidiMessage::SysexBegin(1, 2), MidiMessage::SysexEnd1(3)]
    );
    assert_eq!(
        drain(&mut SysexSeq::from_slices(&[&[1, 2, 3, 4]])),
        vec![MidiMessage::SysexBegin(1, 2), MidiMessage::SysexEnd2(3, 4)]
    );
    assert_eq!(
        drain(&mut SysexSeq::from_slices(&[&[1, 2], &[3, 4, 5], &[6]])),
        vec![MidiMessage::SysexBegin(1, 2), MidiMessage::SysexCont(3, 4, 5), MidiMessage::SysexEnd1(6)]
    );
}

#[test]
fn sequence_is_finite_and_restartable() {
    let mut seq = SysexSeq::from_slices(&[&[1, 2, 3]]);
    assert_eq!(seq.next(), Some(Packet::from_raw([0x04, 0xF0, 1, 2])));
    assert_eq!(seq.next(), Some(Packet::from_raw([0x06, 3, 0xF7, 0])));
    assert_eq!(seq.next(), None);
    assert_eq!(seq.next(), None);
    seq.restart();
    assert_eq!(seq.next(), Some(Packet::from_raw([0x04, 0xF0, 1, 2])));
}

#[test]
fn sequence_grows_up_to_its_capacity() {
    let mut seq = SysexSeq::new();
    seq.extend_from_slice(&[1, 2, 3]);
    seq.extend_from_slices(&[&[4], &[], &[5, 6]]);
    assert_eq!(seq.as_slice(), &[1u8, 2, 3, 4, 5, 6][..]);
    assert_eq!(seq.len(), 6);
    assert!(seq.try_extend_from_slice(&[0; 58]));
    assert_eq!(seq.len(), 64);
    assert!(!seq.try_extend_from_slice(&[9]));
    assert_eq!(seq.len(), 64);
    let mut bytes: heapless::Vec<u8, 64> = heapless::Vec::new();
    bytes.push(5).unwrap();
    assert_eq!(SysexSeq::from_vec(bytes).as_slice(), &[5u8][..]);
}

#[test]
fn captured_fragments_give_the_payload_back() {
    for len in 0usize..=64 {
        let data: Vec<u8> = (0..len).map(|i| (i % 128) as u8).collect();
        let mut seq = SysexSeq::from_slices(&[&data]);
        let mut buffer: heapless::Vec<u8, 64> = heapless::Vec::new();
        buffer.push(0x55).unwrap();
        let mut last = None;
        while let Some(p) = seq.next() {
            last = Some(capture_sysex(&mut buffer, MidiMessage::decode(p).unwrap()));
        }
        assert_eq!(last, Some(Ok(SysexCapture::Captured(len))));
        assert_eq!(buffer.as_slice(), &data[..]);
    }
}

#[test]
fn packet_list_takes_up_to_sixteen() {
    let short = PacketList::from(SysexSeq::from_slices(&[&[1, 2, 3, 4, 5]]));
    assert_eq!(
        short.as_slice(),
        &[
            Packet::from_raw([0x04, 0xF0, 1, 2]),
            Packet::from_raw([0x04, 3, 4, 5]),
            Packet::from_raw([0x05, 0xF7, 0, 0]),
        ][..]
    );
    let long = PacketList::from_sysex(SysexSeq::from_slices(&[&[7; 64]]));
    assert_eq!(long.len(), 16);
    assert_eq!(long.as_slice()[0], Packet::from_raw([0x04, 0xF0, 7, 7]));
    assert_eq!(long.as_slice()[15], Packet::from_raw([0x04, 7, 7, 7]));
}

#[test]
fn packet_list_basics() {
    let p = Packet::from_raw([0x09, 0x90, 1, 2]);
    let single = PacketList::single(p);
    assert_eq!(single.as_slice(), &[p][..]);
    let mut list = PacketList::default();
    assert_eq!(list.len(), 0);
    for _ in 0..16 {
        assert!(list.push(p));
    }
    assert!(!list.push(p));
    assert_eq!(list.len(), 16);
    assert_eq!(PacketList::new().len(), 0);
    assert_eq!(PacketList::from_slice(&[p, p, p]).len(), 3);
    assert_eq!(PacketList::from_slice(&[p; 20]).len(), 16);
}

#[test]
fn pattern_built_and_matched_recovers_the_field() {
    let program = [
        PatternExp::Match(&[0x42, 0x04]),
        PatternExp::Val(0x40),
        PatternExp::Cap(ExpType::Bytes(26)),
    ];
    let seq = SysexSeq::from_pattern(&program).unwrap();
    assert_eq!(seq.as_slice(), &[0x42u8, 0x04, 0x40][..]);
    let mut buffer: Vec<u8> = seq.as_slice().to_vec();
    let dump: Vec<u8> = (1..=26).collect();
    buffer.extend_from_slice(&dump);
    let mut captured: heapless::Vec<(usize, ExpType), 8> = heapless::Vec::new();
    assert!(pattern_match(&buffer, &program, &mut captured));
    assert_eq!(recorded(&captured), &[(3usize, ExpType::Bytes(26))][..]);
    let (offset, field) = captured[0];
    assert_eq!(&buffer[offset..offset + field.len()], &dump[..]);
}

#[test]
fn pattern_must_consume_the_whole_buffer() {
    let program = [PatternExp::Val(1), PatternExp::Cap(ExpType::ValueU7)];
    let mut captured: heapless::Vec<(usize, ExpType), 8> = heapless::Vec::new();
    assert!(!pattern_match(&[1, 2, 3], &program, &mut captured));
    captured.clear();
    assert!(!pattern_match(&[1], &program, &mut captured));
    assert!(captured.is_empty());
    assert!(pattern_match(&[1, 2], &program, &mut captured));
    assert_eq!(captured.as_slice(), &[(1usize, ExpType::ValueU7)][..]);
}

#[test]
fn pattern_tokens() {
    let mut captured: heapless::Vec<(usize, ExpType), 8> = heapless::Vec::new();
    assert!(pattern_match(&[9, 9, 5], &[PatternExp::Skip(2), PatternExp::Val(5)], &mut captured));
    assert!(!pattern_match(&[9, 9, 6], &[PatternExp::Skip(2), PatternExp::Val(5)], &mut captured));
    assert!(!pattern_match(&[9], &[PatternExp::Skip(2)], &mut captured));
    assert!(!pattern_match(&[9], &[PatternExp::Skip(usize::MAX), PatternExp::Skip(2)], &mut captured));
    assert!(pattern_match(&[1, 2, 3], &[PatternExp::Match(&[1, 2, 3])], &mut captured));
    assert!(!pattern_match(&[1, 2, 4], &[PatternExp::Match(&[1, 2, 3])], &mut captured));
    assert!(!pattern_match(&[1, 2], &[PatternExp::Match(&[1, 2, 3])], &mut captured));
    assert!(!pattern_match(&[], &[PatternExp::Val(1)], &mut captured));
    assert!(pattern_match(&[], &[], &mut captured));
    assert!(!pattern_match(&[1], &[], &mut captured));
    assert!(captured.is_empty());
}

#[test]
fn fields_recorded_before_a_mismatch_stay() {
    let program = [
        PatternExp::Cap(ExpType::Channel),
        PatternExp::Cap(ExpType::Bytes(2)),
        PatternExp::Val(7),
    ];
    let mut captured: heapless::Vec<(usize, ExpType), 8> = heapless::Vec::new();
    assert!(!pattern_match(&[1, 2, 3, 8], &program, &mut captured));
    assert_eq!(
        captured.as_slice(),
        &[(0usize, ExpType::Channel), (1usize, ExpType::Bytes(2))][..]
    );
}

#[test]
fn field_widths() {
    assert_eq!(ExpType::Bytes(26).len(), 26);
    assert_eq!(ExpType::Bytes(0).len(), 0);
    assert_eq!(ExpType::Channel.len(), 1);
    assert_eq!(ExpType::MsbValueU4.len(), 1);
}

#[test]
fn message_from_pattern_skips_what_gives_no_byte() {
    let program = [
        PatternExp::Val(1),
        PatternExp::Skip(3),
        PatternExp::Match(&[2, 3]),
        PatternExp::Cap(ExpType::ValueU7),
    ];
    assert_eq!(SysexSeq::from_pattern(&program).unwrap().as_slice(), &[1u8, 2, 3][..]);
    let long = [PatternExp::Match(&[0; 40]), PatternExp::Match(&[0; 25])];
    assert!(SysexSeq::from_pattern(&long).is_none());
}

#[test]
fn packets_of_a_usb_transfer() {
    let bytes = [0x09u8, 0x90, 0x3C, 0x64, 0x0F, 0xF8, 0, 0, 0x08, 0x80];
    let list = PacketList::from_bytes(&bytes);
    assert_eq!(
        list.as_slice(),
        &[Packet::from_raw([0x09, 0x90, 0x3C, 0x64]), Packet::from_raw([0x0F, 0xF8, 0, 0])][..]
    );
    assert_eq!(list.wire_bytes().as_slice(), &bytes[..8]);
    assert_eq!(PacketList::from_bytes(&[1, 2, 3]).len(), 0);
    assert_eq!(PacketList::from_bytes(&[7; 100]).len(), 16);
    assert_eq!(PacketList::from_bytes(&[7; 100]).wire_bytes().len(), 64);
    assert_eq!(PacketList::new().wire_bytes().len(), 0);
}

use midi_bridge::channel::{channel, MidiChannel};
use midi_bridge::error::MidiError;
use midi_bridge::status::{is_channel_status, is_non_status, is_realtime_status, Status, StatusPacker};

#[test]
fn classify_accepts_status_bytes_and_rejects_the_rest() {
    for b in 0u8..=255 {
        let r = Status::try_from(b);
        if b < 0x80 || b == 0xF7 {
            assert_eq!(r, Err(MidiError::InvalidStatus(b)));
        } else if b < 0xF0 || (b >= 0xF8 && b != 0xFD) {
            assert!(r.is_ok());
        }
    }
    assert_eq!(Status::try_from(0xF4), Err(MidiError::InvalidStatus(0xF4)));
    assert_eq!(Status::try_from(0xF5), Err(MidiError::InvalidStatus(0xF5)));
    assert_eq!(Status::try_from(0xFD), Err(MidiError::InvalidStatus(0xFD)));
}

#[test]
fn classify_strips_the_channel() {
    assert_eq!(Status::try_from(0x93), Ok(Status::NoteOn));
    assert_eq!(Status::try_from(0x8F), Ok(Status::NoteOff));
    assert_eq!(Status::try_from(0xE0), Ok(Status::PitchBend));
    assert_eq!(Status::try_from(0xF0), Ok(Status::SysexStart));
    assert_eq!(Status::try_from(0xF8), Ok(Status::TimingClock));
    assert_eq!(Status::NoteOn.byte(), 0x90);
}

#[test]
fn expected_len_counts_the_status_byte() {
    assert_eq!(Status::NoteOn.expected_len(), 3);
    assert_eq!(Status::ProgramChange.expected_len(), 2);
    assert_eq!(Status::ChannelPressure.expected_len(), 2);
    assert_eq!(Status::SongPositionPointer.expected_len(), 3);
    assert_eq!(Status::TuneRequest.expected_len(), 1);
    assert_eq!(Status::TimingClock.expected_len(), 1);
    assert_eq!(Status::SysexStart.expected_len(), 3);
}

#[test]
fn byte_predicates() {
    assert!(is_non_status(0x00));
    assert!(is_non_status(0x7F));
    assert!(is_non_status(0xF7));
    assert!(!is_non_status(0x80));
    assert!(is_channel_status(0x80));
    assert!(is_channel_status(0xEF));
    assert!(!is_channel_status(0xF0));
    assert!(!is_channel_status(0x7F));
    assert!(is_realtime_status(0xF8));
    assert!(!is_realtime_status(0xF9));
    assert!(is_realtime_status(0xFA));
    assert!(is_realtime_status(0xFF));
}

#[test]
fn packer_elides_a_repeated_status() {
    let mut packer = StatusPacker::default();
    let first = [0x90u8, 60, 100];
    let second = [0x90u8, 62, 100];
    assert_eq!(packer.pack(&first), &[0x90u8, 60, 100][..]);
    assert_eq!(packer.pack(&second), &[62u8, 100][..]);
}

#[test]
fn packer_is_reset_by_a_system_byte() {
    let mut packer = StatusPacker::new();
    assert_eq!(packer.pack(&[0x90, 60, 100]), &[0x90u8, 60, 100][..]);
    assert_eq!(packer.pack(&[0xF8]), &[0xF8u8][..]);
    assert_eq!(packer.pack(&[0x90, 62, 100]), &[0x90u8, 62, 100][..]);
    assert_eq!(packer.pack(&[0x90, 64, 100]), &[64u8, 100][..]);
}

#[test]
fn packer_keeps_the_status_of_another_channel() {
    let mut packer = StatusPacker::new();
    assert_eq!(packer.pack(&[0x90, 60, 100]), &[0x90u8, 60, 100][..]);
    assert_eq!(packer.pack(&[0x91, 60, 100]), &[0x91u8, 60, 100][..]);
    assert_eq!(packer.pack(&[0x91, 61, 100]), &[61u8, 100][..]);
    assert_eq!(packer.pack(&[0x12, 0x13]), &[0x12u8, 0x13][..]);
    assert_eq!(packer.pack(&[0x91, 61, 100]), &[0x91u8, 61, 100][..]);
}

#[test]
fn natural_channel_numbers() {
    assert_eq!(channel(1), Ok(MidiChannel::CH1));
    assert_eq!(channel(16), Ok(MidiChannel::CH16));
    assert_eq!(channel(0), Err(MidiError::InvalidChannel));
    assert_eq!(channel(17), Err(MidiError::InvalidChannel));
    assert_eq!(MidiChannel::CH10.as_u8(), 9);
    assert_eq!(MidiChannel::from_index(15), Some(MidiChannel::CH16));
    assert_eq!(MidiChannel::from_index(16), None);
}

#[test]
fn outside_errors_become_port_errors() {
    assert_eq!(MidiError::from(nb::Error::<u8>::WouldBlock), MidiError::PortError);
    assert_eq!(MidiError::from(nb::Error::Other(3u8)), MidiError::PortError);
    assert_eq!(MidiError::from(usb_device::UsbError::WouldBlock), MidiError::PortError);
    let short: Result<[u8; 2], _> = <[u8; 2]>::try_from(&[1u8][..]);
    assert_eq!(MidiError::from(short.unwrap_err()), MidiError::TryFromSliceError);
}

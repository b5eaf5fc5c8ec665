use midi_bridge::bounded::{U4, U7};
use midi_bridge::channel::MidiChannel;
use midi_bridge::devices::beatstep::{
    beatstep_control_get, beatstep_set, Acceleration, Behavior, ControlCode, Encoder, Granularity,
    NRPNType, Pad, Param, SeqGlobal, SeqLegato, SeqMode, SeqPatternLength, SeqScale, SeqStepSize,
    SeqTranspose, SwitchMode, VelocityCurve, MMC,
};
use midi_bridge::devices::dw6000::{
    dump_matcher, dump_request_sysex, get_param_value, id_matcher, id_request_sysex,
    load_program_sysex, param_set_sysex, set_param_value, set_parameter_sysex, write_matcher,
    write_program_sysex, Dw6Param,
};
use midi_bridge::error::{GuiError, MidiError};
use midi_bridge::lfo::Waveform;
use midi_bridge::sysex::{pattern_match, ExpType};

fn u7(v: u8) -> U7 {
    U7::try_from(v).unwrap()
}

const HEAD: [u8; 7] = [0x00, 0x20, 0x6B, 0x7F, 0x42, 0x02, 0x00];

fn record(param: u8, control: u8, value: u8) -> Vec<u8> {
    let mut r = HEAD.to_vec();
    r.extend_from_slice(&[param, control, value]);
    r
}

#[test]
fn single_record_settings() {
    assert_eq!(beatstep_set(Param::PadOff(Pad::Pad(3))).as_slice(), &record(1, 0x73, 0)[..]);
    assert_eq!(beatstep_set(Param::KnobOff(Encoder::JogWheel)).as_slice(), &record(1, 0x30, 0)[..]);
    assert_eq!(
        beatstep_set(Param::GlobalMidiChannel(MidiChannel::CH1)).as_slice(),
        &record(0x50, 0x0B, 0)[..]
    );
    assert_eq!(
        beatstep_set(Param::CVGateChannel(MidiChannel::CH16)).as_slice(),
        &record(0x50, 0x0C, 15)[..]
    );
    assert_eq!(
        beatstep_set(Param::KnobAcceleration(Acceleration::Fast)).as_slice(),
        &record(0x41, 0x04, 2)[..]
    );
    assert_eq!(
        beatstep_set(Param::PadVelocityCurve(VelocityCurve::Full)).as_slice(),
        &record(0x41, 0x03, 3)[..]
    );
    assert_eq!(
        beatstep_set(Param::StepNote(U4::try_from(5u8).unwrap(), u7(0x3C))).as_slice(),
        &record(0x52, 5, 0x3C)[..]
    );
    assert_eq!(
        beatstep_set(Param::StepEnabled(U4::try_from(15u8).unwrap(), true)).as_slice(),
        &record(0x53, 15, 1)[..]
    );
    assert_eq!(
        beatstep_set(Param::StepEnabled(U4::min(), false)).as_slice(),
        &record(0x53, 0, 0)[..]
    );
    assert_eq!(beatstep_set(Param::SeqChannel(MidiChannel::CH2)).as_slice(), &record(0x50, 1, 1)[..]);
    assert_eq!(
        beatstep_set(Param::SeqTranspose(SeqTranspose(u7(0x30)))).as_slice(),
        &record(0x50, 2, 0x30)[..]
    );
    assert_eq!(beatstep_set(Param::SeqScale(SeqScale::Blues)).as_slice(), &record(0x50, 3, 6)[..]);
    assert_eq!(beatstep_set(Param::SeqMode(SeqMode::Random)).as_slice(), &record(0x50, 4, 3)[..]);
    assert_eq!(
        beatstep_set(Param::SeqStepSize(SeqStepSize::Sixteenth)).as_slice(),
        &record(0x50, 5, 2)[..]
    );
    assert_eq!(
        beatstep_set(Param::SeqPatternLength(SeqPatternLength(16))).as_slice(),
        &record(0x50, 6, 16)[..]
    );
    assert_eq!(beatstep_set(Param::SeqLegato(SeqLegato::Reset)).as_slice(), &record(0x50, 9, 2)[..]);
}

#[test]
fn pad_note_setting_has_four_records() {
    let sysex =
        beatstep_set(Param::PadNote(Pad::Pad(0), MidiChannel::CH1, u7(0), SwitchMode::Gate));
    let mut want = record(1, 0x70, 9);
    want.extend(record(2, 0x70, 0));
    want.extend(record(3, 0x70, 0));
    want.extend(record(6, 0x70, 1));
    assert_eq!(sysex.as_slice(), &want[..]);
}

#[test]
fn longest_settings_have_six_records() {
    let sysex = beatstep_set(Param::PadCC(
        Pad::Stop,
        MidiChannel::CH3,
        u7(20),
        u7(127),
        u7(0),
        SwitchMode::Toggle,
    ));
    let mut want = record(1, 0x58, 8);
    want.extend(record(2, 0x58, 2));
    want.extend(record(3, 0x58, 20));
    want.extend(record(4, 0x58, 127));
    want.extend(record(5, 0x58, 0));
    want.extend(record(6, 0x58, 0));
    assert_eq!(sysex.as_slice(), &want[..]);
    assert_eq!(sysex.len(), 60);
    let knob = beatstep_set(Param::KnobNRPN(
        Encoder::Knob(U4::try_from(2u8).unwrap()),
        MidiChannel::CH1,
        Granularity::Fine,
        u7(1),
        u7(2),
        NRPNType::RPN,
    ));
    let mut want = record(1, 0x22, 4);
    want.extend(record(2, 0x22, 0));
    want.extend(record(3, 0x22, 0x26));
    want.extend(record(4, 0x22, 1));
    want.extend(record(5, 0x22, 2));
    want.extend(record(6, 0x22, 1));
    assert_eq!(knob.as_slice(), &want[..]);
}

#[test]
fn other_multi_record_settings() {
    let mmc = beatstep_set(Param::PadMMC(Pad::Start, MMC::Play));
    let mut want = record(1, 0x70, 7);
    want.extend(record(3, 0x70, 2));
    assert_eq!(mmc.as_slice(), &want[..]);
    let silent = beatstep_set(Param::PadCCSilent(
        Pad::Chan,
        MidiChannel::CH1,
        u7(1),
        u7(2),
        u7(3),
        SwitchMode::Gate,
    ));
    assert_eq!(&silent.as_slice()[..10], &record(1, 0x5F, 1)[..]);
    let pc = beatstep_set(Param::PadProgramChange(Pad::Shift, MidiChannel::CH1, u7(9), u7(1), u7(2)));
    assert_eq!(pc.len(), 50);
    assert_eq!(&pc.as_slice()[..10], &record(1, 0x5E, 0x0B)[..]);
    let cc = beatstep_set(Param::KnobCC(
        Encoder::JogWheel,
        MidiChannel::CH1,
        u7(7),
        u7(0),
        u7(127),
        Behavior::RelativeCentered16,
    ));
    assert_eq!(&cc.as_slice()[50..], &record(6, 0x30, 3)[..]);
}

#[test]
fn control_codes_and_modes() {
    assert_eq!(Pad::Pad(15).control_code(), 0x7F);
    assert_eq!(Pad::Pad(0x90).control_code(), 0x00);
    assert_eq!(Pad::Pad(0xFF).control_code(), 0x6F);
    assert_eq!(Pad::ExtSync.control_code(), 0x5B);
    assert_eq!(Encoder::Knob(U4::max()).control_code(), 0x2F);
    assert_eq!(SeqGlobal::Gate.code(), 8);
    assert_eq!(MMC::InListReset.code(), 12);
    assert_eq!(Param::PadOff(Pad::Stop).mode_code(), Ok(0));
    assert_eq!(Param::PadMMC(Pad::Stop, MMC::Stop).mode_code(), Ok(7));
    assert_eq!(Param::KnobOff(Encoder::JogWheel).mode_code(), Ok(0));
    assert_eq!(
        Param::SeqMode(SeqMode::Forward).mode_code(),
        Err(MidiError::NoModeForParameter)
    );
}

#[test]
fn control_get_message() {
    assert_eq!(
        beatstep_control_get(0x06, 0x21).as_slice(),
        &[0x00u8, 0x20, 0x6B, 0x7F, 0x42, 0x01, 0x00, 0x06, 0x21][..]
    );
}

#[test]
fn dw6000_messages() {
    assert_eq!(id_request_sysex().as_slice(), &[0x42u8, 0x40][..]);
    assert_eq!(write_program_sysex(7).as_slice(), &[0x42u8, 0x30, 0x04, 0x11, 7][..]);
    assert_eq!(set_parameter_sysex(5, 63).as_slice(), &[0x42u8, 0x30, 0x04, 0x41, 5, 63][..]);
    assert_eq!(dump_request_sysex().as_slice(), &[0x42u8, 0x30, 0x04, 0x10][..]);
    assert_eq!(
        load_program_sysex(&[1, 2, 3]).unwrap().as_slice(),
        &[0x42u8, 0x30, 0x04, 1, 2, 3][..]
    );
    assert!(load_program_sysex(&[0; 61]).is_some());
    assert!(load_program_sysex(&[0; 62]).is_none());
}

#[test]
fn dw6000_matchers() {
    let mut captured: heapless::Vec<(usize, ExpType), 8> = heapless::Vec::new();
    assert!(pattern_match(&[0x42, 0x40, 0x04], &id_matcher(), &mut captured));
    assert!(!pattern_match(&[0x42, 0x40, 0x05], &id_matcher(), &mut captured));
    assert!(pattern_match(&[0x42, 0x30, 0x04, 0x21], &write_matcher(), &mut captured));
    assert_eq!(captured.as_slice(), &[(3usize, ExpType::ValueU7)][..]);
    captured.clear();
    let mut dump = vec![0x42u8, 0x30, 0x04, 0x40];
    dump.extend_from_slice(&[0; 26]);
    assert!(pattern_match(&dump, &dump_matcher(), &mut captured));
    assert_eq!(captured.as_slice(), &[(4usize, ExpType::Bytes(26))][..]);
}

#[test]
fn parameters_are_read_by_offset_mask_and_shift() {
    let mut dump = [0u8; 26];
    dump[0] = 0b0010_1010;
    dump[5] = 0b0011_1111;
    dump[19] = 0b0110_0101;
    dump[24] = 0b0010_1011;
    assert_eq!(get_param_value(Dw6Param::AssignMode, &dump), Ok(2));
    assert_eq!(get_param_value(Dw6Param::BendOsc, &dump), Ok(10));
    assert_eq!(get_param_value(Dw6Param::Cutoff, &dump), Ok(63));
    assert_eq!(get_param_value(Dw6Param::Osc1Octave, &dump), Ok(3));
    assert_eq!(get_param_value(Dw6Param::VcaRelease, &dump), Ok(5));
    assert_eq!(get_param_value(Dw6Param::Osc1Wave, &dump), Ok(5));
    assert_eq!(get_param_value(Dw6Param::Osc2Wave, &dump), Ok(3));
    assert_eq!(get_param_value(Dw6Param::Chorus, &dump), Ok(0));
    assert_eq!(Dw6Param::Osc1Octave.dump_value(&dump), Ok(0b0110_0101));
}

#[test]
fn parameters_are_written_without_touching_their_neighbours() {
    let mut dump = [0xFFu8; 26];
    assert_eq!(set_param_value(Dw6Param::Polarity, 0, &mut dump), Ok(()));
    assert_eq!(dump[22], 0b1101_1111);
    assert_eq!(set_param_value(Dw6Param::MgOsc, 0b0_0101, &mut dump), Ok(()));
    assert_eq!(dump[22], 0b1100_0101);
    assert_eq!(set_param_value(Dw6Param::Interval, 0xFA, &mut dump), Ok(()));
    assert_eq!(dump[25], 0b1101_0111);
    assert_eq!(get_param_value(Dw6Param::Interval, &dump), Ok(2));
    assert_eq!(get_param_value(Dw6Param::Osc2Detune, &dump), Ok(7));
}

#[test]
fn every_parameter_reads_back_what_was_written() {
    for code in 0u8..35 {
        let param = Dw6Param::from_code(code).unwrap();
        assert_eq!(param.code(), code);
        for value in 0..=param.max_value() {
            let mut dump = [0xA5u8; 26];
            let before = dump;
            assert_eq!(set_param_value(param, value, &mut dump), Ok(()));
            assert_eq!(get_param_value(param, &dump), Ok(value));
            for other in 0u8..35 {
                let other = Dw6Param::from_code(other).unwrap();
                if other != param {
                    assert_eq!(get_param_value(other, &dump), get_param_value(other, &before));
                }
            }
        }
    }
    assert_eq!(Dw6Param::from_code(35), None);
}

#[test]
fn short_dumps_are_out_of_bounds() {
    let mut dump = [0u8; 25];
    assert_eq!(get_param_value(Dw6Param::Interval, &dump), Err(MidiError::SysexOutOfBounds));
    assert_eq!(set_param_value(Dw6Param::Interval, 1, &mut dump), Err(MidiError::SysexOutOfBounds));
    assert_eq!(dump, [0u8; 25]);
    assert_eq!(Dw6Param::Osc2Detune.dump_value(&dump), Err(MidiError::SysexOutOfBounds));
    assert!(param_set_sysex(Dw6Param::Interval, &dump).is_err());
    assert_eq!(get_param_value(Dw6Param::Osc1Wave, &dump), Ok(0));
}

#[test]
fn parameter_layout() {
    assert_eq!(Dw6Param::Cutoff.max_value(), 63);
    assert_eq!(Dw6Param::BendOsc.max_value(), 15);
    assert_eq!(Dw6Param::Osc1Wave.max_value(), 7);
    assert_eq!(Dw6Param::KbdTrack.max_value(), 3);
    assert_eq!(Dw6Param::Chorus.max_value(), 1);
    assert_eq!(Dw6Param::Resonance.max_value(), 31);
    assert_eq!(Dw6Param::AssignMode.dump_index(), 0);
    assert_eq!(Dw6Param::Osc2Detune.dump_index(), 25);
    assert_eq!(Dw6Param::MgVcf.dump_index(), 23);
    assert_eq!(Dw6Param::Osc1Wave.shift(), 3);
}

#[test]
fn parameter_message_sends_the_whole_byte() {
    let mut dump = [0u8; 26];
    dump[19] = 0x65;
    let sysex = param_set_sysex(Dw6Param::Osc1Octave, &dump).unwrap();
    assert_eq!(sysex.as_slice(), &[0x42u8, 0x30, 0x04, 0x41, 19, 0x65][..]);
}

#[test]
fn waveform_numbers() {
    assert_eq!(Waveform::from(0), Waveform::Triangle);
    assert_eq!(Waveform::from(1), Waveform::Sine);
    assert_eq!(Waveform::from(3), Waveform::RevSaw);
    assert_eq!(Waveform::from(4), Waveform::Square);
    assert_eq!(Waveform::from(200), Waveform::Triangle);
    assert_eq!(Waveform::default(), Waveform::Sine);
    assert_ne!(GuiError::LvError, GuiError::DisplayError);
}

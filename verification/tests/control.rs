use midi_bridge::bounded::U7;
use midi_bridge::channel::MidiChannel;
use midi_bridge::control::{
    cc_to_ctl_param, cc_to_dw_param, find_dump, note_bank, note_page, note_prog, toggle_page,
    CtlParam, Dw6Action, Dw6Control, KnobPage, Lfo2Dest, TogglePage,
};
use midi_bridge::devices::dw6000::{get_param_value, Dw6Param};
use midi_bridge::error::MidiError;
use midi_bridge::lfo::Waveform;
use midi_bridge::message::MidiMessage;
use midi_bridge::packet::Packet;
use midi_bridge::sysex::SysexSeq;

fn u7(v: u8) -> U7 {
    U7::try_from(v).unwrap()
}

fn note_on(note: u8) -> MidiMessage {
    MidiMessage::NoteOn(MidiChannel::CH1, u7(note), u7(100))
}

fn note_off(note: u8) -> MidiMessage {
    MidiMessage::NoteOff(MidiChannel::CH1, u7(note), u7(0))
}

fn cc(control: u8, value: u8) -> MidiMessage {
    MidiMessage::ControlChange(MidiChannel::CH1, u7(control), u7(value))
}

fn sysex_bytes(action: &Dw6Action) -> Vec<u8> {
    match action {
        Dw6Action::SendSysex(seq) => seq.as_slice().to_vec(),
        _ => panic!("no message to send"),
    }
}

fn with_program(dump: [u8; 26]) -> Dw6Control {
    let mut control = Dw6Control::new();
    control.from_dw6000_dump(&dump).unwrap();
    control
}

#[test]
fn pads_select_pages_banks_and_programs() {
    assert_eq!(note_page(u7(0)), Some(KnobPage::Osc));
    assert_eq!(note_page(u7(3)), Some(KnobPage::Arp));
    assert_eq!(note_page(u7(4)), None);
    assert_eq!(toggle_page(u7(4)), Some(TogglePage::Arp));
    assert_eq!(toggle_page(u7(7)), Some(TogglePage::Chorus));
    assert_eq!(toggle_page(u7(8)), None);
    assert_eq!(note_bank(u7(8)), Some(0));
    assert_eq!(note_bank(u7(15)), Some(7));
    assert_eq!(note_bank(u7(7)), None);
    assert_eq!(note_bank(u7(16)), None);
    assert_eq!(note_prog(u7(0)), Some(0));
    assert_eq!(note_prog(u7(7)), Some(7));
    assert_eq!(note_prog(u7(8)), None);
    assert_eq!(note_prog(u7(127)), None);
}

#[test]
fn knobs_map_to_parameters_by_page() {
    assert_eq!(cc_to_dw_param(u7(17), KnobPage::Arp), Some(Dw6Param::Cutoff));
    assert_eq!(cc_to_dw_param(u7(8), KnobPage::Env), Some(Dw6Param::Resonance));
    assert_eq!(cc_to_dw_param(u7(18), KnobPage::Osc), Some(Dw6Param::Polarity));
    assert_eq!(cc_to_dw_param(u7(19), KnobPage::Mod), Some(Dw6Param::Chorus));
    assert_eq!(cc_to_dw_param(u7(1), KnobPage::Osc), Some(Dw6Param::Osc1Level));
    assert_eq!(cc_to_dw_param(u7(13), KnobPage::Osc), Some(Dw6Param::Osc2Detune));
    assert_eq!(cc_to_dw_param(u7(14), KnobPage::Osc), None);
    assert_eq!(cc_to_dw_param(u7(4), KnobPage::Env), Some(Dw6Param::VcaSustain));
    assert_eq!(cc_to_dw_param(u7(16), KnobPage::Env), Some(Dw6Param::KbdTrack));
    assert_eq!(cc_to_dw_param(u7(1), KnobPage::Mod), Some(Dw6Param::MgFreq));
    assert_eq!(cc_to_dw_param(u7(9), KnobPage::Mod), None);
    assert_eq!(cc_to_dw_param(u7(1), KnobPage::Arp), None);
    assert_eq!(cc_to_ctl_param(u7(9), KnobPage::Mod), Some(CtlParam::Lfo2Rate));
    assert_eq!(cc_to_ctl_param(u7(10), KnobPage::Mod), Some(CtlParam::Lfo2Amt));
    assert_eq!(cc_to_ctl_param(u7(11), KnobPage::Mod), Some(CtlParam::Lfo2Wave));
    assert_eq!(cc_to_ctl_param(u7(12), KnobPage::Mod), Some(CtlParam::Lfo2Dest));
    assert_eq!(cc_to_ctl_param(u7(12), KnobPage::Osc), None);
    assert_eq!(cc_to_ctl_param(u7(13), KnobPage::Mod), None);
    assert_eq!(Dw6Param::from(Lfo2Dest::MgVcf), Dw6Param::MgVcf);
    assert_eq!(Lfo2Dest::from_code(24), Some(Lfo2Dest::MgFreq));
    assert_eq!(Lfo2Dest::from_code(28), None);
}

#[test]
fn bank_then_program_calls_a_program() {
    let mut control = Dw6Control::new();
    assert!(control.msg_from_beatstep(note_on(3), 0).unwrap().is_empty());
    let _ = control.msg_from_beatstep(note_off(3), 10).unwrap();
    assert!(control.msg_from_beatstep(note_on(10), 20).unwrap().is_empty());
    let actions = control.msg_from_beatstep(note_on(5), 30).unwrap();
    assert_eq!(actions.len(), 1);
    match &actions[0] {
        Dw6Action::SendPacket(p) => assert_eq!(*p, Packet::from_raw([0x0C, 0xC0, 21, 0])),
        _ => panic!("no packet"),
    }
    let _ = control.msg_from_beatstep(note_off(10), 40).unwrap();
    assert!(control.msg_from_beatstep(note_on(5), 50).unwrap().is_empty());
}

#[test]
fn short_press_selects_a_page_and_long_press_shows_it() {
    let mut control = Dw6Control::new();
    assert_eq!(control.active_page(), KnobPage::Osc);
    let _ = control.msg_from_beatstep(note_on(1), 1000).unwrap();
    assert_eq!(control.active_page(), KnobPage::Env);
    let _ = control.msg_from_beatstep(note_off(1), 1249).unwrap();
    assert_eq!(control.active_page(), KnobPage::Env);
    let _ = control.msg_from_beatstep(note_on(2), 2000).unwrap();
    assert_eq!(control.active_page(), KnobPage::Mod);
    let _ = control.msg_from_beatstep(note_off(0), 2100).unwrap();
    assert_eq!(control.active_page(), KnobPage::Mod);
    let _ = control.msg_from_beatstep(note_off(2), 2250).unwrap();
    assert_eq!(control.active_page(), KnobPage::Env);
}

#[test]
fn knob_sets_a_parameter_and_tells_the_synthesizer() {
    let mut control = with_program([0; 26]);
    let actions = control.msg_from_beatstep(cc(17, 0x7F), 0).unwrap();
    assert_eq!(actions.len(), 1);
    assert_eq!(sysex_bytes(&actions[0]), vec![0x42, 0x30, 0x04, 0x41, 5, 63]);
    assert_eq!(control.current_dump().unwrap()[5], 63);
    let actions = control.msg_from_beatstep(cc(2, 2), 0).unwrap();
    assert_eq!(sysex_bytes(&actions[0]), vec![0x42, 0x30, 0x04, 0x41, 19, 0x40]);
}

#[test]
fn knob_without_a_program_does_nothing() {
    let mut control = Dw6Control::new();
    assert!(control.msg_from_beatstep(cc(17, 10), 0).unwrap().is_empty());
    assert_eq!(control.current_dump(), None);
    assert!(control.msg_from_beatstep(MidiMessage::TimingClock, 0).unwrap().is_empty());
}

#[test]
fn pads_toggle_polarity_and_chorus() {
    let mut control = with_program([0; 26]);
    let actions = control.msg_from_beatstep(note_on(6), 0).unwrap();
    assert_eq!(actions.len(), 1);
    assert_eq!(sysex_bytes(&actions[0]), vec![0x42, 0x30, 0x04, 0x41, 22, 0x20]);
    let actions = control.msg_from_beatstep(note_on(6), 0).unwrap();
    assert_eq!(sysex_bytes(&actions[0]), vec![0x42, 0x30, 0x04, 0x41, 22, 0x00]);
    let actions = control.msg_from_beatstep(note_on(7), 0).unwrap();
    assert_eq!(sysex_bytes(&actions[0]), vec![0x42, 0x30, 0x04, 0x41, 23, 0x20]);
    assert!(control.msg_from_beatstep(note_on(4), 0).unwrap().is_empty());
}

#[test]
fn program_pad_while_bank_held_also_toggles() {
    let mut control = with_program([0; 26]);
    let _ = control.msg_from_beatstep(note_on(8), 0).unwrap();
    let actions = control.msg_from_beatstep(note_on(7), 0).unwrap();
    assert_eq!(actions.len(), 2);
    match &actions[0] {
        Dw6Action::SendPacket(p) => assert_eq!(*p, Packet::from_raw([0x0C, 0xC0, 7, 0])),
        _ => panic!("no packet"),
    }
    assert_eq!(sysex_bytes(&actions[1]), vec![0x42, 0x30, 0x04, 0x41, 23, 0x20]);
}

#[test]
fn oscillator_knobs_hand_their_position_on() {
    let mut control = Dw6Control::new();
    let _ = control.msg_from_beatstep(note_on(2), 0).unwrap();
    let actions = control.msg_from_beatstep(cc(9, 40), 0).unwrap();
    assert!(matches!(actions[0], Dw6Action::SetLfoRate(v) if v.value() == 40));
    let actions = control.msg_from_beatstep(cc(10, 127), 0).unwrap();
    assert!(matches!(actions[0], Dw6Action::SetLfoAmount(v) if v.value() == 127));
    let actions = control.msg_from_beatstep(cc(11, 2), 0).unwrap();
    assert!(matches!(actions[0], Dw6Action::SetLfoWaveform(Waveform::Saw)));
    let actions = control.msg_from_beatstep(cc(11, 90), 0).unwrap();
    assert!(matches!(actions[0], Dw6Action::SetLfoWaveform(Waveform::RevSaw)));
}

#[test]
fn modulation_sets_a_value_aside_and_gives_it_back() {
    let mut dump = [0u8; 26];
    dump[5] = 33;
    let mut control = with_program(dump);
    assert_eq!(control.modulation_target(), None);
    let _ = control.msg_from_beatstep(note_on(2), 0).unwrap();
    assert!(control.msg_from_beatstep(cc(12, 9), 0).unwrap().is_empty());
    assert_eq!(control.lfo2_param(), Some(Lfo2Dest::Cutoff));
    assert_eq!(control.modulated_root(Dw6Param::Cutoff), Some(33));
    assert_eq!(control.modulation_target(), Some((Dw6Param::Cutoff, 63, 33)));
    let actions = control.modulate(50);
    assert_eq!(sysex_bytes(&actions[0]), vec![0x42, 0x30, 0x04, 0x41, 5, 50]);
    assert_eq!(control.current_dump().unwrap()[5], 50);
    assert!(control.msg_from_beatstep(cc(17, 20), 0).unwrap().is_empty());
    assert_eq!(control.modulated_root(Dw6Param::Cutoff), Some(20));
    assert_eq!(control.current_dump().unwrap()[5], 50);
    let actions = control.msg_from_beatstep(cc(12, 10), 0).unwrap();
    assert_eq!(actions.len(), 1);
    assert_eq!(sysex_bytes(&actions[0]), vec![0x42, 0x30, 0x04, 0x41, 5, 20]);
    assert_eq!(control.modulated_root(Dw6Param::Cutoff), None);
    assert_eq!(control.modulated_root(Dw6Param::Resonance), Some(0));
    assert_eq!(control.lfo2_param(), Some(Lfo2Dest::Resonance));
    assert!(control.msg_from_beatstep(cc(12, 100), 0).unwrap().len() == 1);
    assert_eq!(control.modulated_root(Dw6Param::Resonance), None);
    assert!(control.modulate(1).is_empty());
}

#[test]
fn modulate_without_a_target_does_nothing() {
    let mut control = with_program([0; 26]);
    assert!(control.modulate(5).is_empty());
    assert_eq!(control.current_dump(), Some([0; 26]));
}

#[test]
fn received_program_keeps_the_values_set_aside() {
    let mut dump = [0u8; 26];
    dump[5] = 33;
    let mut control = with_program(dump);
    let _ = control.msg_from_beatstep(note_on(2), 0).unwrap();
    let _ = control.msg_from_beatstep(cc(12, 9), 0).unwrap();
    let mut modulated = [1u8; 26];
    modulated[5] = 60;
    assert_eq!(control.from_dw6000_dump(&modulated), Ok(()));
    let now = control.current_dump().unwrap();
    assert_eq!(now[5], 33);
    assert_eq!(now[6], 1);
    assert_eq!(get_param_value(Dw6Param::Cutoff, &now), Ok(33));
}

#[test]
fn program_of_another_length_is_refused() {
    let mut control = Dw6Control::new();
    assert_eq!(control.from_dw6000_dump(&[0; 25]), Err(MidiError::SysexOutOfBounds));
    assert_eq!(control.from_dw6000_dump(&[0; 30]), Err(MidiError::SysexOutOfBounds));
    assert_eq!(control.current_dump(), None);
}

#[test]
fn dump_is_found_in_its_message() {
    let mut payload = vec![0x42u8, 0x30, 0x04, 0x40];
    payload.extend_from_slice(&[7; 26]);
    assert_eq!(find_dump(&payload), Some(4));
    payload[3] = 0x41;
    assert_eq!(find_dump(&payload), None);
    payload[3] = 0x40;
    payload.push(0);
    assert_eq!(find_dump(&payload), None);
    assert_eq!(find_dump(&[0x42, 0x30, 0x04, 0x40]), None);
}

#[test]
fn packets_from_the_synthesizer_deliver_the_program() {
    let mut payload = vec![0x42u8, 0x30, 0x04, 0x40];
    let program: Vec<u8> = (1..=26).collect();
    payload.extend_from_slice(&program);
    let mut seq = SysexSeq::from_slices(&[&payload]);
    let mut packets = vec![Packet::from_raw([0x0F, 0x45, 0, 0])];
    while let Some(p) = seq.next() {
        packets.push(p);
    }
    let mut control = Dw6Control::new();
    let mut buffer: heapless::Vec<u8, 64> = heapless::Vec::new();
    control.packets_from_dw_6000(&mut buffer, &packets[..5]);
    assert_eq!(control.current_dump(), None);
    assert_eq!(buffer.len(), 11);
    control.packets_from_dw_6000(&mut buffer, &packets[5..]);
    assert_eq!(control.current_dump().unwrap().to_vec(), program);
    assert_eq!(buffer.as_slice(), &payload[..]);
}

#[test]
fn packets_from_the_controller_are_taken_in_order() {
    let mut control = with_program([0; 26]);
    let packets = [
        Packet::from(note_on(9)),
        Packet::from_raw([0x00, 0, 0, 0]),
        Packet::from(note_on(2)),
        Packet::from(cc(17, 10)),
        Packet::from(cc(9, 5)),
    ];
    let actions = control.packets_from_beatstep(&packets, 7);
    assert_eq!(actions.len(), 3);
    match &actions[0] {
        Dw6Action::SendPacket(p) => assert_eq!(*p, Packet::from_raw([0x0C, 0xC0, 10, 0])),
        _ => panic!("no packet"),
    }
    assert_eq!(sysex_bytes(&actions[1]), vec![0x42, 0x30, 0x04, 0x41, 5, 10]);
    assert!(matches!(actions[2], Dw6Action::SetLfoRate(v) if v.value() == 5));
    assert_eq!(control.active_page(), KnobPage::Mod);
}

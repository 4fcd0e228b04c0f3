use beamer::midi_cc_config::{MidiCcConfig, PITCH_BEND};
use beamer::midi_cc_state::{MidiCcState, MIDI_CC_PARAM_BASE};
use beamer::parameters::{NORMALIZED_HALF_BITS, NORMALIZED_ZERO_BITS};

#[test]
fn test_from_config() {
    let config = MidiCcConfig::new()
        .with_pitch_bend()
        .with_mod_wheel()
        .with_ccs(&[7, 64]);

    let state = MidiCcState::from_config(&config);

    assert!(state.has_pitch_bend());
    assert!(state.has_controller(1));
    assert!(state.has_controller(7));
    assert!(state.has_controller(64));
    assert!(!state.has_aftertouch());
    assert_eq!(state.enabled_count(), 4);
}

#[test]
fn test_param_id_helpers() {
    assert_eq!(MidiCcState::param_id(1), MIDI_CC_PARAM_BASE + 1);
    assert_eq!(MidiCcState::param_id(129), MIDI_CC_PARAM_BASE + 129);

    assert!(MidiCcState::is_midi_cc_param(MIDI_CC_PARAM_BASE));
    assert!(MidiCcState::is_midi_cc_param(MIDI_CC_PARAM_BASE + 129));
    assert!(!MidiCcState::is_midi_cc_param(0));
    assert!(!MidiCcState::is_midi_cc_param(MIDI_CC_PARAM_BASE + 200));

    assert_eq!(MidiCcState::param_id_to_controller(MIDI_CC_PARAM_BASE + 1), Some(1));
    assert_eq!(MidiCcState::param_id_to_controller(100), None);
}

#[test]
fn state_lists_controllers_in_increasing_order() {
    let config = MidiCcConfig::new().with_cc(64).with_pitch_bend().with_cc(7).with_mod_wheel();
    let state = MidiCcState::from_config(&config);
    assert_eq!(state.enabled_controllers(), vec![1, 7, 64, 129]);
}

#[test]
fn state_param_infos_describe_hidden_parameters() {
    let config = MidiCcConfig::new().with_mod_wheel().with_pitch_bend().with_cc(30);
    let state = MidiCcState::from_config(&config);

    let mw = state.info(0).unwrap();
    assert_eq!(mw.id, MIDI_CC_PARAM_BASE + 1);
    assert_eq!(mw.name, "Mod Wheel");
    assert_eq!(mw.short_name, "MW");
    assert_eq!(mw.default_normalized_bits, NORMALIZED_ZERO_BITS);
    assert!(mw.flags.is_hidden);
    assert!(mw.flags.can_automate);

    let cc30 = state.info(1).unwrap();
    assert_eq!(cc30.name, "MIDI CC");
    assert_eq!(cc30.short_name, "CC");

    let pb = state.info(2).unwrap();
    assert_eq!(pb.id, MIDI_CC_PARAM_BASE + PITCH_BEND as u32);
    assert_eq!(pb.name, "Pitch Bend");
    assert_eq!(f64::from_bits(pb.default_normalized_bits), 0.5);
    assert_eq!(pb.default_normalized_bits, NORMALIZED_HALF_BITS);

    assert!(state.info(3).is_none());
}

#[test]
fn state_param_id_roundtrip_for_every_slot() {
    for c in 0u8..130 {
        let id = MidiCcState::param_id(c);
        assert!(MidiCcState::is_midi_cc_param(id));
        assert_eq!(MidiCcState::param_id_to_controller(id), Some(c));
    }
    assert_eq!(MidiCcState::param_id_to_controller(MIDI_CC_PARAM_BASE + 130), None);
    assert_eq!(MidiCcState::param_id_to_controller(MIDI_CC_PARAM_BASE - 1), None);
}

use beamer::midi_params::MidiCcParams;
use beamer::midi_cc_state::MIDI_CC_PARAM_BASE;

#[test]
fn test_builder() {
    let params = MidiCcParams::new()
        .with_pitch_bend()
        .with_mod_wheel()
        .with_ccs(&[7, 64]);

    assert!(params.has_pitch_bend());
    assert!(!params.has_aftertouch());
    assert!(params.has_controller(1));
    assert!(params.has_controller(7));
    assert!(params.has_controller(64));
    assert!(!params.has_controller(10));
    assert_eq!(params.enabled_count(), 4);
}

#[test]
fn test_param_id() {
    assert_eq!(MidiCcParams::param_id(1), MIDI_CC_PARAM_BASE + 1);
    assert_eq!(MidiCcParams::param_id(129), MIDI_CC_PARAM_BASE + 129);

    assert!(MidiCcParams::is_midi_cc_param(MIDI_CC_PARAM_BASE));
    assert!(MidiCcParams::is_midi_cc_param(MIDI_CC_PARAM_BASE + 129));
    assert!(!MidiCcParams::is_midi_cc_param(0));
    assert!(!MidiCcParams::is_midi_cc_param(MIDI_CC_PARAM_BASE + 200));

    assert_eq!(MidiCcParams::param_id_to_controller(MIDI_CC_PARAM_BASE + 1), Some(1));
    assert_eq!(MidiCcParams::param_id_to_controller(100), None);
}

#[test]
fn params_keep_enabling_order_and_skip_repeats() {
    let params = MidiCcParams::new()
        .with_cc(64)
        .with_pitch_bend()
        .with_ccs(&[7, 64, 200, 7])
        .with_cc(128)
        .with_aftertouch();
    assert_eq!(params.enabled_controllers(), vec![64, 129, 7, 128]);
    assert_eq!(params.enabled_count(), 4);
    assert!(params.has_aftertouch());
    assert_eq!(params.info(0).unwrap().name, "Sustain Pedal");
    assert_eq!(params.info(1).unwrap().name, "Pitch Bend");
    assert_eq!(params.info(2).unwrap().short_name, "Vol");
    assert_eq!(params.info(3).unwrap().name, "Aftertouch");
    assert!(params.info(4).is_none());
}

#[test]
fn params_with_all_ccs() {
    let params = MidiCcParams::new().with_mod_wheel().with_all_ccs();
    assert_eq!(params.enabled_count(), 128);
    let order = params.enabled_controllers();
    assert_eq!(order[0], 1);
    assert_eq!(order[1], 0);
    assert_eq!(order[127], 127);
    assert!(!params.has_pitch_bend());
}

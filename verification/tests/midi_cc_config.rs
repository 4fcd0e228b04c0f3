use beamer::midi_cc_config::MidiCcConfig;

#[test]
fn test_const_builder() {
    let config: MidiCcConfig = MidiCcConfig::new()
        .with_pitch_bend()
        .with_mod_wheel()
        .with_cc(7)
        .with_cc(64);

    assert!(config.has_pitch_bend());
    assert!(config.has_mod_wheel());
    assert!(config.is_enabled(7));
    assert!(config.is_enabled(64));
    assert!(!config.has_aftertouch());
    assert!(!config.is_enabled(10));
    assert_eq!(config.enabled_count(), 4);
}

#[test]
fn test_with_ccs_runtime() {
    let config = MidiCcConfig::new()
        .with_pitch_bend()
        .with_ccs(&[7, 10, 11, 64]);

    assert!(config.has_pitch_bend());
    assert!(config.is_enabled(7));
    assert!(config.is_enabled(10));
    assert!(config.is_enabled(11));
    assert!(config.is_enabled(64));
    assert_eq!(config.enabled_count(), 5);
}

#[test]
fn test_default() {
    let config = MidiCcConfig::default();
    assert_eq!(config.enabled_count(), 0);
    assert!(!config.has_pitch_bend());
}

#[test]
fn test_with_all_ccs() {
    let config = MidiCcConfig::new().with_all_ccs();
    assert_eq!(config.enabled_count(), 128);
    assert!(config.is_enabled(0));
    assert!(config.is_enabled(127));
    assert!(!config.has_pitch_bend());
    assert!(!config.has_aftertouch());
}

#[test]
fn test_synth_basic_preset() {
    let config = MidiCcConfig::synth_basic();

    assert!(config.has_pitch_bend());
    assert!(config.has_mod_wheel());
    assert!(config.is_enabled(7));
    assert!(config.is_enabled(11));
    assert!(config.is_enabled(64));
    assert!(!config.has_aftertouch());
    assert_eq!(config.enabled_count(), 5);
}

#[test]
fn test_synth_full_preset() {
    let config = MidiCcConfig::synth_full();

    assert!(config.has_pitch_bend());
    assert!(config.has_aftertouch());
    assert!(config.has_mod_wheel());
    assert!(config.is_enabled(2));
    assert!(config.is_enabled(7));
    assert!(config.is_enabled(10));
    assert!(config.is_enabled(11));
    assert!(config.is_enabled(64));
    assert_eq!(config.enabled_count(), 8);
}

#[test]
fn test_effect_basic_preset() {
    let config = MidiCcConfig::effect_basic();

    assert!(config.has_mod_wheel());
    assert!(config.is_enabled(11));
    assert!(!config.has_pitch_bend());
    assert_eq!(config.enabled_count(), 2);
}

#[test]
fn config_enabling_twice_counts_once() {
    let config = MidiCcConfig::new().with_cc(7).with_cc(7).with_ccs(&[7, 7]);
    assert_eq!(config.enabled_count(), 1);
}

#[test]
fn config_out_of_range_controller_is_not_enabled() {
    let config = MidiCcConfig::new().with_all_ccs().with_pitch_bend();
    assert!(!config.is_enabled(130));
    assert!(!config.is_enabled(255));
    assert!(config.is_enabled(129));
    assert_eq!(config.enabled_flags().iter().filter(|b| **b).count(), 129);
}

use beamer::legacy_cc::{
    decode_legacy_cc, LegacyCcEvent, LEGACY_CC_CHANNEL_PRESSURE, LEGACY_CC_PITCH_BEND, LEGACY_CC_PROGRAM_CHANGE,
};

#[test]
fn standard_controllers() {
    assert_eq!(
        decode_legacy_cc(7, 2, 100, 0),
        Some(LegacyCcEvent::ControlChange { channel: 2, controller: 7, value: 100 })
    );
    assert_eq!(
        decode_legacy_cc(127, 15, 0, 0),
        Some(LegacyCcEvent::ControlChange { channel: 15, controller: 127, value: 0 })
    );
}

#[test]
fn pressure_bend_and_program() {
    assert_eq!(
        decode_legacy_cc(LEGACY_CC_CHANNEL_PRESSURE, 1, 64, 0),
        Some(LegacyCcEvent::ChannelPressure { channel: 1, value: 64 })
    );
    // Centre: MSB 64, LSB 0.
    assert_eq!(
        decode_legacy_cc(LEGACY_CC_PITCH_BEND, 0, 0, 64),
        Some(LegacyCcEvent::PitchBend { channel: 0, raw: 8192 })
    );
    assert_eq!(
        decode_legacy_cc(LEGACY_CC_PITCH_BEND, 0, 127, 127),
        Some(LegacyCcEvent::PitchBend { channel: 0, raw: 16383 })
    );
    // The low byte keeps 7 bits; the high byte is taken whole.
    assert_eq!(
        decode_legacy_cc(LEGACY_CC_PITCH_BEND, 3, -1, 1),
        Some(LegacyCcEvent::PitchBend { channel: 3, raw: 128 + 127 })
    );
    assert_eq!(
        decode_legacy_cc(LEGACY_CC_PROGRAM_CHANGE, -1, 5, 0),
        Some(LegacyCcEvent::ProgramChange { channel: 255, program: 5 })
    );
}

#[test]
fn unknown_control_numbers() {
    assert_eq!(decode_legacy_cc(131, 0, 0, 0), None);
    assert_eq!(decode_legacy_cc(255, 0, 0, 0), None);
}

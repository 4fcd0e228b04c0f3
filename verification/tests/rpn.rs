use beamer::rpn::{
    is_null, ParameterNumberKind, ParameterNumberMessage, RpnTracker, DATA_DECREMENT,
    DATA_ENTRY_LSB, DATA_ENTRY_MSB, DATA_INCREMENT, NRPN_LSB, NRPN_MSB, NULL,
    PITCH_BEND_SENSITIVITY, RPN_LSB, RPN_MSB,
};
use beamer::midi14::{combine_14bit_raw, split_14bit_raw};

#[test]
fn pitch_bend_sensitivity_sequence() {
    let mut tracker = RpnTracker::new();
    assert_eq!(tracker.process_cc(0, RPN_MSB, 0), None);
    assert_eq!(tracker.process_cc(0, RPN_LSB, 0), None);
    let msg = tracker.process_cc(0, DATA_ENTRY_MSB, 12).expect("message");
    assert!(msg.is_rpn());
    assert!(!msg.is_nrpn());
    assert!(msg.is_pitch_bend_sensitivity());
    assert_eq!(msg.parameter, PITCH_BEND_SENSITIVITY);
    assert_eq!(msg.raw_value, 12 * 128);
    assert_eq!(msg.pitch_bend_sensitivity(), (12, 0));
    assert!(!msg.is_increment && !msg.is_decrement);
}

#[test]
fn data_entry_lsb_refines_the_value() {
    let mut tracker = RpnTracker::new();
    tracker.process_cc(0, RPN_MSB, 0);
    tracker.process_cc(0, RPN_LSB, 0);
    tracker.process_cc(0, DATA_ENTRY_MSB, 2);
    let msg = tracker.process_cc(0, DATA_ENTRY_LSB, 50).expect("message");
    assert_eq!(msg.raw_value, 2 * 128 + 50);
    assert_eq!(msg.pitch_bend_sensitivity(), (2, 50));
}

#[test]
fn data_entry_lsb_without_msb_emits_nothing() {
    let mut tracker = RpnTracker::new();
    tracker.process_cc(5, RPN_MSB, 0);
    tracker.process_cc(5, RPN_LSB, 1);
    assert_eq!(tracker.process_cc(5, DATA_ENTRY_LSB, 3), None);
}

#[test]
fn rpn_null_deselects_the_channel() {
    let mut tracker = RpnTracker::new();
    tracker.process_cc(0, RPN_MSB, 0);
    tracker.process_cc(0, RPN_LSB, 0);
    assert_eq!(tracker.current_parameter(0), Some((ParameterNumberKind::Rpn, 0)));
    tracker.process_cc(0, RPN_MSB, 127);
    tracker.process_cc(0, RPN_LSB, 127);
    assert_eq!(tracker.current_parameter(0), None);
    assert_eq!(tracker.process_cc(0, DATA_ENTRY_MSB, 5), None);
    assert_eq!(tracker.process_cc(0, DATA_INCREMENT, 0), None);
}

#[test]
fn nrpn_sequence() {
    let mut tracker = RpnTracker::new();
    tracker.process_cc(3, NRPN_MSB, 1);
    tracker.process_cc(3, NRPN_LSB, 2);
    assert_eq!(tracker.current_parameter(3), Some((ParameterNumberKind::Nrpn, 130)));
    let msg = tracker.process_cc(3, DATA_ENTRY_MSB, 64).expect("message");
    assert!(msg.is_nrpn());
    assert!(!msg.is_pitch_bend_sensitivity());
    assert_eq!(msg.channel, 3);
    assert_eq!(msg.parameter, 130);
    assert_eq!(msg.raw_value, 8192);
    assert_eq!(msg, ParameterNumberMessage::nrpn(3, 130, 8192));
}

#[test]
fn increment_and_decrement_are_relative() {
    let mut tracker = RpnTracker::new();
    tracker.process_cc(1, RPN_MSB, 0);
    tracker.process_cc(1, RPN_LSB, 2);
    let up = tracker.process_cc(1, DATA_INCREMENT, 0).expect("increment");
    assert!(up.is_increment && !up.is_decrement);
    assert_eq!(up.raw_value, 0);
    assert_eq!(up.parameter, 2);
    let down = tracker.process_cc(1, DATA_DECREMENT, 0).expect("decrement");
    assert!(down.is_decrement && !down.is_increment);
}

#[test]
fn increment_without_selection_emits_nothing() {
    let mut tracker = RpnTracker::new();
    assert_eq!(tracker.process_cc(0, DATA_INCREMENT, 0), None);
    assert_eq!(tracker.process_cc(0, DATA_DECREMENT, 0), None);
}

#[test]
fn channel_is_taken_modulo_16_and_channels_are_independent() {
    let mut tracker = RpnTracker::new();
    tracker.process_cc(18, RPN_MSB, 0);
    tracker.process_cc(2, RPN_LSB, 0);
    assert_eq!(tracker.current_parameter(2), Some((ParameterNumberKind::Rpn, 0)));
    assert_eq!(tracker.current_parameter(1), None);
    let msg = tracker.process_cc(2, DATA_ENTRY_MSB, 1).expect("message");
    assert_eq!(msg.channel, 2);
    assert_eq!(tracker.process_cc(1, DATA_ENTRY_MSB, 1), None);
}

#[test]
fn new_selection_discards_pending_data() {
    let mut tracker = RpnTracker::new();
    tracker.process_cc(0, RPN_MSB, 0);
    tracker.process_cc(0, RPN_LSB, 0);
    tracker.process_cc(0, DATA_ENTRY_MSB, 9);
    tracker.process_cc(0, NRPN_MSB, 0);
    assert_eq!(tracker.process_cc(0, DATA_ENTRY_LSB, 1), None);
}

#[test]
fn unrelated_controllers_are_ignored() {
    let mut tracker = RpnTracker::new();
    tracker.process_cc(0, RPN_MSB, 0);
    tracker.process_cc(0, RPN_LSB, 0);
    assert_eq!(tracker.process_cc(0, 7, 100), None);
    assert_eq!(tracker.current_parameter(0), Some((ParameterNumberKind::Rpn, 0)));
}

#[test]
fn reset_and_reset_channel() {
    let mut tracker = RpnTracker::default();
    tracker.process_cc(0, RPN_MSB, 0);
    tracker.process_cc(0, RPN_LSB, 0);
    tracker.process_cc(4, NRPN_MSB, 0);
    tracker.process_cc(4, NRPN_LSB, 0);
    tracker.reset_channel(0);
    assert_eq!(tracker.current_parameter(0), None);
    assert_eq!(tracker.current_parameter(4), Some((ParameterNumberKind::Nrpn, 0)));
    tracker.reset_channel(200);
    assert_eq!(tracker.current_parameter(4), Some((ParameterNumberKind::Nrpn, 0)));
    tracker.reset();
    assert_eq!(tracker.current_parameter(4), None);
}

#[test]
fn null_parameter_numbers() {
    assert!(is_null(NULL));
    assert!(is_null(0x7F7F));
    assert!(!is_null(0));
    assert!(ParameterNumberMessage::rpn(0, NULL, 0).is_null());
    assert!(!ParameterNumberMessage::nrpn(0, NULL, 0).is_null());
    assert!(!ParameterNumberMessage::rpn(0, 0, 0).is_null());
}

#[test]
fn fourteen_bit_combine_and_split() {
    assert_eq!(combine_14bit_raw(0x7F, 0x7F), 16383);
    assert_eq!(combine_14bit_raw(1, 0), 128);
    assert_eq!(combine_14bit_raw(0x40, 0), 8192);
    assert_eq!(split_14bit_raw(8192), (0x40, 0));
    assert_eq!(split_14bit_raw(16383), (0x7F, 0x7F));
    assert_eq!(split_14bit_raw(combine_14bit_raw(12, 34)), (12, 34));
}

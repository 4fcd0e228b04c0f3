use beamer::bypass::{BypassAction, BypassHandler, BypassState, CrossfadeCurve};

#[test]
fn new_handler_is_active() {
    let h = BypassHandler::new(4, CrossfadeCurve::Linear);
    assert!(h.is_active());
    assert!(!h.is_bypassed());
    assert!(!h.is_ramping());
    assert_eq!(h.ramp_samples(), 4);
    assert_eq!(h.ramp_position(), 0);
    assert_eq!(h.curve(), CrossfadeCurve::Linear);
}

#[test]
fn default_handler() {
    let h = BypassHandler::default();
    assert_eq!(h.state(), BypassState::Active);
    assert_eq!(h.ramp_samples(), 64);
    assert_eq!(CrossfadeCurve::default(), CrossfadeCurve::Linear);
}

#[test]
fn instant_bypass_with_zero_ramp() {
    let mut h = BypassHandler::new(0, CrossfadeCurve::Linear);
    assert_eq!(h.begin(true), BypassAction::Passthrough);
    assert!(h.is_bypassed());
    assert_eq!(h.begin(false), BypassAction::Process);
    assert!(h.is_active());
}

#[test]
fn full_ramp_to_bypassed_and_back() {
    let mut h = BypassHandler::new(4, CrossfadeCurve::Linear);
    assert_eq!(h.begin(true), BypassAction::ProcessAndCrossfade);
    assert_eq!(h.state(), BypassState::RampingToBypassed);
    h.advance_ramp(2, 2);
    assert_eq!(h.ramp_position(), 2);
    assert_eq!(h.state(), BypassState::RampingToBypassed);
    h.advance_ramp(10, 2);
    assert_eq!(h.ramp_position(), 4);
    assert!(h.is_bypassed());
    assert_eq!(h.begin(true), BypassAction::Passthrough);

    assert_eq!(h.begin(false), BypassAction::ProcessAndCrossfade);
    assert_eq!(h.state(), BypassState::RampingToActive);
    assert_eq!(h.ramp_position(), 4);
    h.advance_ramp(4, 1);
    assert_eq!(h.ramp_position(), 0);
    assert!(h.is_active());
    assert_eq!(h.begin(false), BypassAction::Process);
}

#[test]
fn reversal_keeps_position() {
    let mut h = BypassHandler::new(8, CrossfadeCurve::SCurve);
    h.begin(true);
    h.advance_ramp(3, 2);
    assert_eq!(h.ramp_position(), 3);
    assert_eq!(h.begin(false), BypassAction::ProcessAndCrossfade);
    assert_eq!(h.state(), BypassState::RampingToActive);
    assert_eq!(h.ramp_position(), 3);
    h.advance_ramp(1, 2);
    assert_eq!(h.ramp_position(), 2);
    assert_eq!(h.begin(true), BypassAction::ProcessAndCrossfade);
    assert_eq!(h.state(), BypassState::RampingToBypassed);
    assert_eq!(h.ramp_position(), 2);
}

#[test]
fn block_without_channels_leaves_the_ramp() {
    let mut h = BypassHandler::new(8, CrossfadeCurve::Linear);
    h.begin(true);
    h.advance_ramp(5, 0);
    assert_eq!(h.ramp_position(), 0);
    assert_eq!(h.state(), BypassState::RampingToBypassed);
}

#[test]
fn step_and_complete_ramp() {
    let mut h = BypassHandler::new(2, CrossfadeCurve::Linear);
    h.begin(true);
    h.step_ramp();
    h.complete_ramp();
    assert_eq!(h.state(), BypassState::RampingToBypassed);
    h.step_ramp();
    h.step_ramp();
    assert_eq!(h.ramp_position(), 2);
    h.complete_ramp();
    assert!(h.is_bypassed());
}

#[test]
fn setters() {
    let mut h = BypassHandler::new(8, CrossfadeCurve::Linear);
    h.set_ramp_samples(16);
    h.set_curve(CrossfadeCurve::EqualPower);
    assert_eq!(h.ramp_samples(), 16);
    assert_eq!(h.curve(), CrossfadeCurve::EqualPower);
    assert!(h.is_active());
}

#[test]
fn ramped_handler_never_jumps_between_active_and_bypassed() {
    let mut h = BypassHandler::new(8, CrossfadeCurve::Linear);
    assert_eq!(h.begin(false), BypassAction::Process);
    assert_eq!(h.state(), BypassState::Active);
    assert_eq!(h.begin(true), BypassAction::ProcessAndCrossfade);
    assert_eq!(h.state(), BypassState::RampingToBypassed);
    assert_eq!(h.begin(true), BypassAction::ProcessAndCrossfade);
    assert_eq!(h.state(), BypassState::RampingToBypassed);
    h.advance_ramp(8, 2);
    assert_eq!(h.state(), BypassState::Bypassed);
    assert_eq!(h.begin(true), BypassAction::Passthrough);
    assert_eq!(h.begin(false), BypassAction::ProcessAndCrossfade);
    assert_eq!(h.state(), BypassState::RampingToActive);
    assert_eq!(h.ramp_position(), 8);
}

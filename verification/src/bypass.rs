//! Soft-bypass state handling.
//!
//! A [`BypassHandler`] tracks whether a plugin is active, bypassed, or
//! crossfading between the two, and tells the processing code what to do
//! for each buffer. The crossfade itself (per-sample wet/dry gains) is
//! computed by the audio code from the ramp position this handler keeps.

use vstd::prelude::*;

verus! {

/// Current state of the bypass handler.
#[derive(Debug, Clone, Copy, PartialEq, Eq, Structural)]
pub enum BypassState {
    /// Plugin is processing normally (not bypassed).
    Active,
    /// Transitioning from active to bypassed (crossfading to dry).
    RampingToBypassed,
    /// Plugin is fully bypassed (passthrough only).
    Bypassed,
    /// Transitioning from bypassed to active (crossfading to wet).
    RampingToActive,
}

/// What the plugin should do for the current buffer.
#[derive(Debug, Clone, Copy, PartialEq, Eq, Structural)]
pub enum BypassAction {
    /// Fully bypassed: copy input to output, no DSP.
    Passthrough,
    /// Fully active: run the DSP normally.
    Process,
    /// Transitioning: run the DSP, then apply the crossfade.
    ProcessAndCrossfade,
}

/// Crossfade curve shape for bypass transitions.
#[derive(Debug, Clone, Copy, PartialEq, Eq, Structural)]
pub enum CrossfadeCurve {
    /// Linear crossfade: gain = position.
    Linear,
    /// Equal-power crossfade: sin/cos of position * PI/2.
    EqualPower,
    /// S-curve crossfade: smoothstep 3x^2 - 2x^3.
    SCurve,
}

impl Default for CrossfadeCurve {
    fn default() -> (c: Self)
        ensures
            c == CrossfadeCurve::Linear,
    {
        CrossfadeCurve::Linear
    }
}

/// The abstract state of a bypass handler.
pub struct BypassModel {
    /// Bypass state.
    pub state: BypassState,
    /// Position in the ramp (0 = fully wet, `ramp_samples` = fully dry).
    pub position: u32,
    /// Ramp length in samples (0 = instant bypass).
    pub ramp_samples: u32,
    /// Crossfade curve.
    pub curve: CrossfadeCurve,
}

/// The (state, position) after the bypass parameter is read as `bypassed`.
///
/// With a zero-length ramp the handler snaps to the target state. Otherwise
/// a stable state starts a ramp towards the target (from position 0 when
/// bypassing, from the full ramp when un-bypassing), a ramp in the opposite
/// direction reverses in place, and anything else is left unchanged.
pub open spec fn bypass_transition(m: BypassModel, bypassed: bool) -> (BypassState, u32) {
    if m.ramp_samples == 0 {
        let target = if bypassed { BypassState::Bypassed } else { BypassState::Active };
        if m.state != target { (target, 0) } else { (m.state, m.position) }
    } else {
        match (m.state, bypassed) {
            (BypassState::Active, true) => (BypassState::RampingToBypassed, 0),
            (BypassState::RampingToBypassed, false) => (BypassState::RampingToActive, m.position),
            (BypassState::Bypassed, false) => (BypassState::RampingToActive, m.ramp_samples),
            (BypassState::RampingToActive, true) => (BypassState::RampingToBypassed, m.position),
            _ => (m.state, m.position),
        }
    }
}

/// The action for a state.
pub open spec fn action_for(state: BypassState) -> BypassAction {
    match state {
        BypassState::Bypassed => BypassAction::Passthrough,
        BypassState::Active => BypassAction::Process,
        _ => BypassAction::ProcessAndCrossfade,
    }
}

/// The ramp position after one crossfaded sample: one step towards the
/// full ramp (capped there) while ramping to bypassed, one step towards 0
/// (stopping at 0) otherwise.
pub open spec fn ramp_step(state: BypassState, position: u32, ramp_samples: u32) -> u32 {
    if state == BypassState::RampingToBypassed {
        if position + 1 <= ramp_samples { (position + 1) as u32 } else { ramp_samples }
    } else {
        if position >= 1 { (position - 1) as u32 } else { 0 }
    }
}

/// The ramp position after `n` crossfaded samples.
pub open spec fn ramp_after(state: BypassState, position: u32, ramp_samples: u32, n: nat) -> u32 {
    if state == BypassState::RampingToBypassed {
        if n == 0 {
            position
        } else if position + n <= ramp_samples {
            (position + n) as u32
        } else {
            ramp_samples
        }
    } else {
        if position >= n { (position - n) as u32 } else { 0 }
    }
}

/// The state at the end of a crossfaded block: bypassed once a ramp towards
/// bypass has reached its end, active once any other ramp is back at 0.
pub open spec fn state_after_block(state: BypassState, position: u32, ramp_samples: u32) -> BypassState {
    if state == BypassState::RampingToBypassed && position >= ramp_samples {
        BypassState::Bypassed
    } else if state != BypassState::RampingToBypassed && position == 0 {
        BypassState::Active
    } else {
        state
    }
}

/// With a zero-length ramp the bypass is instant: whatever the prior state,
/// the action is passthrough when bypassed and normal processing otherwise.
pub proof fn lemma_instant_bypass(m: BypassModel, bypassed: bool)
    requires
        m.ramp_samples == 0,
    ensures
        action_for(bypass_transition(m, bypassed).0) == (if bypassed {
            BypassAction::Passthrough
        } else {
            BypassAction::Process
        }),
{
}

/// Engaging bypass from the active state crossfades for exactly the ramp
/// length: after `begin(true)` and blocks totalling at least `ramp_samples`
/// samples the handler is bypassed, and the next buffer passes through.
pub proof fn lemma_bypass_ramp_completes(ramp_samples: u32, n: nat)
    requires
        ramp_samples > 0,
        n >= ramp_samples,
    ensures
        ({
            let m = BypassModel {
                state: BypassState::Active,
                position: 0,
                ramp_samples,
                curve: CrossfadeCurve::Linear,
            };
            let (s1, p1) = bypass_transition(m, true);
            let p2 = ramp_after(s1, p1, ramp_samples, n);
            let s2 = state_after_block(s1, p2, ramp_samples);
            &&& s1 == BypassState::RampingToBypassed
            &&& action_for(s1) == BypassAction::ProcessAndCrossfade
            &&& p2 == ramp_samples
            &&& s2 == BypassState::Bypassed
            &&& action_for(bypass_transition(BypassModel { state: s2, position: p2, ..m }, true).0)
                == BypassAction::Passthrough
        }),
{
}

/// Releasing bypass crossfades back for exactly the ramp length: from the
/// bypassed state, `begin(false)` starts at the full ramp and blocks
/// totalling at least `ramp_samples` samples bring the handler back to active.
pub proof fn lemma_release_ramp_completes(ramp_samples: u32, position: u32, n: nat)
    requires
        ramp_samples > 0,
        n >= ramp_samples,
    ensures
        ({
            let m = BypassModel {
                state: BypassState::Bypassed,
                position,
                ramp_samples,
                curve: CrossfadeCurve::Linear,
            };
            let (s1, p1) = bypass_transition(m, false);
            let p2 = ramp_after(s1, p1, ramp_samples, n);
            &&& s1 == BypassState::RampingToActive
            &&& p1 == ramp_samples
            &&& p2 == 0
            &&& state_after_block(s1, p2, ramp_samples) == BypassState::Active
        }),
{
}

/// The state table of the bypass parameter. With a zero-length ramp the
/// state snaps to the target. With a ramp, bypassing from active and
/// releasing from bypassed start a crossfade, a crossfade reverses when the
/// parameter flips, and every other pair leaves the state as it was; so a
/// ramped handler never moves directly between active and bypassed.
pub proof fn lemma_bypass_state_table(m: BypassModel, bypassed: bool)
    ensures
        m.ramp_samples == 0 ==> bypass_transition(m, bypassed).0 == (if bypassed {
            BypassState::Bypassed
        } else {
            BypassState::Active
        }),
        m.ramp_samples > 0 ==> bypass_transition(m, bypassed).0 == (match (m.state, bypassed) {
            (BypassState::Active, true) => BypassState::RampingToBypassed,
            (BypassState::RampingToBypassed, false) => BypassState::RampingToActive,
            (BypassState::Bypassed, false) => BypassState::RampingToActive,
            (BypassState::RampingToActive, true) => BypassState::RampingToBypassed,
            _ => m.state,
        }),
        m.ramp_samples > 0 && m.state == BypassState::Active ==> bypass_transition(m, bypassed).0
            != BypassState::Bypassed,
        m.ramp_samples > 0 && m.state == BypassState::Bypassed ==> bypass_transition(m, bypassed).0
            != BypassState::Active,
{
}

/// Toggling the bypass parameter during a crossfade reverses the ramp
/// direction without moving the ramp position, so the crossfade continues
/// smoothly from where it was.
pub proof fn lemma_reversal_keeps_position(m: BypassModel)
    requires
        m.ramp_samples > 0,
        m.state == BypassState::RampingToBypassed || m.state == BypassState::RampingToActive,
    ensures
        ({
            let (s, p) = bypass_transition(m, m.state == BypassState::RampingToActive);
            &&& p == m.position
            &&& s != m.state
        }),
{
}

/// A crossfade towards bypass never moves the ramp position past the ramp
/// length once it is within it.
pub proof fn lemma_ramp_stays_in_range(position: u32, ramp_samples: u32, n: nat)
    requires
        position <= ramp_samples,
    ensures
        ramp_after(BypassState::RampingToBypassed, position, ramp_samples, n) <= ramp_samples,
        ramp_after(BypassState::RampingToActive, position, ramp_samples, n) <= position,
{
}

/// Utility for handling bypass with smooth crossfading.
pub struct BypassHandler {
    state: BypassState,
    ramp_position: u32,
    ramp_samples: u32,
    curve: CrossfadeCurve,
}

impl View for BypassHandler {
    type V = BypassModel;

    closed spec fn view(&self) -> BypassModel {
        BypassModel {
            state: self.state,
            position: self.ramp_position,
            ramp_samples: self.ramp_samples,
            curve: self.curve,
        }
    }
}

impl BypassHandler {
    /// Create a handler in the active state with the given ramp length and curve.
    pub fn new(ramp_samples: u32, curve: CrossfadeCurve) -> (h: Self)
        ensures
            h@.state == BypassState::Active,
            h@.position == 0,
            h@.ramp_samples == ramp_samples,
            h@.curve == curve,
    {
        BypassHandler { state: BypassState::Active, ramp_position: 0, ramp_samples, curve }
    }

    /// The current bypass state.
    pub fn state(&self) -> (s: BypassState)
        ensures
            s == self@.state,
    {
        self.state
    }

    /// Whether a crossfade is in progress.
    pub fn is_ramping(&self) -> (r: bool)
        ensures
            r == (self@.state == BypassState::RampingToBypassed || self@.state == BypassState::RampingToActive),
    {
        match self.state {
            BypassState::RampingToBypassed | BypassState::RampingToActive => true,
            _ => false,
        }
    }

    /// Whether fully bypassed.
    pub fn is_bypassed(&self) -> (r: bool)
        ensures
            r == (self@.state == BypassState::Bypassed),
    {
        self.state == BypassState::Bypassed
    }

    /// Whether fully active.
    pub fn is_active(&self) -> (r: bool)
        ensures
            r == (self@.state == BypassState::Active),
    {
        self.state == BypassState::Active
    }

    /// The configured ramp length in samples.
    pub fn ramp_samples(&self) -> (r: u32)
        ensures
            r == self@.ramp_samples,
    {
        self.ramp_samples
    }

    /// The current position in the ramp.
    pub fn ramp_position(&self) -> (r: u32)
        ensures
            r == self@.position,
    {
        self.ramp_position
    }

    /// The configured crossfade curve.
    pub fn curve(&self) -> (r: CrossfadeCurve)
        ensures
            r == self@.curve,
    {
        self.curve
    }

    /// Set the ramp length; it takes effect on the next transition.
    pub fn set_ramp_samples(&mut self, samples: u32)
        ensures
            final(self)@ == (BypassModel { ramp_samples: samples, ..old(self)@ }),
    {
        self.ramp_samples = samples;
    }

    /// Set the crossfade curve.
    pub fn set_curve(&mut self, curve: CrossfadeCurve)
        ensures
            final(self)@ == (BypassModel { curve, ..old(self)@ }),
    {
        self.curve = curve;
    }

    /// Update the state from the bypass parameter and return what to do
    /// with this buffer.
    pub fn begin(&mut self, bypassed: bool) -> (a: BypassAction)
        ensures
            old(self)@.ramp_samples == 0 ==> final(self)@.state == (if bypassed {
                BypassState::Bypassed
            } else {
                BypassState::Active
            }),
            old(self)@.ramp_samples > 0 ==> final(self)@.state == (match (old(self)@.state, bypassed) {
                (BypassState::Active, true) => BypassState::RampingToBypassed,
                (BypassState::RampingToBypassed, false) => BypassState::RampingToActive,
                (BypassState::Bypassed, false) => BypassState::RampingToActive,
                (BypassState::RampingToActive, true) => BypassState::RampingToBypassed,
                (state, _) => state,
            }),
            (final(self)@.state, final(self)@.position) == bypass_transition(old(self)@, bypassed),
            final(self)@.ramp_samples == old(self)@.ramp_samples,
            final(self)@.curve == old(self)@.curve,
            a == action_for(final(self)@.state),
    {
        self.set_bypass(bypassed);
        match self.state {
            BypassState::Bypassed => BypassAction::Passthrough,
            BypassState::Active => BypassAction::Process,
            BypassState::RampingToBypassed | BypassState::RampingToActive => BypassAction::ProcessAndCrossfade,
        }
    }

    fn set_bypass(&mut self, bypassed: bool)
        ensures
            (final(self)@.state, final(self)@.position) == bypass_transition(old(self)@, bypassed),
            final(self)@.ramp_samples == old(self)@.ramp_samples,
            final(self)@.curve == old(self)@.curve,
    {
        if self.ramp_samples == 0 {
            let target = if bypassed {
                BypassState::Bypassed
            } else {
                BypassState::Active
            };
            if self.state != target {
                self.state = target;
                self.ramp_position = 0;
            }
            return ;
        }
        match (self.state, bypassed) {
            (BypassState::Active, true) => {
                self.state = BypassState::RampingToBypassed;
                self.ramp_position = 0;
            },
            (BypassState::RampingToBypassed, false) => {
                self.state = BypassState::RampingToActive;
            },
            (BypassState::Bypassed, false) => {
                self.state = BypassState::RampingToActive;
                self.ramp_position = self.ramp_samples;
            },
            (BypassState::RampingToActive, true) => {
                self.state = BypassState::RampingToBypassed;
            },
            _ => {},
        }
    }

    /// Advance the ramp by one crossfaded sample.
    pub fn step_ramp(&mut self)
        ensures
            final(self)@ == (BypassModel {
                position: ramp_step(old(self)@.state, old(self)@.position, old(self)@.ramp_samples),
                ..old(self)@
            }),
    {
        if self.state == BypassState::RampingToBypassed {
            if self.ramp_position < self.ramp_samples {
                self.ramp_position = self.ramp_position + 1;
            } else {
                self.ramp_position = self.ramp_samples;
            }
        } else {
            self.ramp_position = self.ramp_position.saturating_sub(1);
        }
    }

    /// Settle the state at the end of a crossfaded block.
    pub fn complete_ramp(&mut self)
        ensures
            final(self)@ == (BypassModel {
                state: state_after_block(old(self)@.state, old(self)@.position, old(self)@.ramp_samples),
                ..old(self)@
            }),
    {
        if self.state == BypassState::RampingToBypassed && self.ramp_position >= self.ramp_samples {
            self.state = BypassState::Bypassed;
        } else if self.state != BypassState::RampingToBypassed && self.ramp_position == 0 {
            self.state = BypassState::Active;
        }
    }

    /// Advance the crossfade over a block of `num_samples` samples with
    /// `num_channels` channels: the ramp moves one step per sample and the
    /// state settles at the end. A zero-length ramp or a block without
    /// channels leaves the handler unchanged.
    pub fn advance_ramp(&mut self, num_samples: usize, num_channels: usize)
        ensures
            (old(self)@.ramp_samples == 0 || num_channels == 0) ==> final(self)@ == old(self)@,
            (old(self)@.ramp_samples != 0 && num_channels != 0) ==> final(self)@ == (BypassModel {
                state: state_after_block(
                    old(self)@.state,
                    ramp_after(old(self)@.state, old(self)@.position, old(self)@.ramp_samples, num_samples as nat),
                    old(self)@.ramp_samples,
                ),
                position: ramp_after(old(self)@.state, old(self)@.position, old(self)@.ramp_samples, num_samples as nat),
                ..old(self)@
            }),
    {
        if self.ramp_samples == 0 || num_channels == 0 {
            return ;
        }
        let ghost start = self@;
        let mut i: usize = 0;
        while i < num_samples
            invariant
                i <= num_samples,
                start.ramp_samples != 0,
                self@ == (BypassModel {
                    position: ramp_after(start.state, start.position, start.ramp_samples, i as nat),
                    ..start
                }),
            decreases num_samples - i,
        {
            self.step_ramp();
            i += 1;
        }
        self.complete_ramp();
    }
}

impl Default for BypassHandler {
    /// A handler with a 64-sample linear ramp.
    fn default() -> (h: Self)
        ensures
            h@ == (BypassModel {
                state: BypassState::Active,
                position: 0,
                ramp_samples: 64,
                curve: CrossfadeCurve::Linear,
            }),
    {
        BypassHandler::new(64, CrossfadeCurve::Linear)
    }
}

} // verus!

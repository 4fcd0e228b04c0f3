//! Static MIDI CC configuration: which MIDI controllers a plugin wants to
//! receive through the host's MIDI-mapping interface.
//!
//! Controllers 0-127 are the standard CCs; 128 is channel aftertouch and
//! 129 is pitch bend.

use vstd::prelude::*;

verus! {

/// Number of controller slots (0-127 CCs, 128 aftertouch, 129 pitch bend).
pub const MAX_CC_CONTROLLER: usize = 130;

/// Channel pressure / aftertouch controller number.
pub const AFTERTOUCH: u8 = 128;

/// Pitch bend controller number.
pub const PITCH_BEND: u8 = 129;

/// Mod wheel controller number (CC 1).
pub const MOD_WHEEL: u8 = 1;

/// The controller numbers whose flag is set, in increasing order.
pub open spec fn enabled_indices(flags: Seq<bool>) -> Seq<u8>
    decreases flags.len(),
{
    if flags.len() == 0 {
        Seq::empty()
    } else {
        let rest = enabled_indices(flags.drop_last());
        if flags.last() {
            rest.push((flags.len() - 1) as u8)
        } else {
            rest
        }
    }
}

/// The number of set flags.
pub open spec fn count_enabled(flags: Seq<bool>) -> nat {
    enabled_indices(flags).len()
}

/// Enabled indices are strictly increasing, below the flag count, and are
/// exactly the set flags.
pub proof fn lemma_enabled_indices(flags: Seq<bool>)
    requires
        flags.len() <= 256,
    ensures
        enabled_indices(flags).len() <= flags.len(),
        forall|k: int| 0 <= k < enabled_indices(flags).len() ==> (enabled_indices(flags)[k] as int) < flags.len(),
        forall|k: int| 0 <= k < enabled_indices(flags).len() ==> flags[enabled_indices(flags)[k] as int],
        forall|k1: int, k2: int|
            0 <= k1 < k2 < enabled_indices(flags).len() ==> enabled_indices(flags)[k1] < enabled_indices(flags)[k2],
        forall|c: int| 0 <= c < flags.len() && flags[c] ==> enabled_indices(flags).contains(c as u8),
    decreases flags.len(),
{
    if flags.len() > 0 {
        let init = flags.drop_last();
        lemma_enabled_indices(init);
        let rest = enabled_indices(init);
        assert forall|c: int| 0 <= c < flags.len() && flags[c] implies enabled_indices(flags).contains(c as u8) by {
            if c < flags.len() - 1 {
                assert(init[c] == flags[c]);
                let k = choose|k: int| 0 <= k < rest.len() && rest[k] == c as u8;
                if flags.last() {
                    assert(enabled_indices(flags)[k] == c as u8);
                } else {
                    assert(enabled_indices(flags)[k] == c as u8);
                }
            } else {
                assert(enabled_indices(flags)[enabled_indices(flags).len() - 1] == c as u8);
            }
        }
    }
}

/// The enabled indices of a prefix extended by one flag.
pub proof fn lemma_enabled_indices_push(flags: Seq<bool>, i: int)
    requires
        0 <= i < flags.len(),
    ensures
        enabled_indices(flags.subrange(0, i + 1)) == if flags[i] {
            enabled_indices(flags.subrange(0, i)).push(i as u8)
        } else {
            enabled_indices(flags.subrange(0, i))
        },
{
    assert(flags.subrange(0, i + 1).drop_last() =~= flags.subrange(0, i));
}

/// The flags of a configuration with nothing enabled.
pub open spec fn no_controllers() -> Seq<bool> {
    Seq::new(130, |i: int| false)
}

/// Static configuration for MIDI CC emulation: one enabled flag per
/// controller slot.
#[derive(Debug, Clone, Copy, PartialEq, Eq)]
pub struct MidiCcConfig {
    enabled: [bool; 130],
}

impl View for MidiCcConfig {
    type V = Seq<bool>;

    closed spec fn view(&self) -> Seq<bool> {
        self.enabled@
    }
}

impl MidiCcConfig {
    /// Every configuration holds one flag per controller slot (130 slots).
    pub proof fn lemma_slot_count(&self)
        ensures
            self@.len() == 130,
    {
    }

    /// A configuration with no controllers enabled.
    pub fn new() -> (c: Self)
        ensures
            c@ == no_controllers(),
    {
        let c = MidiCcConfig { enabled: [false; 130] };
        assert(c@ =~= no_controllers());
        c
    }

    /// Enable pitch bend (controller 129).
    pub fn with_pitch_bend(self) -> (c: Self)
        ensures
            c@ == self@.update(PITCH_BEND as int, true),
            c@.len() == 130,
            forall|j: int| 0 <= j < 130 ==> #[trigger] c@[j] == (self@[j] || j == PITCH_BEND),
    {
        let mut c = self;
        c.enabled[PITCH_BEND as usize] = true;
        c
    }

    /// Enable channel aftertouch (controller 128).
    pub fn with_aftertouch(self) -> (c: Self)
        ensures
            c@ == self@.update(AFTERTOUCH as int, true),
            c@.len() == 130,
            forall|j: int| 0 <= j < 130 ==> #[trigger] c@[j] == (self@[j] || j == AFTERTOUCH),
    {
        let mut c = self;
        c.enabled[AFTERTOUCH as usize] = true;
        c
    }

    /// Enable the mod wheel (CC 1).
    pub fn with_mod_wheel(self) -> (c: Self)
        ensures
            c@ == self@.update(MOD_WHEEL as int, true),
            c@.len() == 130,
            forall|j: int| 0 <= j < 130 ==> #[trigger] c@[j] == (self@[j] || j == MOD_WHEEL),
    {
        let mut c = self;
        c.enabled[MOD_WHEEL as usize] = true;
        c
    }

    /// Enable one standard MIDI CC (0-127).
    pub fn with_cc(self, cc: u8) -> (c: Self)
        requires
            cc < 128,
        ensures
            c@ == self@.update(cc as int, true),
            c@.len() == 130,
            forall|j: int| 0 <= j < 130 ==> #[trigger] c@[j] == (self@[j] || j == cc),
    {
        let mut c = self;
        c.enabled[cc as usize] = true;
        c
    }

    /// Enable several standard MIDI CCs (each 0-127).
    pub fn with_ccs(self, ccs: &[u8]) -> (c: Self)
        requires
            forall|i: int| 0 <= i < ccs@.len() ==> ccs@[i] < 128,
        ensures
            c@.len() == 130,
            forall|j: int| 0 <= j < 130 ==> c@[j] == (self@[j] || ccs@.contains(j as u8)),
    {
        let mut c = self;
        let mut i: usize = 0;
        while i < ccs.len()
            invariant
                i <= ccs@.len(),
                forall|k: int| 0 <= k < ccs@.len() ==> ccs@[k] < 128,
                c@.len() == 130,
                forall|j: int| 0 <= j < 130 ==> c@[j] == (self@[j] || ccs@.subrange(0, i as int).contains(j as u8)),
            decreases ccs@.len() - i,
        {
            let cc = ccs[i];
            let ghost before = c@;
            c.enabled[cc as usize] = true;
            proof {
                let pre = ccs@.subrange(0, i as int);
                let post = ccs@.subrange(0, i + 1);
                assert(post =~= pre.push(cc));
                assert(c@ == before.update(cc as int, true));
                assert forall|j: int| 0 <= j < 130 implies c@[j] == (self@[j] || post.contains(j as u8)) by {
                    if pre.contains(j as u8) {
                        let k = choose|k: int| 0 <= k < pre.len() && pre[k] == j as u8;
                        assert(post[k] == j as u8);
                    }
                    if j == cc as int {
                        assert(post[i as int] == j as u8);
                    }
                    if post.contains(j as u8) && !pre.contains(j as u8) {
                        let k = choose|k: int| 0 <= k < post.len() && post[k] == j as u8;
                        if k < i {
                            assert(pre[k] == j as u8);
                        } else {
                            assert(j as u8 == cc);
                        }
                    }
                }
            }
            i += 1;
        }
        proof {
            assert(ccs@.subrange(0, ccs@.len() as int) =~= ccs@);
        }
        c
    }

    /// Enable all standard MIDI CCs (0-127).
    pub fn with_all_ccs(self) -> (c: Self)
        ensures
            c@.len() == 130,
            forall|j: int| 0 <= j < 130 ==> c@[j] == (j < 128 || self@[j]),
    {
        let mut c = self;
        let mut cc: usize = 0;
        while cc < 128
            invariant
                cc <= 128,
                c@.len() == 130,
                forall|j: int| 0 <= j < 130 ==> c@[j] == (j < cc || self@[j]),
            decreases 128 - cc,
        {
            c.enabled[cc] = true;
            cc += 1;
        }
        c
    }

    /// Whether a controller is enabled; controller numbers of 130 and
    /// above are never enabled.
    pub fn is_enabled(&self, controller: u8) -> (r: bool)
        ensures
            r == (controller < 130 && self@[controller as int]),
    {
        let idx = controller as usize;
        if idx < MAX_CC_CONTROLLER {
            self.enabled[idx]
        } else {
            false
        }
    }

    /// Whether pitch bend is enabled.
    pub fn has_pitch_bend(&self) -> (r: bool)
        ensures
            r == self@[PITCH_BEND as int],
    {
        self.enabled[PITCH_BEND as usize]
    }

    /// Whether aftertouch is enabled.
    pub fn has_aftertouch(&self) -> (r: bool)
        ensures
            r == self@[AFTERTOUCH as int],
    {
        self.enabled[AFTERTOUCH as usize]
    }

    /// Whether the mod wheel (CC 1) is enabled.
    pub fn has_mod_wheel(&self) -> (r: bool)
        ensures
            r == self@[MOD_WHEEL as int],
    {
        self.enabled[MOD_WHEEL as usize]
    }

    /// The number of enabled controllers.
    pub fn enabled_count(&self) -> (r: usize)
        ensures
            r == count_enabled(self@),
    {
        let mut count: usize = 0;
        let mut i: usize = 0;
        while i < MAX_CC_CONTROLLER
            invariant
                i <= 130,
                self.enabled@.len() == 130,
                count == count_enabled(self.enabled@.subrange(0, i as int)),
                count <= i,
            decreases 130 - i,
        {
            proof {
                lemma_enabled_indices_push(self.enabled@, i as int);
            }
            if self.enabled[i] {
                count += 1;
            }
            i += 1;
        }
        proof {
            assert(self.enabled@.subrange(0, 130) =~= self.enabled@);
        }
        count
    }

    /// The enabled flags, one per controller slot.
    pub fn enabled_flags(&self) -> (r: &[bool; 130])
        ensures
            r@ == self@,
    {
        &self.enabled
    }

    /// Basic synth configuration: pitch bend, mod wheel, volume (CC 7),
    /// expression (CC 11) and sustain (CC 64).
    pub fn synth_basic() -> (c: Self)
        ensures
            c@ == no_controllers().update(PITCH_BEND as int, true).update(MOD_WHEEL as int, true).update(
                7,
                true,
            ).update(11, true).update(64, true),
    {
        Self::new().with_pitch_bend().with_mod_wheel().with_cc(7).with_cc(11).with_cc(64)
    }

    /// Full synth configuration: the basic one plus aftertouch, breath
    /// (CC 2) and pan (CC 10).
    pub fn synth_full() -> (c: Self)
        ensures
            c@ == no_controllers().update(PITCH_BEND as int, true).update(AFTERTOUCH as int, true).update(
                MOD_WHEEL as int,
                true,
            ).update(2, true).update(7, true).update(10, true).update(11, true).update(64, true),
    {
        Self::new().with_pitch_bend().with_aftertouch().with_mod_wheel().with_cc(2).with_cc(7).with_cc(
            10,
        ).with_cc(11).with_cc(64)
    }

    /// Basic effect configuration: mod wheel and expression (CC 11).
    pub fn effect_basic() -> (c: Self)
        ensures
            c@ == no_controllers().update(MOD_WHEEL as int, true).update(11, true),
    {
        Self::new().with_mod_wheel().with_cc(11)
    }
}

impl Default for MidiCcConfig {
    fn default() -> (c: Self)
        ensures
            c@ == no_controllers(),
    {
        Self::new()
    }
}

} // verus!

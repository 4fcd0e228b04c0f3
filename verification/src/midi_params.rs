//! Hidden MIDI CC parameters configured with a builder: each enabled
//! controller becomes a hidden host parameter, listed in the order in which
//! the controllers were enabled.

use vstd::prelude::*;
use crate::midi_cc_config::{MAX_CC_CONTROLLER, AFTERTOUCH, PITCH_BEND, MOD_WHEEL};
use crate::midi_cc_state::{
    cc_param_id, is_cc_param_id, cc_param_id_to_controller, cc_parameter_info, is_cc_param_info,
    spec_param_id, spec_is_midi_cc_param, CcParamInfo, MIDI_CC_PARAM_BASE,
};
use crate::parameters::{ParameterInfo, Units};

verus! {

/// The abstract state of a [`MidiCcParams`]: the enabled flags and the
/// controllers in the order they were enabled.
pub struct MidiCcParamsModel {
    /// Enabled flag per controller slot (130 slots).
    pub enabled: Seq<bool>,
    /// Enabled controllers in enabling order.
    pub order: Seq<u8>,
}

/// The model after enabling a controller: a controller below 130 that is
/// not yet enabled is flagged and appended to the order; anything else
/// leaves the model unchanged.
pub open spec fn enable_spec(m: MidiCcParamsModel, controller: u8) -> MidiCcParamsModel {
    if controller < 130 && !m.enabled[controller as int] {
        MidiCcParamsModel { enabled: m.enabled.update(controller as int, true), order: m.order.push(controller) }
    } else {
        m
    }
}

/// The model after enabling each standard CC (below 128) of a list in turn;
/// other numbers in the list are skipped.
pub open spec fn enable_ccs_spec(m: MidiCcParamsModel, ccs: Seq<u8>) -> MidiCcParamsModel
    decreases ccs.len(),
{
    if ccs.len() == 0 {
        m
    } else {
        let prev = enable_ccs_spec(m, ccs.drop_last());
        if ccs.last() < 128 {
            enable_spec(prev, ccs.last())
        } else {
            prev
        }
    }
}

/// The standard CC numbers 0-127 in increasing order.
pub open spec fn all_standard_ccs() -> Seq<u8> {
    Seq::new(128, |i: int| i as u8)
}

/// A well-formed model: 130 slots, the order lists distinct controllers
/// below 130, and a controller is enabled exactly when it is in the order.
pub open spec fn model_wf(m: MidiCcParamsModel) -> bool {
    &&& m.enabled.len() == 130
    &&& m.order.len() <= 130
    &&& forall|k: int| 0 <= k < m.order.len() ==> #[trigger] m.order[k] < 130
    &&& forall|k1: int, k2: int| 0 <= k1 < k2 < m.order.len() ==> m.order[k1] != m.order[k2]
    &&& forall|c: int| 0 <= c < 130 ==> (m.enabled[c] <==> m.order.contains(c as u8))
}

/// Enabling a controller keeps a model well formed.
pub proof fn lemma_enable_wf(m: MidiCcParamsModel, controller: u8)
    requires
        model_wf(m),
    ensures
        model_wf(enable_spec(m, controller)),
{
    if controller < 130 && !m.enabled[controller as int] {
        let m2 = enable_spec(m, controller);
        assert(!m.order.contains(controller));
        assert forall|c: int| 0 <= c < 130 implies (m2.enabled[c] <==> m2.order.contains(c as u8)) by {
            if m.order.contains(c as u8) {
                let k = choose|k: int| 0 <= k < m.order.len() && m.order[k] == c as u8;
                assert(m2.order[k] == c as u8);
            }
            if c == controller as int {
                assert(m2.order[m.order.len() as int] == c as u8);
            }
            if m2.order.contains(c as u8) {
                let k = choose|k: int| 0 <= k < m2.order.len() && m2.order[k] == c as u8;
                if k < m.order.len() {
                    assert(m.order[k] == c as u8);
                }
            }
        }
        if m.order.len() == 130 {
            lemma_full_order_contains_all(m);
            assert(m.order.contains(controller));
        }
    }
}

/// A well-formed model whose order lists 130 controllers has every
/// controller enabled.
proof fn lemma_full_order_contains_all(m: MidiCcParamsModel)
    requires
        model_wf(m),
        m.order.len() == 130,
    ensures
        forall|c: u8| c < 130 ==> #[trigger] m.order.contains(c),
{
    let s = m.order.to_set();
    assert(m.order.no_duplicates());
    m.order.unique_seq_to_set();
    vstd::seq_lib::seq_to_set_is_finite(m.order);
    let f = |i: int| i as u8;
    let range = vstd::set_lib::set_int_range(0, 130);
    let full = range.map(f);
    vstd::set_lib::lemma_int_range(0, 130);
    assert(vstd::relations::injective_on(f, range)) by {
        assert forall|x: int, y: int| range.contains(x) && range.contains(y) && #[trigger] f(x) == #[trigger] f(y)
            implies x == y by {
            assert(0 <= x < 130 && 0 <= y < 130);
        }
    }
    vstd::set_lib::lemma_map_size(range, full, f);
    assert(s.subset_of(full)) by {
        assert forall|c: u8| s.contains(c) implies full.contains(c) by {
            let k = choose|k: int| 0 <= k < m.order.len() && m.order[k] == c;
            assert(m.order[k] < 130);
            assert(range.contains(c as int));
            assert(f(c as int) == c);
        }
    }
    vstd::set_lib::lemma_subset_equality(s, full);
    assert forall|c: u8| c < 130 implies #[trigger] m.order.contains(c) by {
        assert(range.contains(c as int));
        assert(full.contains(f(c as int)));
        assert(s.contains(c));
    }
}

/// Hidden parameters for MIDI CC emulation, configured with a builder.
#[derive(Debug)]
pub struct MidiCcParams {
    enabled: [bool; 130],
    param_infos: Vec<CcParamInfo>,
    enabled_count: usize,
}

impl View for MidiCcParams {
    type V = MidiCcParamsModel;

    closed spec fn view(&self) -> MidiCcParamsModel {
        MidiCcParamsModel {
            enabled: self.enabled@,
            order: self.param_infos@.map_values(|p: CcParamInfo| p.controller),
        }
    }
}

impl MidiCcParams {
    #[verifier::type_invariant]
    spec fn inv(self) -> bool {
        &&& model_wf(self@)
        &&& self.enabled_count == self.param_infos@.len()
        &&& forall|k: int|
            0 <= k < self.param_infos@.len() ==> is_cc_param_info(
                #[trigger] self.param_infos@[k].info,
                self.param_infos@[k].controller,
            )
    }

    /// Parameters with no controllers enabled.
    pub fn new() -> (p: Self)
        ensures
            model_wf(p@),
            p@.enabled == Seq::new(130, |i: int| false),
            p@.order == Seq::<u8>::empty(),
    {
        let p = MidiCcParams { enabled: [false; 130], param_infos: Vec::new(), enabled_count: 0 };
        assert(p@.enabled =~= Seq::new(130, |i: int| false));
        assert(p@.order =~= Seq::<u8>::empty());
        p
    }

    fn enable_controller(&mut self, controller: u8)
        ensures
            model_wf(old(self)@),
            model_wf(final(self)@),
            final(self)@ == enable_spec(old(self)@, controller),
    {
        proof {
            use_type_invariant(&*self);
            lemma_enable_wf(self@, controller);
        }
        let idx = controller as usize;
        if idx < MAX_CC_CONTROLLER && !self.enabled[idx] {
            let info = cc_parameter_info(controller);
            let mut taken = MidiCcParams::new();
            std::mem::swap(&mut taken, self);
            let ghost old_infos = taken.param_infos@;
            let MidiCcParams { enabled: mut enabled, param_infos: mut param_infos, enabled_count } = taken;
            enabled[idx] = true;
            param_infos.push(CcParamInfo { controller, info });
            proof {
                assert(param_infos@.map_values(|p: CcParamInfo| p.controller) =~= old_infos.map_values(
                    |p: CcParamInfo| p.controller,
                ).push(controller));
            }
            *self = MidiCcParams { enabled, param_infos, enabled_count: enabled_count + 1 };
        }
    }

    /// Enable pitch bend (controller 129).
    pub fn with_pitch_bend(self) -> (p: Self)
        ensures
            model_wf(self@),
            model_wf(p@),
            p@ == enable_spec(self@, PITCH_BEND),
    {
        proof {
            use_type_invariant(&self);
        }
        let mut p = self;
        p.enable_controller(PITCH_BEND);
        p
    }

    /// Enable channel aftertouch (controller 128).
    pub fn with_aftertouch(self) -> (p: Self)
        ensures
            model_wf(self@),
            model_wf(p@),
            p@ == enable_spec(self@, AFTERTOUCH),
    {
        proof {
            use_type_invariant(&self);
        }
        let mut p = self;
        p.enable_controller(AFTERTOUCH);
        p
    }

    /// Enable the mod wheel (CC 1).
    pub fn with_mod_wheel(self) -> (p: Self)
        ensures
            model_wf(self@),
            model_wf(p@),
            p@ == enable_spec(self@, MOD_WHEEL),
    {
        proof {
            use_type_invariant(&self);
        }
        let mut p = self;
        p.enable_controller(MOD_WHEEL);
        p
    }

    /// Enable a standard MIDI CC; numbers of 128 and above are ignored.
    pub fn with_cc(self, cc: u8) -> (p: Self)
        ensures
            model_wf(self@),
            model_wf(p@),
            p@ == if cc < 128 { enable_spec(self@, cc) } else { self@ },
    {
        proof {
            use_type_invariant(&self);
        }
        let mut p = self;
        if cc < 128 {
            p.enable_controller(cc);
        }
        p
    }

    /// Enable several standard MIDI CCs in order; numbers of 128 and above
    /// are ignored.
    pub fn with_ccs(self, ccs: &[u8]) -> (p: Self)
        ensures
            model_wf(self@),
            model_wf(p@),
            p@ == enable_ccs_spec(self@, ccs@),
    {
        proof {
            use_type_invariant(&self);
        }
        let mut p = self;
        let mut i: usize = 0;
        while i < ccs.len()
            invariant
                i <= ccs@.len(),
                p@ == enable_ccs_spec(self@, ccs@.subrange(0, i as int)),
            decreases ccs@.len() - i,
        {
            proof {
                assert(ccs@.subrange(0, i + 1).drop_last() =~= ccs@.subrange(0, i as int));
            }
            let cc = ccs[i];
            if cc < 128 {
                p.enable_controller(cc);
            }
            i += 1;
        }
        proof {
            assert(ccs@.subrange(0, ccs@.len() as int) =~= ccs@);
            use_type_invariant(&p);
        }
        p
    }

    /// Enable all standard MIDI CCs, 0 through 127, in increasing order.
    pub fn with_all_ccs(self) -> (p: Self)
        ensures
            model_wf(self@),
            model_wf(p@),
            p@ == enable_ccs_spec(self@, all_standard_ccs()),
    {
        proof {
            use_type_invariant(&self);
        }
        let mut p = self;
        let mut cc: u8 = 0;
        while cc < 128
            invariant
                cc <= 128,
                p@ == enable_ccs_spec(self@, all_standard_ccs().subrange(0, cc as int)),
            decreases 128 - cc,
        {
            proof {
                assert(all_standard_ccs().subrange(0, cc + 1).drop_last() =~= all_standard_ccs().subrange(
                    0,
                    cc as int,
                ));
            }
            p.enable_controller(cc);
            cc += 1;
        }
        proof {
            assert(all_standard_ccs().subrange(0, 128) =~= all_standard_ccs());
            use_type_invariant(&p);
        }
        p
    }

    /// Whether a controller is enabled; numbers of 130 and above never are.
    pub fn has_controller(&self, controller: u8) -> (r: bool)
        ensures
            model_wf(self@),
            r == (controller < 130 && self@.enabled[controller as int]),
    {
        proof {
            use_type_invariant(self);
        }
        if (controller as usize) < MAX_CC_CONTROLLER {
            self.enabled[controller as usize]
        } else {
            false
        }
    }

    /// Whether pitch bend is enabled.
    pub fn has_pitch_bend(&self) -> (r: bool)
        ensures
            model_wf(self@),
            r == self@.enabled[PITCH_BEND as int],
    {
        proof {
            use_type_invariant(self);
        }
        self.has_controller(PITCH_BEND)
    }

    /// Whether aftertouch is enabled.
    pub fn has_aftertouch(&self) -> (r: bool)
        ensures
            model_wf(self@),
            r == self@.enabled[AFTERTOUCH as int],
    {
        proof {
            use_type_invariant(self);
        }
        self.has_controller(AFTERTOUCH)
    }

    /// The number of enabled controllers.
    pub fn enabled_count(&self) -> (r: usize)
        ensures
            model_wf(self@),
            r == self@.order.len(),
    {
        proof {
            use_type_invariant(self);
        }
        self.enabled_count
    }

    /// The enabled controllers in enabling order.
    pub fn enabled_controllers(&self) -> (r: Vec<u8>)
        ensures
            model_wf(self@),
            r@ == self@.order,
    {
        proof {
            use_type_invariant(self);
        }
        let mut r: Vec<u8> = Vec::new();
        let mut k: usize = 0;
        while k < self.param_infos.len()
            invariant
                k <= self.param_infos@.len(),
                r@ == self.param_infos@.subrange(0, k as int).map_values(|p: CcParamInfo| p.controller),
            decreases self.param_infos@.len() - k,
        {
            r.push(self.param_infos[k].controller);
            proof {
                assert(self.param_infos@.subrange(0, k + 1).map_values(|p: CcParamInfo| p.controller)
                    =~= self.param_infos@.subrange(0, k as int).map_values(|p: CcParamInfo| p.controller).push(
                    self.param_infos@[k as int].controller,
                ));
            }
            k += 1;
        }
        proof {
            assert(self.param_infos@.subrange(0, self.param_infos@.len() as int) =~= self.param_infos@);
        }
        r
    }

    /// The hidden parameter at `index`, describing the `index`-th enabled
    /// controller in enabling order.
    pub fn info(&self, index: usize) -> (r: Option<&ParameterInfo>)
        ensures
            model_wf(self@),
            index < self@.order.len() ==> (r matches Some(info) && is_cc_param_info(
                *info,
                self@.order[index as int],
            )),
            index >= self@.order.len() ==> r is None,
    {
        proof {
            use_type_invariant(self);
        }
        if index < self.param_infos.len() {
            assert(is_cc_param_info(self.param_infos@[index as int].info, self.param_infos@[index as int].controller));
            Some(&self.param_infos[index].info)
        } else {
            None
        }
    }

    /// The parameter ID of a controller.
    pub fn param_id(controller: u8) -> (r: u32)
        ensures
            r == spec_param_id(controller),
    {
        cc_param_id(controller)
    }

    /// Whether a parameter ID belongs to MIDI CC emulation.
    pub fn is_midi_cc_param(param_id: u32) -> (r: bool)
        ensures
            r == spec_is_midi_cc_param(param_id),
    {
        is_cc_param_id(param_id)
    }

    /// The controller number of a MIDI CC parameter ID.
    pub fn param_id_to_controller(param_id: u32) -> (r: Option<u8>)
        ensures
            spec_is_midi_cc_param(param_id) ==> r == Some((param_id - MIDI_CC_PARAM_BASE) as u8),
            !spec_is_midi_cc_param(param_id) ==> r is None,
    {
        cc_param_id_to_controller(param_id)
    }

    /// The hidden parameter info for a controller.
    pub fn create_param_info(&self, controller: u8) -> (info: ParameterInfo)
        ensures
            is_cc_param_info(info, controller),
    {
        cc_parameter_info(controller)
    }
}

impl Default for MidiCcParams {
    fn default() -> (p: Self)
        ensures
            p@.enabled == Seq::new(130, |i: int| false),
            p@.order == Seq::<u8>::empty(),
    {
        Self::new()
    }
}

impl Units for MidiCcParams {

}

/// Enabling a controller twice is the same as enabling it once, and the
/// count of enabled controllers never exceeds the 130 slots: the builder
/// lists every enabled controller exactly once.
pub proof fn lemma_enable_idempotent(m: MidiCcParamsModel, controller: u8)
    requires
        model_wf(m),
    ensures
        enable_spec(enable_spec(m, controller), controller) == enable_spec(m, controller),
        enable_spec(m, controller).order.len() <= 130,
        controller < 130 ==> enable_spec(m, controller).enabled[controller as int],
{
    lemma_enable_wf(m, controller);
}

/// Enabling a controller below 130 in a well-formed model sets its flag,
/// appends it to the order exactly when it was not yet enabled, and leaves
/// every other flag and the earlier order as they were.
pub proof fn lemma_enable_effect(m: MidiCcParamsModel, controller: u8)
    requires
        model_wf(m),
        controller < 130,
    ensures
        model_wf(enable_spec(m, controller)),
        enable_spec(m, controller).enabled[controller as int],
        enable_spec(m, controller).order.len() == m.order.len() + (if m.enabled[controller as int] {
            0int
        } else {
            1int
        }),
        enable_spec(m, controller).order.subrange(0, m.order.len() as int) == m.order,
        forall|c: int|
            0 <= c < 130 && c != controller ==> #[trigger] enable_spec(m, controller).enabled[c] == m.enabled[c],
{
    lemma_enable_wf(m, controller);
    assert(enable_spec(m, controller).order.subrange(0, m.order.len() as int) =~= m.order);
}

} // verus!

//! Runtime bookkeeping for MIDI CC emulation: the hidden host parameters
//! created for each enabled controller of a [`MidiCcConfig`].
//!
//! Each enabled controller `c` is exposed as a hidden, automatable
//! parameter with ID `MIDI_CC_PARAM_BASE + c`.

use vstd::prelude::*;
use crate::midi_cc_config::{
    MidiCcConfig, MAX_CC_CONTROLLER, AFTERTOUCH, PITCH_BEND, enabled_indices, count_enabled,
    lemma_enabled_indices, lemma_enabled_indices_push,
};
use crate::parameters::{
    ParameterFlags, ParameterInfo, Units, ROOT_UNIT_ID, NORMALIZED_HALF_BITS, NORMALIZED_ZERO_BITS,
};

verus! {

/// Base parameter ID for MIDI CC emulation parameters.
pub const MIDI_CC_PARAM_BASE: u32 = 0x10000000;

/// The parameter ID of a controller.
pub open spec fn spec_param_id(controller: u8) -> u32 {
    (MIDI_CC_PARAM_BASE + controller) as u32
}

/// Whether a parameter ID belongs to MIDI CC emulation.
pub open spec fn spec_is_midi_cc_param(param_id: u32) -> bool {
    MIDI_CC_PARAM_BASE <= param_id < MIDI_CC_PARAM_BASE + 130
}

/// Display name and short name of a controller's hidden parameter.
pub open spec fn cc_param_names(controller: u8) -> (Seq<char>, Seq<char>) {
    if controller == PITCH_BEND {
        ("Pitch Bend"@, "PB"@)
    } else if controller == AFTERTOUCH {
        ("Aftertouch"@, "AT"@)
    } else if controller == 1 {
        ("Mod Wheel"@, "MW"@)
    } else if controller == 2 {
        ("Breath Controller"@, "BC"@)
    } else if controller == 7 {
        ("Volume"@, "Vol"@)
    } else if controller == 10 {
        ("Pan"@, "Pan"@)
    } else if controller == 11 {
        ("Expression"@, "Exp"@)
    } else if controller == 64 {
        ("Sustain Pedal"@, "Sus"@)
    } else {
        ("MIDI CC"@, "CC"@)
    }
}

/// The flags of a hidden controller parameter: automatable and hidden.
pub open spec fn cc_param_flags() -> ParameterFlags {
    ParameterFlags { can_automate: true, is_readonly: false, is_bypass: false, is_list: false, is_hidden: true }
}

/// `info` describes the hidden parameter of `controller`: its ID, names, no
/// units, default 0.5 for pitch bend (centre) and 0.0 otherwise,
/// continuous, hidden and automatable, in the root unit.
pub open spec fn is_cc_param_info(info: ParameterInfo, controller: u8) -> bool {
    &&& info.id == spec_param_id(controller)
    &&& info.name@ == cc_param_names(controller).0
    &&& info.short_name@ == cc_param_names(controller).1
    &&& info.units@ == ""@
    &&& info.default_normalized_bits == (if controller == PITCH_BEND {
        NORMALIZED_HALF_BITS
    } else {
        NORMALIZED_ZERO_BITS
    })
    &&& info.step_count == 0
    &&& info.flags == cc_param_flags()
    &&& info.unit_id == ROOT_UNIT_ID
}

/// The parameter ID of a controller: `MIDI_CC_PARAM_BASE + controller`.
pub fn cc_param_id(controller: u8) -> (r: u32)
    ensures
        r == spec_param_id(controller),
{
    MIDI_CC_PARAM_BASE + controller as u32
}

/// Whether a parameter ID belongs to MIDI CC emulation.
pub fn is_cc_param_id(param_id: u32) -> (r: bool)
    ensures
        r == spec_is_midi_cc_param(param_id),
{
    param_id >= MIDI_CC_PARAM_BASE && param_id < MIDI_CC_PARAM_BASE + MAX_CC_CONTROLLER as u32
}

/// The controller number of a MIDI CC parameter ID, `None` for other IDs.
pub fn cc_param_id_to_controller(param_id: u32) -> (r: Option<u8>)
    ensures
        spec_is_midi_cc_param(param_id) ==> r == Some((param_id - MIDI_CC_PARAM_BASE) as u8),
        !spec_is_midi_cc_param(param_id) ==> r is None,
{
    if is_cc_param_id(param_id) {
        Some((param_id - MIDI_CC_PARAM_BASE) as u8)
    } else {
        None
    }
}

/// The hidden parameter info for a controller.
pub fn cc_parameter_info(controller: u8) -> (info: ParameterInfo)
    ensures
        is_cc_param_info(info, controller),
{
    let id = cc_param_id(controller);
    let (name, short_name): (&'static str, &'static str) = if controller == PITCH_BEND {
        ("Pitch Bend", "PB")
    } else if controller == AFTERTOUCH {
        ("Aftertouch", "AT")
    } else if controller == 1 {
        ("Mod Wheel", "MW")
    } else if controller == 2 {
        ("Breath Controller", "BC")
    } else if controller == 7 {
        ("Volume", "Vol")
    } else if controller == 10 {
        ("Pan", "Pan")
    } else if controller == 11 {
        ("Expression", "Exp")
    } else if controller == 64 {
        ("Sustain Pedal", "Sus")
    } else {
        ("MIDI CC", "CC")
    };
    let default_bits: u64 = if controller == PITCH_BEND {
        NORMALIZED_HALF_BITS
    } else {
        NORMALIZED_ZERO_BITS
    };
    ParameterInfo {
        id,
        name,
        short_name,
        units: "",
        default_normalized_bits: default_bits,
        step_count: 0,
        flags: ParameterFlags {
            can_automate: true,
            is_readonly: false,
            is_bypass: false,
            is_list: false,
            is_hidden: true,
        },
        unit_id: ROOT_UNIT_ID,
    }
}

/// One enabled controller and its hidden parameter.
#[derive(Debug, Clone, Copy)]
pub struct CcParamInfo {
    /// Controller number.
    pub controller: u8,
    /// Hidden parameter metadata.
    pub info: ParameterInfo,
}

/// Runtime MIDI CC emulation state built from a [`MidiCcConfig`].
///
/// Holds the enabled flags and the hidden parameter of every enabled
/// controller, in increasing controller order.
#[derive(Debug)]
pub struct MidiCcState {
    enabled: [bool; 130],
    param_infos: Vec<CcParamInfo>,
    enabled_count: usize,
}

impl View for MidiCcState {
    type V = Seq<bool>;

    closed spec fn view(&self) -> Seq<bool> {
        self.enabled@
    }
}

impl MidiCcState {
    #[verifier::type_invariant]
    spec fn wf(self) -> bool {
        &&& self.enabled@.len() == 130
        &&& self.param_infos@.len() == self.enabled_count
        &&& self.enabled_count == count_enabled(self.enabled@)
        &&& forall|k: int|
            0 <= k < self.param_infos@.len() ==> {
                &&& #[trigger] self.param_infos@[k].controller == enabled_indices(self.enabled@)[k]
                &&& is_cc_param_info(self.param_infos@[k].info, self.param_infos@[k].controller)
            }
    }

    /// Build the state from a configuration: the same enabled flags, and one
    /// hidden parameter per enabled controller in increasing order.
    pub fn from_config(config: &MidiCcConfig) -> (s: Self)
        ensures
            s@.len() == 130,
            s@ == config@,
    {
        let enabled: [bool; 130] = *config.enabled_flags();
        let mut param_infos: Vec<CcParamInfo> = Vec::new();
        let mut enabled_count: usize = 0;
        let mut i: usize = 0;
        while i < MAX_CC_CONTROLLER
            invariant
                i <= 130,
                enabled@.len() == 130,
                enabled_count == param_infos@.len(),
                enabled_count <= i,
                param_infos@.len() == count_enabled(enabled@.subrange(0, i as int)),
                forall|k: int|
                    0 <= k < param_infos@.len() ==> {
                        &&& #[trigger] param_infos@[k].controller == enabled_indices(enabled@.subrange(0, i as int))[k]
                        &&& is_cc_param_info(param_infos@[k].info, param_infos@[k].controller)
                    },
            decreases 130 - i,
        {
            proof {
                lemma_enabled_indices_push(enabled@, i as int);
            }
            if enabled[i] {
                enabled_count += 1;
                let controller = i as u8;
                let info = cc_parameter_info(controller);
                param_infos.push(CcParamInfo { controller, info });
            }
            i += 1;
        }
        proof {
            assert(enabled@.subrange(0, 130) =~= enabled@);
        }
        MidiCcState { enabled, param_infos, enabled_count }
    }

    /// Every state holds one enabled flag per controller slot (130 slots).
    pub proof fn lemma_slot_count(&self)
        ensures
            self@.len() == 130,
    {
    }

    /// Whether a controller is enabled; numbers of 130 and above never are.
    pub fn has_controller(&self, controller: u8) -> (r: bool)
        ensures
            self@.len() == 130,
            r == (controller < 130 && self@[controller as int]),
    {
        proof {
            use_type_invariant(self);
        }
        if (controller as usize) < MAX_CC_CONTROLLER {
            self.enabled[controller as usize]
        } else {
            false
        }
    }

    /// Whether pitch bend is enabled.
    pub fn has_pitch_bend(&self) -> (r: bool)
        ensures
            self@.len() == 130,
            r == self@[PITCH_BEND as int],
    {
        proof {
            use_type_invariant(self);
        }
        self.enabled[PITCH_BEND as usize]
    }

    /// Whether aftertouch is enabled.
    pub fn has_aftertouch(&self) -> (r: bool)
        ensures
            self@.len() == 130,
            r == self@[AFTERTOUCH as int],
    {
        proof {
            use_type_invariant(self);
        }
        self.enabled[AFTERTOUCH as usize]
    }

    /// The number of enabled controllers.
    pub fn enabled_count(&self) -> (r: usize)
        ensures
            self@.len() == 130,
            r == count_enabled(self@),
    {
        proof {
            use_type_invariant(self);
        }
        self.enabled_count
    }

    /// The enabled controller numbers in increasing order.
    pub fn enabled_controllers(&self) -> (r: Vec<u8>)
        ensures
            self@.len() == 130,
            r@ == enabled_indices(self@),
    {
        proof {
            use_type_invariant(self);
        }
        let mut r: Vec<u8> = Vec::new();
        let mut k: usize = 0;
        while k < self.param_infos.len()
            invariant
                k <= self.param_infos@.len(),
                self.param_infos@.len() == enabled_indices(self.enabled@).len(),
                r@.len() == k,
                forall|j: int| 0 <= j < self.param_infos@.len() ==> #[trigger] self.param_infos@[j].controller
                    == enabled_indices(self.enabled@)[j],
                forall|j: int| 0 <= j < k ==> r@[j] == enabled_indices(self.enabled@)[j],
            decreases self.param_infos@.len() - k,
        {
            r.push(self.param_infos[k].controller);
            k += 1;
        }
        assert(r@ =~= enabled_indices(self.enabled@));
        r
    }

    /// The hidden parameter at `index` (0 to count - 1), describing the
    /// `index`-th enabled controller.
    pub fn info(&self, index: usize) -> (r: Option<&ParameterInfo>)
        ensures
            self@.len() == 130,
            index < count_enabled(self@) ==> (r matches Some(info) && is_cc_param_info(
                *info,
                enabled_indices(self@)[index as int],
            )),
            index >= count_enabled(self@) ==> r is None,
    {
        proof {
            use_type_invariant(self);
        }
        if index < self.param_infos.len() {
            assert(self.param_infos@[index as int].controller == enabled_indices(self.enabled@)[index as int]);
            Some(&self.param_infos[index].info)
        } else {
            None
        }
    }

    /// The parameter ID of a controller.
    pub fn param_id(controller: u8) -> (r: u32)
        ensures
            r == spec_param_id(controller),
    {
        cc_param_id(controller)
    }

    /// Whether a parameter ID belongs to MIDI CC emulation.
    pub fn is_midi_cc_param(param_id: u32) -> (r: bool)
        ensures
            r == spec_is_midi_cc_param(param_id),
    {
        is_cc_param_id(param_id)
    }

    /// The controller number of a MIDI CC parameter ID.
    pub fn param_id_to_controller(param_id: u32) -> (r: Option<u8>)
        ensures
            spec_is_midi_cc_param(param_id) ==> r == Some((param_id - MIDI_CC_PARAM_BASE) as u8),
            !spec_is_midi_cc_param(param_id) ==> r is None,
    {
        cc_param_id_to_controller(param_id)
    }

    /// The hidden parameter info for a controller.
    pub fn create_param_info(controller: u8) -> (info: ParameterInfo)
        ensures
            is_cc_param_info(info, controller),
    {
        cc_parameter_info(controller)
    }
}

impl Units for MidiCcState {

}

/// Every controller slot's parameter ID maps back to that controller, and
/// IDs outside the block are never MIDI CC parameters.
pub proof fn lemma_param_id_roundtrip(controller: u8)
    requires
        controller < 130,
    ensures
        spec_is_midi_cc_param(spec_param_id(controller)),
        (spec_param_id(controller) - MIDI_CC_PARAM_BASE) as u8 == controller,
{
}

/// The hidden parameters of a state are one per enabled controller, with
/// distinct IDs in increasing order.
pub proof fn lemma_state_param_ids_distinct(flags: Seq<bool>)
    requires
        flags.len() == 130,
    ensures
        forall|k1: int, k2: int|
            0 <= k1 < k2 < count_enabled(flags) ==> spec_param_id(enabled_indices(flags)[k1]) < spec_param_id(
                enabled_indices(flags)[k2],
            ),
{
    lemma_enabled_indices(flags);
}


/// Every hidden controller parameter rests at zero by default (0.0: no
/// controller movement, no pressure), except pitch bend (controller 129),
/// which rests at its centre, 0.5.
pub proof fn lemma_cc_defaults(info: ParameterInfo, controller: u8)
    requires
        is_cc_param_info(info, controller),
    ensures
        controller != 129 ==> info.default_normalized_bits == 0u64,
        controller == 129 ==> info.default_normalized_bits == 0x3FE0000000000000u64,
{
}

} // verus!

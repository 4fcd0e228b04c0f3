//! Parameter metadata shared with the host: parameter flags and info, and
//! the unit (parameter group) hierarchy.
//!
//! Normalized default values are carried as the IEEE-754 bit pattern of the
//! `f64` value, so that this metadata can be built and compared exactly.

use vstd::prelude::*;
use crate::text::str_eq;

verus! {

/// VST3 unit (parameter group) identifier.
pub type UnitId = i32;

/// Parameter identifier.
pub type ParameterId = u32;

/// Root unit ID (parameters with no group).
pub const ROOT_UNIT_ID: UnitId = 0;

/// Bit pattern of the `f64` value 0.0.
pub const NORMALIZED_ZERO_BITS: u64 = 0;

/// Bit pattern of the `f64` value 0.5.
pub const NORMALIZED_HALF_BITS: u64 = 0x3FE0000000000000;

/// Information about a parameter group (VST3 unit).
#[derive(Debug, Clone, Copy)]
pub struct UnitInfo {
    /// Unique unit identifier.
    pub id: UnitId,
    /// Display name shown in the DAW.
    pub name: &'static str,
    /// Parent unit ID (ROOT_UNIT_ID for top-level groups).
    pub parent_id: UnitId,
}

impl UnitInfo {
    /// Create a new unit info.
    pub fn new(id: UnitId, name: &'static str, parent_id: UnitId) -> (u: Self)
        ensures
            u.id == id,
            u.name == name,
            u.parent_id == parent_id,
    {
        UnitInfo { id, name, parent_id }
    }

    /// The root unit: id 0, empty name, its own parent.
    pub fn root() -> (u: Self)
        ensures
            u.id == ROOT_UNIT_ID,
            u.name@ == ""@,
            u.parent_id == ROOT_UNIT_ID,
    {
        UnitInfo { id: ROOT_UNIT_ID, name: "", parent_id: ROOT_UNIT_ID }
    }
}

/// Whether `r` is the ID of the first unit of `units` named `name`, or
/// `None` when no unit is.
pub open spec fn is_first_named_unit(units: Seq<UnitInfo>, name: Seq<char>, r: Option<UnitId>) -> bool {
    &&& r is None <==> forall|i: int| 0 <= i < units.len() ==> units[i].name@ != name
    &&& r matches Some(id) ==> exists|i: int|
        0 <= i < units.len() && units[i].name@ == name && units[i].id == id
        && forall|j: int| 0 <= j < i ==> units[j].name@ != name
}

/// The units among a sequence of answers, in order.
pub open spec fn present_units(answers: Seq<Option<UnitInfo>>) -> Seq<UnitInfo>
    decreases answers.len(),
{
    if answers.len() == 0 {
        seq![]
    } else {
        let prev = present_units(answers.drop_last());
        match answers.last() {
            Some(u) => prev.push(u),
            None => prev,
        }
    }
}

/// Find the ID of the first unit in a list whose name is `name`.
pub fn find_unit_id_by_name(units: &[UnitInfo], name: &str) -> (r: Option<UnitId>)
    ensures
        is_first_named_unit(units@, name@, r),
{
    let mut i: usize = 0;
    while i < units.len()
        invariant
            i <= units@.len(),
            forall|j: int| 0 <= j < i ==> units@[j].name@ != name@,
        decreases units@.len() - i,
    {
        if str_eq(units[i].name, name) {
            return Some(units[i].id);
        }
        i += 1;
    }
    None
}

/// The position of the first parameter ID in a list equal to `id`.
pub fn find_parameter_index(ids: &[ParameterId], id: ParameterId) -> (r: Option<usize>)
    ensures
        r is None <==> forall|i: int| 0 <= i < ids@.len() ==> ids@[i] != id,
        r matches Some(k) ==> k < ids@.len() && ids@[k as int] == id && forall|j: int| 0 <= j < k ==> ids@[j] != id,
{
    let mut i: usize = 0;
    while i < ids.len()
        invariant
            i <= ids@.len(),
            forall|j: int| 0 <= j < i ==> ids@[j] != id,
        decreases ids@.len() - i,
    {
        if ids[i] == id {
            return Some(i);
        }
        i += 1;
    }
    None
}

/// Query interface for the unit hierarchy of a parameter collection.
pub trait Units {
    /// Total number of units, including the root unit.
    fn unit_count(&self) -> (r: usize)
        default_ensures
            r == 1,
    {
        1
    }

    /// Unit info by index; index 0 is the root unit.
    fn unit_info(&self, index: usize) -> (r: Option<UnitInfo>)
        default_ensures
            index == 0 ==> (r matches Some(u) && u.id == ROOT_UNIT_ID && u.name@ == ""@ && u.parent_id == ROOT_UNIT_ID),
            index != 0 ==> r is None,
    {
        if index == 0 {
            Some(UnitInfo::root())
        } else {
            None
        }
    }

    /// Find a unit ID by name: the collection is asked for its unit count
    /// and then for the unit at each index below it, and the result is the
    /// ID of the first unit among the answers whose name is `name`.
    fn find_unit_by_name(&self, name: &str) -> (r: Option<UnitId>)
        ensures
            exists|count: usize, answers: Seq<Option<UnitInfo>>|
                #![trigger call_ensures(Self::unit_count, (self,), count), present_units(answers)]
                {
                    &&& call_ensures(Self::unit_count, (self,), count)
                    &&& answers.len() == count
                    &&& forall|i: int|
                        0 <= i < count ==> #[trigger] call_ensures(Self::unit_info, (self, i as usize), answers[i])
                    &&& is_first_named_unit(present_units(answers), name@, r)
                },
    {
        let count = self.unit_count();
        let mut units: Vec<UnitInfo> = Vec::new();
        let ghost mut answers: Seq<Option<UnitInfo>> = seq![];
        let mut i: usize = 0;
        while i < count
            invariant
                i <= count,
                call_ensures(Self::unit_count, (self,), count),
                answers.len() == i,
                forall|k: int| 0 <= k < i ==> #[trigger] call_ensures(Self::unit_info, (self, k as usize), answers[k]),
                units@ == present_units(answers),
            decreases count - i,
        {
            let info = self.unit_info(i);
            proof {
                let prev = answers;
                answers = answers.push(info);
                assert(answers.drop_last() =~= prev);
                assert forall|k: int| 0 <= k < i + 1 implies #[trigger] call_ensures(Self::unit_info, (self, k as usize), answers[k]) by {
                    if k < i {
                        assert(answers[k] == prev[k]);
                    }
                }
            }
            match info {
                Some(u) => units.push(u),
                None => {},
            }
            i += 1;
        }
        let r = find_unit_id_by_name(units.as_slice(), name);
        assert(call_ensures(Self::unit_count, (self,), count) && present_units(answers) == units@);
        r
    }
}

/// Flags controlling parameter behavior.
#[derive(Debug, Clone, Copy, PartialEq, Eq, Structural)]
pub struct ParameterFlags {
    /// Parameter can be automated by the host.
    pub can_automate: bool,
    /// Parameter is read-only (display only).
    pub is_readonly: bool,
    /// Parameter is the bypass switch.
    pub is_bypass: bool,
    /// Parameter is displayed as a dropdown list.
    pub is_list: bool,
    /// Parameter is hidden from the DAW's parameter list.
    pub is_hidden: bool,
}

/// The default flags: automatable, everything else off.
pub open spec fn default_flags() -> ParameterFlags {
    ParameterFlags { can_automate: true, is_readonly: false, is_bypass: false, is_list: false, is_hidden: false }
}

impl Default for ParameterFlags {
    fn default() -> (f: Self)
        ensures
            f == default_flags(),
    {
        ParameterFlags { can_automate: true, is_readonly: false, is_bypass: false, is_list: false, is_hidden: false }
    }
}

/// Metadata describing a single parameter.
#[derive(Debug, Clone, Copy)]
pub struct ParameterInfo {
    /// Unique parameter identifier.
    pub id: ParameterId,
    /// Full parameter name.
    pub name: &'static str,
    /// Short parameter name for constrained UIs.
    pub short_name: &'static str,
    /// Unit label (e.g. "dB", "%", "Hz").
    pub units: &'static str,
    /// Default normalized value (0.0 to 1.0), as the bit pattern of the `f64`.
    pub default_normalized_bits: u64,
    /// Number of discrete steps: 0 = continuous, 1 = toggle, >1 = discrete.
    pub step_count: i32,
    /// Behavioral flags.
    pub flags: ParameterFlags,
    /// Unit (parameter group) the parameter belongs to.
    pub unit_id: UnitId,
}

impl ParameterInfo {
    /// A continuous parameter: short name = name, no units, default 0.5,
    /// default flags, root unit.
    pub fn new(id: ParameterId, name: &'static str) -> (p: Self)
        ensures
            p.id == id,
            p.name == name,
            p.short_name == name,
            p.units@ == ""@,
            p.default_normalized_bits == NORMALIZED_HALF_BITS,
            p.step_count == 0,
            p.flags == default_flags(),
            p.unit_id == ROOT_UNIT_ID,
    {
        ParameterInfo {
            id,
            name,
            short_name: name,
            units: "",
            default_normalized_bits: NORMALIZED_HALF_BITS,
            step_count: 0,
            flags: ParameterFlags::default(),
            unit_id: ROOT_UNIT_ID,
        }
    }

    /// Set the short name.
    pub fn with_short_name(self, short_name: &'static str) -> (p: Self)
        ensures
            p == (ParameterInfo { short_name, ..self }),
    {
        ParameterInfo { short_name, ..self }
    }

    /// Set the unit label.
    pub fn with_units(self, units: &'static str) -> (p: Self)
        ensures
            p == (ParameterInfo { units, ..self }),
    {
        ParameterInfo { units, ..self }
    }

    /// Set the default normalized value (as the bit pattern of the `f64`).
    pub fn with_default(self, default_normalized_bits: u64) -> (p: Self)
        ensures
            p == (ParameterInfo { default_normalized_bits, ..self }),
    {
        ParameterInfo { default_normalized_bits, ..self }
    }

    /// Set the step count.
    pub fn with_steps(self, steps: i32) -> (p: Self)
        ensures
            p == (ParameterInfo { step_count: steps, ..self }),
    {
        ParameterInfo { step_count: steps, ..self }
    }

    /// Set the flags.
    pub fn with_flags(self, flags: ParameterFlags) -> (p: Self)
        ensures
            p == (ParameterInfo { flags, ..self }),
    {
        ParameterInfo { flags, ..self }
    }

    /// A bypass toggle: named "Bypass"/"Byp", toggle (one step), default
    /// 0.0, automatable and flagged as the bypass parameter.
    pub fn bypass(id: ParameterId) -> (p: Self)
        ensures
            p.id == id,
            p.name@ == "Bypass"@,
            p.short_name@ == "Byp"@,
            p.units@ == ""@,
            p.default_normalized_bits == NORMALIZED_ZERO_BITS,
            p.step_count == 1,
            p.flags == (ParameterFlags {
                can_automate: true,
                is_readonly: false,
                is_bypass: true,
                is_list: false,
                is_hidden: false,
            }),
            p.unit_id == ROOT_UNIT_ID,
    {
        ParameterInfo {
            id,
            name: "Bypass",
            short_name: "Byp",
            units: "",
            default_normalized_bits: NORMALIZED_ZERO_BITS,
            step_count: 1,
            flags: ParameterFlags {
                can_automate: true,
                is_readonly: false,
                is_bypass: true,
                is_list: false,
                is_hidden: false,
            },
            unit_id: ROOT_UNIT_ID,
        }
    }

    /// Set the unit ID (parameter group).
    pub fn with_unit(self, unit_id: UnitId) -> (p: Self)
        ensures
            p == (ParameterInfo { unit_id, ..self }),
    {
        ParameterInfo { unit_id, ..self }
    }
}

/// Empty parameter collection for plugins with no parameters.
#[derive(Debug, Clone, Copy, Default)]
pub struct NoParameters;

impl Units for NoParameters {

}

} // verus!

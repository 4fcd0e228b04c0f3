//! Declarative parameter descriptions: parameter kinds and types, and the
//! rule that a kind must suit the parameter type it is written on.

use vstd::prelude::*;
use crate::text::str_eq;
use crate::chars::chars_of;

verus! {

/// Parameter kind, which selects the constructor and the value formatting.
#[derive(Debug, Clone, Copy, PartialEq, Eq, Structural)]
pub enum ParameterKind {
    /// Decibels.
    Db,
    /// Decibels with logarithmic mapping.
    DbLog,
    /// Decibels with offset logarithmic mapping.
    DbLogOffset,
    /// Hertz.
    Hz,
    /// Milliseconds.
    Ms,
    /// Seconds.
    Seconds,
    /// Percent.
    Percent,
    /// Stereo pan.
    Pan,
    /// Compressor ratio.
    Ratio,
    /// Plain linear value.
    Linear,
    /// Semitones (integer parameters).
    Semitones,
}

/// The kind that a kind name denotes, if any.
pub open spec fn kind_named(s: Seq<char>) -> Option<ParameterKind> {
    if s == "db"@ {
        Some(ParameterKind::Db)
    } else if s == "db_log"@ {
        Some(ParameterKind::DbLog)
    } else if s == "db_log_offset"@ {
        Some(ParameterKind::DbLogOffset)
    } else if s == "hz"@ {
        Some(ParameterKind::Hz)
    } else if s == "ms"@ {
        Some(ParameterKind::Ms)
    } else if s == "seconds"@ {
        Some(ParameterKind::Seconds)
    } else if s == "percent"@ {
        Some(ParameterKind::Percent)
    } else if s == "pan"@ {
        Some(ParameterKind::Pan)
    } else if s == "ratio"@ {
        Some(ParameterKind::Ratio)
    } else if s == "linear"@ {
        Some(ParameterKind::Linear)
    } else if s == "semitones"@ {
        Some(ParameterKind::Semitones)
    } else {
        None
    }
}

impl ParameterKind {
    /// Parse a kind from its name (`"db"`, `"hz"`, `"semitones"`, ...).
    pub fn from_str(s: &str) -> (r: Option<Self>)
        ensures
            r == kind_named(s@),
    {
        if str_eq(s, "db") {
            Some(ParameterKind::Db)
        } else if str_eq(s, "db_log") {
            Some(ParameterKind::DbLog)
        } else if str_eq(s, "db_log_offset") {
            Some(ParameterKind::DbLogOffset)
        } else if str_eq(s, "hz") {
            Some(ParameterKind::Hz)
        } else if str_eq(s, "ms") {
            Some(ParameterKind::Ms)
        } else if str_eq(s, "seconds") {
            Some(ParameterKind::Seconds)
        } else if str_eq(s, "percent") {
            Some(ParameterKind::Percent)
        } else if str_eq(s, "pan") {
            Some(ParameterKind::Pan)
        } else if str_eq(s, "ratio") {
            Some(ParameterKind::Ratio)
        } else if str_eq(s, "linear") {
            Some(ParameterKind::Linear)
        } else if str_eq(s, "semitones") {
            Some(ParameterKind::Semitones)
        } else {
            None
        }
    }

    /// Whether this kind has a fixed range, so that no explicit range
    /// attribute is needed (percent and pan).
    pub fn has_fixed_range(&self) -> (r: bool)
        ensures
            r == (*self == ParameterKind::Percent || *self == ParameterKind::Pan),
    {
        match self {
            ParameterKind::Percent | ParameterKind::Pan => true,
            _ => false,
        }
    }
}

/// The type of a parameter field.
#[derive(Debug, Clone, Copy, PartialEq, Eq, Structural)]
pub enum ParameterType {
    /// Continuous float parameter.
    Float,
    /// Integer parameter.
    Int,
    /// Boolean parameter.
    Bool,
    /// Enum parameter.
    Enum,
}

/// Why a kind does not suit a parameter type.
#[derive(Debug, Clone, Copy, PartialEq, Eq, Structural)]
pub enum KindMismatch {
    /// `semitones` written on a float parameter.
    SemitonesOnFloat,
    /// A float-only kind written on an integer parameter.
    FloatKindOnInt(ParameterKind),
    /// A kind written on a boolean parameter that is not the bypass.
    KindOnBool,
    /// A kind written on an enum parameter.
    KindOnEnum,
}

/// Whether a kind is reserved for float parameters when written on an
/// integer parameter.
pub open spec fn is_float_only_kind(kind: ParameterKind) -> bool {
    match kind {
        ParameterKind::Db | ParameterKind::Hz | ParameterKind::Ms | ParameterKind::Seconds
        | ParameterKind::Percent | ParameterKind::Pan | ParameterKind::Ratio => true,
        _ => false,
    }
}

/// The mismatch, if any, between a parameter type and its kind attribute.
pub open spec fn kind_mismatch(parameter_type: ParameterType, kind: Option<ParameterKind>, bypass: bool) -> Option<
    KindMismatch,
> {
    match kind {
        None => None,
        Some(k) => match parameter_type {
            ParameterType::Float => if k == ParameterKind::Semitones {
                Some(KindMismatch::SemitonesOnFloat)
            } else {
                None
            },
            ParameterType::Int => if is_float_only_kind(k) {
                Some(KindMismatch::FloatKindOnInt(k))
            } else {
                None
            },
            ParameterType::Bool => if !bypass {
                Some(KindMismatch::KindOnBool)
            } else {
                None
            },
            ParameterType::Enum => Some(KindMismatch::KindOnEnum),
        },
    }
}

/// Check that a kind attribute suits the parameter type: `semitones` only
/// on integers, the unit kinds (dB, Hz, ms, seconds, percent, pan, ratio)
/// not on integers, no kind on booleans other than the bypass, and no kind
/// on enums.
pub fn check_kind_type(parameter_type: ParameterType, kind: Option<ParameterKind>, bypass: bool) -> (r: Result<
    (),
    KindMismatch,
>)
    ensures
        r is Ok <==> kind_mismatch(parameter_type, kind, bypass) is None,
        r matches Err(e) ==> kind_mismatch(parameter_type, kind, bypass) == Some(e),
{
    match kind {
        None => Ok(()),
        Some(k) => match parameter_type {
            ParameterType::Float => match k {
                ParameterKind::Semitones => Err(KindMismatch::SemitonesOnFloat),
                _ => Ok(()),
            },
            ParameterType::Int => match k {
                ParameterKind::Db | ParameterKind::Hz | ParameterKind::Ms | ParameterKind::Seconds
                | ParameterKind::Percent | ParameterKind::Pan | ParameterKind::Ratio => Err(
                    KindMismatch::FloatKindOnInt(k),
                ),
                _ => Ok(()),
            },
            ParameterType::Bool => if !bypass {
                Err(KindMismatch::KindOnBool)
            } else {
                Ok(())
            },
            ParameterType::Enum => Err(KindMismatch::KindOnEnum),
        },
    }
}

/// Smoothing style named in a parameter declaration.
#[derive(Debug, Clone, Copy, PartialEq, Eq, Structural)]
pub enum SmoothingKind {
    /// Exponential smoothing (`"exp"`).
    Exponential,
    /// Linear smoothing (`"linear"`).
    Linear,
}

impl SmoothingKind {
    /// The smoothing style named `s`, if any.
    pub fn from_str(s: &str) -> (r: Option<Self>)
        ensures
            r == (if s@ == "exp"@ {
                Some(SmoothingKind::Exponential)
            } else if s@ == "linear"@ {
                Some(SmoothingKind::Linear)
            } else {
                None
            }),
    {
        if str_eq(s, "exp") {
            Some(SmoothingKind::Exponential)
        } else if str_eq(s, "linear") {
            Some(SmoothingKind::Linear)
        } else {
            None
        }
    }
}

/// Whether a key is one that a parameter attribute accepts.
pub open spec fn is_parameter_key(k: Seq<char>) -> bool {
    ||| k == "id"@
    ||| k == "name"@
    ||| k == "default"@
    ||| k == "range"@
    ||| k == "kind"@
    ||| k == "short_name"@
    ||| k == "smoothing"@
    ||| k == "bypass"@
    ||| k == "group"@
}

/// The parameter type that a field's type name denotes, if any.
pub open spec fn parameter_type_named(s: Seq<char>) -> Option<ParameterType> {
    if s == "FloatParam"@ {
        Some(ParameterType::Float)
    } else if s == "IntParam"@ {
        Some(ParameterType::Int)
    } else if s == "BoolParam"@ {
        Some(ParameterType::Bool)
    } else if s == "EnumParam"@ {
        Some(ParameterType::Enum)
    } else {
        None
    }
}

/// Why a parameter attribute is refused.
#[derive(Debug, Clone, Copy, PartialEq, Eq, Structural)]
pub enum ParameterAttributeError {
    /// The key at this index is not one of id, name, default, range, kind,
    /// short_name, smoothing, bypass, group.
    UnknownKey { index: usize },
    /// No `id` is given.
    MissingId,
    /// The id holds '/', which separates the groups of a saved path.
    SlashInId,
    /// The field's type is not a parameter type.
    NotAParameterType,
}

/// Whether every key of a list is accepted.
pub open spec fn all_keys_known(keys: Seq<&str>) -> bool {
    forall|i: int| 0 <= i < keys.len() ==> is_parameter_key(#[trigger] keys[i]@)
}

/// Check a parameter attribute: its keys in order, its id (the last `id`
/// given, if any) and the name of the field's type. The rules are checked
/// in this order: every key is known (the first unknown key is reported),
/// an id is given, the id holds no '/', and the type name is `FloatParam`,
/// `IntParam`, `BoolParam` or `EnumParam`, which gives the parameter type.
pub fn check_parameter_attrs(id: Option<&str>, keys: &[&str], field_type: &str) -> (r: Result<
    ParameterType,
    ParameterAttributeError,
>)
    ensures
        match r {
            Err(ParameterAttributeError::UnknownKey { index }) => {
                &&& index < keys@.len()
                &&& !is_parameter_key(keys@[index as int]@)
                &&& forall|j: int| 0 <= j < index ==> is_parameter_key(#[trigger] keys@[j]@)
            },
            Err(ParameterAttributeError::MissingId) => all_keys_known(keys@) && id is None,
            Err(ParameterAttributeError::SlashInId) => {
                &&& all_keys_known(keys@)
                &&& id matches Some(s) && s@.contains('/')
            },
            Err(ParameterAttributeError::NotAParameterType) => {
                &&& all_keys_known(keys@)
                &&& id matches Some(s) && !s@.contains('/')
                &&& parameter_type_named(field_type@) is None
            },
            Ok(t) => {
                &&& all_keys_known(keys@)
                &&& id matches Some(s) && !s@.contains('/')
                &&& parameter_type_named(field_type@) == Some(t)
            },
        },
{
    let mut i: usize = 0;
    while i < keys.len()
        invariant
            i <= keys@.len(),
            forall|j: int| 0 <= j < i ==> is_parameter_key(#[trigger] keys@[j]@),
        decreases keys@.len() - i,
    {
        let k = keys[i];
        if !(str_eq(k, "id") || str_eq(k, "name") || str_eq(k, "default") || str_eq(k, "range") || str_eq(k, "kind")
            || str_eq(k, "short_name") || str_eq(k, "smoothing") || str_eq(k, "bypass") || str_eq(k, "group")) {
            return Err(ParameterAttributeError::UnknownKey { index: i });
        }
        i += 1;
    }
    assert(all_keys_known(keys@));
    let id_str: &str = match id {
        Some(s) => s,
        None => {
            return Err(ParameterAttributeError::MissingId);
        },
    };
    let cs = chars_of(id_str);
    let mut j: usize = 0;
    while j < cs.len()
        invariant
            cs@ == id_str@,
            id == Some(id_str),
            all_keys_known(keys@),
            j <= cs@.len(),
            forall|m: int| 0 <= m < j ==> cs@[m] != '/',
        decreases cs@.len() - j,
    {
        if cs[j] == '/' {
            assert(id_str@[j as int] == '/');
            assert(id_str@.contains('/'));
            return Err(ParameterAttributeError::SlashInId);
        }
        j += 1;
    }
    if str_eq(field_type, "FloatParam") {
        Ok(ParameterType::Float)
    } else if str_eq(field_type, "IntParam") {
        Ok(ParameterType::Int)
    } else if str_eq(field_type, "BoolParam") {
        Ok(ParameterType::Bool)
    } else if str_eq(field_type, "EnumParam") {
        Ok(ParameterType::Enum)
    } else {
        Err(ParameterAttributeError::NotAParameterType)
    }
}

/// Which declarative attributes a parameter declaration carries.
#[derive(Debug, Clone, Copy, PartialEq, Eq, Structural)]
pub struct AttributePresence {
    /// A display name is given.
    pub name: bool,
    /// A default value is given.
    pub default: bool,
    /// A range is given.
    pub range: bool,
    /// The kind, if one is given.
    pub kind: Option<ParameterKind>,
    /// The parameter is the bypass switch.
    pub bypass: bool,
}

/// Whether the attributes suffice to construct a parameter of a type: a
/// float needs a name, a default and a range (or a kind with a fixed
/// range); an integer a name, a default and a range; a boolean a name and
/// a default unless it is the bypass; an enum a name.
pub open spec fn has_required_spec(a: AttributePresence, parameter_type: ParameterType) -> bool {
    match parameter_type {
        ParameterType::Float => a.name && a.default && (a.range || (a.kind matches Some(k) && (
        k == ParameterKind::Percent || k == ParameterKind::Pan))),
        ParameterType::Int => a.name && a.default && a.range,
        ParameterType::Bool => a.bypass || (a.name && a.default),
        ParameterType::Enum => a.name,
    }
}

impl AttributePresence {
    /// Whether the attributes suffice to construct a parameter of the type.
    pub fn has_required_for(&self, parameter_type: ParameterType) -> (r: bool)
        ensures
            r == has_required_spec(*self, parameter_type),
    {
        match parameter_type {
            ParameterType::Float => self.name && self.default && (self.range || match self.kind {
                Some(k) => k.has_fixed_range(),
                None => false,
            }),
            ParameterType::Int => self.name && self.default && self.range,
            ParameterType::Bool => self.bypass || (self.name && self.default),
            ParameterType::Enum => self.name,
        }
    }
}

/// The group names that occur in a list of optional group attributes, in
/// order of first occurrence.
pub open spec fn first_occurrences(groups: Seq<Option<&str>>) -> Seq<Seq<char>>
    decreases groups.len(),
{
    if groups.len() == 0 {
        seq![]
    } else {
        let prev = first_occurrences(groups.drop_last());
        match groups.last() {
            Some(g) => if prev.contains(g@) {
                prev
            } else {
                prev.push(g@)
            },
            None => prev,
        }
    }
}

fn contains_name(names: &Vec<&str>, name: &str) -> (r: bool)
    ensures
        r == names@.map_values(|s: &str| s@).contains(name@),
{
    let ghost view = names@.map_values(|s: &str| s@);
    let mut i: usize = 0;
    while i < names.len()
        invariant
            i <= names@.len(),
            view == names@.map_values(|s: &str| s@),
            forall|j: int| 0 <= j < i ==> view[j] != name@,
        decreases names@.len() - i,
    {
        if str_eq(names[i], name) {
            assert(view[i as int] == name@);
            return true;
        }
        i += 1;
    }
    false
}

/// The flat group names of a parameter list (each parameter's optional
/// group attribute), each once, in order of first occurrence.
pub fn flat_group_names<'a>(groups: &[Option<&'a str>]) -> (r: Vec<&'a str>)
    ensures
        r@.map_values(|s: &str| s@) == first_occurrences(groups@),
{
    let mut names: Vec<&'a str> = Vec::new();
    let mut i: usize = 0;
    while i < groups.len()
        invariant
            i <= groups@.len(),
            names@.map_values(|s: &str| s@) == first_occurrences(groups@.take(i as int)),
        decreases groups@.len() - i,
    {
        proof {
            assert(groups@.take(i + 1).drop_last() =~= groups@.take(i as int));
        }
        match groups[i] {
            Some(g) => {
                if !contains_name(&names, g) {
                    names.push(g);
                    proof {
                        assert(names@.map_values(|s: &str| s@) =~= first_occurrences(groups@.take(i as int)).push(g@));
                    }
                }
            },
            None => {},
        }
        i += 1;
    }
    proof {
        assert(groups@.take(i as int) =~= groups@);
    }
    names
}

/// Whether an optional group attribute names the group `n`.
pub open spec fn names_group(g: Option<&str>, n: Seq<char>) -> bool {
    match g {
        Some(x) => x@ == n,
        None => false,
    }
}

/// The group names listed by [`flat_group_names`] are pairwise distinct,
/// and a name is listed exactly when some parameter carries it.
pub proof fn lemma_first_occurrences(groups: Seq<Option<&str>>)
    ensures
        forall|a: int, b: int|
            0 <= a < b < first_occurrences(groups).len() ==> first_occurrences(groups)[a] != first_occurrences(
                groups,
            )[b],
        forall|n: Seq<char>|
            first_occurrences(groups).contains(n) <==> exists|k: int|
                0 <= k < groups.len() && #[trigger] names_group(groups[k], n),
    decreases groups.len(),
{
    if groups.len() > 0 {
        let rest = groups.drop_last();
        lemma_first_occurrences(rest);
        let prev = first_occurrences(rest);
        let all = first_occurrences(groups);
        assert forall|n: Seq<char>|
            all.contains(n) <==> exists|k: int| 0 <= k < groups.len() && #[trigger] names_group(groups[k], n) by {
            if all.contains(n) {
                if prev.contains(n) {
                    let k = choose|k: int| 0 <= k < rest.len() && #[trigger] names_group(rest[k], n);
                    assert(groups[k] == rest[k]);
                } else {
                    assert(names_group(groups[groups.len() - 1], n));
                }
            }
            if exists|k: int| 0 <= k < groups.len() && #[trigger] names_group(groups[k], n) {
                let k = choose|k: int| 0 <= k < groups.len() && #[trigger] names_group(groups[k], n);
                if k < groups.len() - 1 {
                    assert(rest[k] == groups[k]);
                    assert(names_group(rest[k], n));
                    assert(prev.contains(n));
                    if all != prev {
                        assert(all == prev.push(groups.last()->0@));
                        let j = choose|j: int| 0 <= j < prev.len() && prev[j] == n;
                        assert(all[j] == n);
                    }
                } else {
                    assert(groups.last() == groups[k]);
                    if !prev.contains(n) {
                        assert(all == prev.push(n));
                        assert(all[prev.len() as int] == n);
                    }
                }
            }
        }
    }
}

/// The unit IDs of a struct's nested groups, in field order: unit 0 is the
/// root and the flat groups take 1 to `flat_groups`, so the nested groups
/// follow from `flat_groups + 1`.
pub fn nested_group_unit_ids(flat_groups: usize, nested: usize) -> (r: Vec<i32>)
    requires
        flat_groups + nested < i32::MAX,
    ensures
        r@.len() == nested,
        forall|k: int| 0 <= k < nested ==> #[trigger] r@[k] == flat_groups + 1 + k,
{
    let mut r: Vec<i32> = Vec::new();
    let mut next: i32 = (flat_groups + 1) as i32;
    let mut k: usize = 0;
    while k < nested
        invariant
            k <= nested,
            flat_groups + nested < i32::MAX,
            next == flat_groups + 1 + k,
            r@.len() == k,
            forall|j: int| 0 <= j < k ==> #[trigger] r@[j] == flat_groups + 1 + j,
        decreases nested - k,
    {
        r.push(next);
        next = next + 1;
        k += 1;
    }
    r
}


/// A float parameter with a name and a default is complete exactly when it
/// has a range or its kind fixes the range itself (percent or pan); an
/// integer one exactly when it has a range; an enum one whenever it has a
/// name; and a switch whenever it has a name and a default, or is the
/// bypass.
pub proof fn lemma_required_attributes(a: AttributePresence)
    ensures
        a.name && a.default ==> (has_required_spec(a, ParameterType::Float) <==> (a.range || a.kind
            == Some(ParameterKind::Percent) || a.kind == Some(ParameterKind::Pan))),
        !a.name || !a.default ==> !has_required_spec(a, ParameterType::Float),
        has_required_spec(a, ParameterType::Int) <==> (a.name && a.default && a.range),
        has_required_spec(a, ParameterType::Enum) <==> a.name,
        has_required_spec(a, ParameterType::Bool) <==> (a.bypass || (a.name && a.default)),
{
}

} // verus!

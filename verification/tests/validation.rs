use beamer::fnv1a_32;
use beamer::ids::{find_repeat_str, find_repeat_u32, validate_parameter_ids, IdError};
use beamer::int_range::{clamp_int, int_step_count};
use beamer::ir::{
    check_kind_type, check_parameter_attrs, flat_group_names, ParameterAttributeError, nested_group_unit_ids, AttributePresence, KindMismatch, ParameterKind,
    ParameterType, SmoothingKind,
};
use beamer::parameters::find_parameter_index;

#[test]
fn distinct_ids_hash_in_order() {
    let r = validate_parameter_ids(&["gain", "cutoff", "mix"]).expect("valid");
    assert_eq!(r, vec![fnv1a_32("gain"), fnv1a_32("cutoff"), fnv1a_32("mix")]);
    assert_eq!(r[0], 0x1b5426fe);
    assert_eq!(validate_parameter_ids(&[]), Ok(vec![]));
}

#[test]
fn duplicate_string_id_is_reported_first() {
    assert_eq!(
        validate_parameter_ids(&["a", "b", "costarring", "b", "liquid"]),
        Err(IdError::DuplicateId { index: 3, first: 1 })
    );
}

#[test]
fn hash_collision_is_reported() {
    assert_eq!(fnv1a_32("costarring"), fnv1a_32("liquid"));
    assert_eq!(
        validate_parameter_ids(&["gain", "costarring", "mix", "liquid"]),
        Err(IdError::HashCollision { index: 3, first: 1 })
    );
}

#[test]
fn first_repeat_helpers() {
    assert_eq!(find_repeat_u32(&[1, 2, 3]), None);
    assert_eq!(find_repeat_u32(&[5, 6, 7, 6, 5]), Some((3, 1)));
    assert_eq!(find_repeat_str(&["x", "y", "x"]), Some((2, 0)));
    assert_eq!(find_repeat_str(&[]), None);
}

#[test]
fn kind_names() {
    assert_eq!(ParameterKind::from_str("db"), Some(ParameterKind::Db));
    assert_eq!(ParameterKind::from_str("db_log"), Some(ParameterKind::DbLog));
    assert_eq!(ParameterKind::from_str("db_log_offset"), Some(ParameterKind::DbLogOffset));
    assert_eq!(ParameterKind::from_str("hz"), Some(ParameterKind::Hz));
    assert_eq!(ParameterKind::from_str("semitones"), Some(ParameterKind::Semitones));
    assert_eq!(ParameterKind::from_str("DB"), None);
    assert_eq!(ParameterKind::from_str(""), None);
    assert!(ParameterKind::Percent.has_fixed_range());
    assert!(ParameterKind::Pan.has_fixed_range());
    assert!(!ParameterKind::Hz.has_fixed_range());
}

#[test]
fn kind_type_consistency() {
    assert_eq!(check_kind_type(ParameterType::Float, None, false), Ok(()));
    assert_eq!(check_kind_type(ParameterType::Float, Some(ParameterKind::Db), false), Ok(()));
    assert_eq!(
        check_kind_type(ParameterType::Float, Some(ParameterKind::Semitones), false),
        Err(KindMismatch::SemitonesOnFloat)
    );
    assert_eq!(check_kind_type(ParameterType::Int, Some(ParameterKind::Semitones), false), Ok(()));
    assert_eq!(check_kind_type(ParameterType::Int, Some(ParameterKind::Linear), false), Ok(()));
    assert_eq!(
        check_kind_type(ParameterType::Int, Some(ParameterKind::Hz), false),
        Err(KindMismatch::FloatKindOnInt(ParameterKind::Hz))
    );
    assert_eq!(
        check_kind_type(ParameterType::Bool, Some(ParameterKind::Linear), false),
        Err(KindMismatch::KindOnBool)
    );
    assert_eq!(check_kind_type(ParameterType::Bool, Some(ParameterKind::Linear), true), Ok(()));
    assert_eq!(
        check_kind_type(ParameterType::Enum, Some(ParameterKind::Db), false),
        Err(KindMismatch::KindOnEnum)
    );
    assert_eq!(check_kind_type(ParameterType::Enum, None, false), Ok(()));
}

#[test]
fn smoothing_kind_names() {
    assert_eq!(SmoothingKind::from_str("exp"), Some(SmoothingKind::Exponential));
    assert_eq!(SmoothingKind::from_str("linear"), Some(SmoothingKind::Linear));
    assert_eq!(SmoothingKind::from_str("Exp"), None);
}

#[test]
fn required_attributes_per_type() {
    let none = AttributePresence { name: false, default: false, range: false, kind: None, bypass: false };
    let full = AttributePresence { name: true, default: true, range: true, kind: None, bypass: false };
    let no_range = AttributePresence { range: false, ..full };
    assert!(full.has_required_for(ParameterType::Float));
    assert!(!no_range.has_required_for(ParameterType::Float));
    assert!(AttributePresence { kind: Some(ParameterKind::Percent), ..no_range }.has_required_for(ParameterType::Float));
    assert!(!AttributePresence { kind: Some(ParameterKind::Hz), ..no_range }.has_required_for(ParameterType::Float));
    assert!(full.has_required_for(ParameterType::Int));
    assert!(!no_range.has_required_for(ParameterType::Int));
    assert!(no_range.has_required_for(ParameterType::Bool));
    assert!(AttributePresence { bypass: true, ..none }.has_required_for(ParameterType::Bool));
    assert!(!none.has_required_for(ParameterType::Bool));
    assert!(AttributePresence { name: true, ..none }.has_required_for(ParameterType::Enum));
    assert!(!none.has_required_for(ParameterType::Enum));
}

#[test]
fn flat_groups_in_first_occurrence_order() {
    let groups = [Some("Filter"), None, Some("Env"), Some("Filter"), Some("Osc"), Some("Env")];
    assert_eq!(flat_group_names(&groups), vec!["Filter", "Env", "Osc"]);
    assert!(flat_group_names(&[None, None]).is_empty());
    assert_eq!(nested_group_unit_ids(3, 2), vec![4, 5]);
    assert_eq!(nested_group_unit_ids(0, 1), vec![1]);
    assert!(nested_group_unit_ids(5, 0).is_empty());
}

#[test]
fn integer_ranges() {
    assert_eq!(int_step_count(0, 10), 10);
    assert_eq!(int_step_count(-24, 24), 48);
    assert_eq!(int_step_count(5, 5), 0);
    assert_eq!(int_step_count(i64::MIN, i64::MAX), i32::MAX);
    assert_eq!(clamp_int(15, 0, 10), 10);
    assert_eq!(clamp_int(-3, 0, 10), 0);
    assert_eq!(clamp_int(7, 0, 10), 7);
}

#[test]
fn parameter_index_lookup() {
    assert_eq!(find_parameter_index(&[5, 9, 5], 5), Some(0));
    assert_eq!(find_parameter_index(&[5, 9, 5], 9), Some(1));
    assert_eq!(find_parameter_index(&[5, 9], 4), None);
    assert_eq!(find_parameter_index(&[], 4), None);
}

#[test]
fn parameter_attribute_rules() {
    assert_eq!(
        check_parameter_attrs(Some("gain"), &["id", "name", "default", "range", "kind"], "FloatParam"),
        Ok(ParameterType::Float)
    );
    assert_eq!(check_parameter_attrs(Some("on"), &["id", "bypass"], "BoolParam"), Ok(ParameterType::Bool));
    assert_eq!(check_parameter_attrs(Some("n"), &["id"], "IntParam"), Ok(ParameterType::Int));
    assert_eq!(check_parameter_attrs(Some("m"), &["id", "group"], "EnumParam"), Ok(ParameterType::Enum));
    assert_eq!(
        check_parameter_attrs(Some("gain"), &["id", "colour", "units"], "FloatParam"),
        Err(ParameterAttributeError::UnknownKey { index: 1 })
    );
    assert_eq!(check_parameter_attrs(None, &["name"], "FloatParam"), Err(ParameterAttributeError::MissingId));
    assert_eq!(
        check_parameter_attrs(Some("filter/cutoff"), &["id"], "FloatParam"),
        Err(ParameterAttributeError::SlashInId)
    );
    assert_eq!(
        check_parameter_attrs(Some("gain"), &["id"], "f32"),
        Err(ParameterAttributeError::NotAParameterType)
    );
    // An unknown key is reported before a missing id.
    assert_eq!(check_parameter_attrs(None, &["bogus"], "f32"), Err(ParameterAttributeError::UnknownKey { index: 0 }));
}

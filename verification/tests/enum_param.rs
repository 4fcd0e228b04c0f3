use beamer::enum_param::{
    clamp_enum_index, enum_param_layout, enum_step_count, first_equal_name, variant_index_by_name, EnumDeriveError, ItemKind, NameAttribute, VariantDecl,
    VariantFields,
};

fn unit(ident: &str) -> VariantDecl {
    VariantDecl { ident: ident.to_string(), fields: VariantFields::Unit, name: NameAttribute::Absent, is_default: false }
}

fn named(ident: &str, name: &str) -> VariantDecl {
    VariantDecl { name: NameAttribute::Literal(name.to_string()), ..unit(ident) }
}

fn default_variant(ident: &str) -> VariantDecl {
    VariantDecl { is_default: true, ..unit(ident) }
}

#[test]
fn filter_type_layout() {
    let variants = vec![named("LowPass", "Low Pass"), named("HighPass", "High Pass"), unit("BandPass")];
    let layout = enum_param_layout(ItemKind::Enum, &variants).unwrap();
    assert_eq!(layout.count, 3);
    assert_eq!(layout.default_index, 0);
    assert_eq!(layout.names, vec!["Low Pass".to_string(), "High Pass".to_string(), "BandPass".to_string()]);
}

#[test]
fn marked_default_variant() {
    let variants = vec![unit("A"), default_variant("B"), unit("C")];
    assert_eq!(enum_param_layout(ItemKind::Enum, &variants).unwrap().default_index, 1);
}

#[test]
fn refused_items() {
    let variants = vec![unit("A")];
    assert_eq!(enum_param_layout(ItemKind::Struct, &variants).unwrap_err(), EnumDeriveError::StructNotSupported);
    assert_eq!(enum_param_layout(ItemKind::Union, &variants).unwrap_err(), EnumDeriveError::UnionNotSupported);
    assert_eq!(enum_param_layout(ItemKind::Enum, &Vec::new()).unwrap_err(), EnumDeriveError::NoVariants);
    let two_defaults = vec![default_variant("A"), unit("B"), default_variant("C")];
    assert_eq!(enum_param_layout(ItemKind::Enum, &two_defaults).unwrap_err(), EnumDeriveError::SeveralDefaults);
}

#[test]
fn refused_variants_report_the_first() {
    let fields = vec![
        unit("A"),
        VariantDecl { fields: VariantFields::Named, ..unit("B") },
        VariantDecl { fields: VariantFields::Unnamed, ..unit("C") },
    ];
    assert_eq!(
        enum_param_layout(ItemKind::Enum, &fields).unwrap_err(),
        EnumDeriveError::NamedFields { variant: 1 }
    );
    let tuple = vec![VariantDecl { fields: VariantFields::Unnamed, ..unit("A") }];
    assert_eq!(enum_param_layout(ItemKind::Enum, &tuple).unwrap_err(), EnumDeriveError::TupleFields { variant: 0 });
    let bad_name = vec![unit("A"), VariantDecl { name: NameAttribute::NotLiteral, ..unit("B") }];
    assert_eq!(
        enum_param_layout(ItemKind::Enum, &bad_name).unwrap_err(),
        EnumDeriveError::NameNotLiteral { variant: 1 }
    );
    // A variant error comes before the default check.
    let both = vec![default_variant("A"), default_variant("B"), VariantDecl { fields: VariantFields::Named, ..unit("C") }];
    assert_eq!(enum_param_layout(ItemKind::Enum, &both).unwrap_err(), EnumDeriveError::NamedFields { variant: 2 });
}

#[test]
fn dropdown_index_arithmetic() {
    assert_eq!(enum_step_count(3), 2);
    assert_eq!(enum_step_count(1), 0);
    assert_eq!(enum_step_count(0), 0);
    assert_eq!(clamp_enum_index(1, 3), 1);
    assert_eq!(clamp_enum_index(7, 3), 2);
    assert_eq!(clamp_enum_index(5, 0), 0);
}

#[test]
fn variant_lookup_ignores_case() {
    let names = ["Low Pass", "High Pass", "BandPass"];
    assert_eq!(variant_index_by_name(&names, "high pass"), Some(1));
    assert_eq!(variant_index_by_name(&names, "BANDPASS"), Some(2));
    assert_eq!(variant_index_by_name(&names, "Notch"), None);
    assert_eq!(variant_index_by_name(&["Ä", "ä"], "ä"), Some(0));
}

#[test]
fn first_equal_folded_name() {
    let folded: Vec<Vec<char>> = vec!["a".chars().collect(), "b".chars().collect(), "b".chars().collect()];
    assert_eq!(first_equal_name(&folded, &"b".chars().collect()), Some(1));
    assert_eq!(first_equal_name(&folded, &"c".chars().collect()), None);
}

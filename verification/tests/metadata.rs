use beamer::config::PluginConfig;
use beamer::editor::EditorConstraints;
use beamer::parameter_groups::{find_group_id_by_name, GroupInfo, ParameterGroups, ROOT_GROUP_ID};
use beamer::parameter_store::NoParameters as NoGroups;
use beamer::parameters::{
    find_unit_id_by_name, NoParameters, ParameterFlags, ParameterInfo, UnitInfo, Units,
    NORMALIZED_HALF_BITS, NORMALIZED_ZERO_BITS, ROOT_UNIT_ID,
};
use beamer::plugin::{BusInfo, BusLayout, BusType, Midi1Assignment, Midi2Assignment};
use beamer::midi::Midi2Controller;
use beamer::types::{Rect, Size};

#[test]
fn rect_extents() {
    let r = Rect::new(10, 20, 110, 70);
    assert_eq!(r.width(), 100);
    assert_eq!(r.height(), 50);
    assert_eq!(r.size(), Size::new(100, 50));
    let inverted = Rect::new(50, 50, 10, 10);
    assert_eq!(inverted.width(), 0);
    assert_eq!(inverted.height(), 0);
    let from = Rect::from_size(Size::new(640, 480));
    assert_eq!(from, Rect::new(0, 0, 640, 480));
    assert_eq!(from.size(), Size::new(640, 480));
}

#[test]
fn plugin_config_builders() {
    let c = PluginConfig::new("Gain")
        .with_vendor("Acme")
        .with_url("https://example.com")
        .with_email("a@example.com")
        .with_version("2.1.0")
        .with_category("Fx")
        .with_sub_categories("Fx|Dynamics")
        .with_editor();
    assert_eq!(c.name, "Gain");
    assert_eq!(c.vendor, "Acme");
    assert_eq!(c.url, "https://example.com");
    assert_eq!(c.email, "a@example.com");
    assert_eq!(c.version, "2.1.0");
    assert_eq!(c.sub_categories, "Fx|Dynamics");
    assert!(c.has_editor);

    let d = PluginConfig::new("Plain");
    assert_eq!(d.vendor, "Unknown Vendor");
    assert_eq!(d.version, "1.0.0");
    assert_eq!(d.category, "Fx");
    assert_eq!(d.url, "");
    assert!(!d.has_editor);
}

#[test]
fn editor_constraints_default() {
    let c = EditorConstraints::default();
    assert_eq!(c.min, Size::new(400, 300));
    assert_eq!(c.max, Size::new(1600, 1200));
    assert!(c.resizable);
}

#[test]
fn bus_infos_and_layout() {
    let s = BusInfo::stereo("Main");
    assert_eq!(s.channel_count, 2);
    assert_eq!(s.bus_type, BusType::Main);
    assert!(s.is_default_active);
    assert_eq!(BusInfo::mono("Mono").channel_count, 1);
    let aux = BusInfo::aux("Sidechain", 2);
    assert_eq!(aux.bus_type, BusType::Aux);
    assert!(!aux.is_default_active);
    assert_eq!(BusInfo::default().channel_count, 2);

    assert_eq!(BusLayout::stereo().main_input_channels, 2);
    let l = BusLayout::from_buses(2, 1, Some(BusInfo::mono("In")), None);
    assert_eq!(l.main_input_channels, 1);
    assert_eq!(l.main_output_channels, 2);
    assert_eq!(l.aux_input_count, 1);
    assert_eq!(l.aux_output_count, 0);
    assert_eq!(BusLayout::from_buses(0, 0, None, None).aux_input_count, 0);
}

#[test]
fn controller_assignments() {
    let a = Midi1Assignment::simple(42, 7);
    assert_eq!(a.assignment.param_id, 42);
    assert_eq!(a.assignment.bus_index, 0);
    assert_eq!(a.assignment.channel, 0);
    assert_eq!(a.controller, 7);
    let b = Midi1Assignment::new(1, 2, 3, 4);
    assert_eq!(b.assignment.bus_index, 2);
    assert_eq!(b.assignment.channel, 3);
    let c = Midi2Assignment::simple(9, Midi2Controller::registered(1, 2));
    assert_eq!(c.controller, Midi2Controller { bank: 1, registered: true, index: 2 });
    assert_eq!(Midi2Controller::assignable(3, 4), Midi2Controller::new(3, false, 4));
}

#[test]
fn parameter_info_builders() {
    let p = ParameterInfo::new(7, "Gain");
    assert_eq!(p.id, 7);
    assert_eq!(p.short_name, "Gain");
    assert_eq!(p.units, "");
    assert_eq!(p.default_normalized_bits, NORMALIZED_HALF_BITS);
    assert_eq!(f64::from_bits(NORMALIZED_HALF_BITS), 0.5);
    assert_eq!(f64::from_bits(NORMALIZED_ZERO_BITS), 0.0);
    assert_eq!(p.step_count, 0);
    assert_eq!(p.flags, ParameterFlags::default());
    assert!(p.flags.can_automate);
    assert_eq!(p.unit_id, ROOT_UNIT_ID);

    let q = ParameterInfo::new(8, "Cutoff")
        .with_short_name("Cut")
        .with_units("Hz")
        .with_default(0.25f64.to_bits())
        .with_steps(3)
        .with_unit(2);
    assert_eq!(q.short_name, "Cut");
    assert_eq!(q.units, "Hz");
    assert_eq!(f64::from_bits(q.default_normalized_bits), 0.25);
    assert_eq!(q.step_count, 3);
    assert_eq!(q.unit_id, 2);

    let b = ParameterInfo::bypass(99);
    assert_eq!(b.name, "Bypass");
    assert_eq!(b.short_name, "Byp");
    assert!(b.flags.is_bypass);
    assert!(b.flags.can_automate);
    assert_eq!(b.step_count, 1);
    assert_eq!(b.default_normalized_bits, NORMALIZED_ZERO_BITS);
}

#[test]
fn unit_lookup() {
    let units = [UnitInfo::root(), UnitInfo::new(1, "Filter", 0), UnitInfo::new(2, "Env", 1), UnitInfo::new(3, "Filter", 0)];
    assert_eq!(find_unit_id_by_name(&units, "Filter"), Some(1));
    assert_eq!(find_unit_id_by_name(&units, "Env"), Some(2));
    assert_eq!(find_unit_id_by_name(&units, ""), Some(ROOT_UNIT_ID));
    assert_eq!(find_unit_id_by_name(&units, "Osc"), None);

    let none = NoParameters;
    assert_eq!(none.unit_count(), 1);
    assert_eq!(none.unit_info(0).map(|u| u.id), Some(ROOT_UNIT_ID));
    assert!(none.unit_info(1).is_none());
    assert_eq!(none.find_unit_by_name(""), Some(ROOT_UNIT_ID));
    assert_eq!(none.find_unit_by_name("Filter"), None);
}

#[test]
fn group_lookup() {
    let groups = [GroupInfo::root(), GroupInfo::new(5, "Osc", 0)];
    assert_eq!(find_group_id_by_name(&groups, "Osc"), Some(5));
    assert_eq!(find_group_id_by_name(&groups, "osc"), None);
    let none = NoGroups;
    assert_eq!(none.group_count(), 1);
    assert_eq!(none.group_info(0).map(|g| g.id), Some(ROOT_GROUP_ID));
    assert_eq!(none.find_group_by_name("Osc"), None);
}

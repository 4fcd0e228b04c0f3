use beamer::parameters::UnitInfo;
use beamer::unit_tree::{collect_units, next_unit_id, GroupNode};

fn leaf(name: &'static str) -> GroupNode {
    GroupNode { name, children: Vec::new() }
}

#[test]
fn units_are_numbered_depth_first() {
    let tree = vec![
        GroupNode { name: "Osc", children: vec![leaf("Pitch"), GroupNode { name: "Env", children: vec![leaf("Attack")] }] },
        leaf("Filter"),
    ];
    let mut units = vec![UnitInfo::root()];
    let next = collect_units(&tree, &mut units, 1, 0);
    assert_eq!(next, 6);
    let got: Vec<(i32, &str, i32)> = units.iter().map(|u| (u.id, u.name, u.parent_id)).collect();
    assert_eq!(
        got,
        vec![(0, "", 0), (1, "Osc", 0), (2, "Pitch", 1), (3, "Env", 1), (4, "Attack", 3), (5, "Filter", 0)]
    );
    assert_eq!(next_unit_id(&tree, 1), Some(6));
}

#[test]
fn empty_forest_adds_nothing() {
    let mut units = Vec::new();
    assert_eq!(collect_units(&Vec::new(), &mut units, 7, 3), 7);
    assert!(units.is_empty());
    assert_eq!(next_unit_id(&Vec::new(), i32::MAX), Some(i32::MAX));
}

#[test]
fn numbering_that_would_overflow_is_detected() {
    let tree = vec![leaf("A"), leaf("B")];
    assert_eq!(next_unit_id(&tree, i32::MAX - 2), Some(i32::MAX));
    assert_eq!(next_unit_id(&tree, i32::MAX - 1), None);
}

use beamer::decimal::{format_u32, id_path, parse_u32};
use beamer::state::{
    append_flat_state, append_state_entry, decode_state, encode_state, join_state_path, load_flat_state, route_state_path,
    route_state_path_by_id, split_group_path, IdRoute, StateEntry, StateRoute,
};

#[test]
fn entry_layout_is_length_path_value() {
    let mut data = Vec::new();
    append_state_entry(&mut data, b"gain", 0.5f64.to_bits());
    assert_eq!(data[0], 4);
    assert_eq!(&data[1..5], b"gain");
    assert_eq!(&data[5..13], &0.5f64.to_le_bytes());
    assert_eq!(data.len(), 13);
}

#[test]
fn encode_then_decode_restores_entries() {
    let entries = vec![
        StateEntry { path: b"1234".to_vec(), value_bits: 0.25f64.to_bits() },
        StateEntry { path: b"filter/cutoff".to_vec(), value_bits: 1.0f64.to_bits() },
        StateEntry { path: Vec::new(), value_bits: 7 },
    ];
    let data = encode_state(&entries);
    let back = decode_state(&data);
    assert_eq!(back.len(), 3);
    for (a, b) in entries.iter().zip(back.iter()) {
        assert_eq!(a.path, b.path);
        assert_eq!(a.value_bits, b.value_bits);
    }
}

#[test]
fn decode_empty_and_truncated_data() {
    assert!(decode_state(&[]).is_empty());
    let mut data = Vec::new();
    append_state_entry(&mut data, b"1", 42);
    append_state_entry(&mut data, b"2", 43);
    data.truncate(data.len() - 1);
    let back = decode_state(&data);
    assert_eq!(back.len(), 1);
    assert_eq!(back[0].path, b"1".to_vec());
    assert_eq!(back[0].value_bits, 42);
}

#[test]
fn decode_skips_invalid_utf8_paths() {
    let mut data = Vec::new();
    append_state_entry(&mut data, &[0xFF, 0xFE], 1);
    append_state_entry(&mut data, b"ok", 2);
    let back = decode_state(&data);
    assert_eq!(back.len(), 1);
    assert_eq!(back[0].path, b"ok".to_vec());
    assert_eq!(back[0].value_bits, 2);
}

#[test]
fn flat_state_roundtrip() {
    let params = vec![(1234u32, 0.75f64.to_bits()), (0u32, 0.0f64.to_bits()), (u32::MAX, 1.0f64.to_bits())];
    let mut data = Vec::new();
    append_flat_state(&mut data, b"", &params);
    assert_eq!(load_flat_state(&data), params);
}

#[test]
fn flat_state_under_a_prefix_is_not_loaded_as_flat() {
    let mut data = Vec::new();
    append_flat_state(&mut data, b"filter", &[(7, 3)]);
    let entries = decode_state(&data);
    assert_eq!(entries.len(), 1);
    assert_eq!(entries[0].path, b"filter/7".to_vec());
    assert!(load_flat_state(&data).is_empty());
}

#[test]
fn load_flat_state_ignores_non_numeric_paths() {
    let mut data = Vec::new();
    append_state_entry(&mut data, b"gain", 1);
    append_state_entry(&mut data, b"+17", 2);
    append_state_entry(&mut data, b"4294967296", 3);
    append_state_entry(&mut data, b"42", 4);
    assert_eq!(load_flat_state(&data), vec![(17, 2), (42, 4)]);
}

#[test]
fn decimal_formatting() {
    assert_eq!(format_u32(0), b"0".to_vec());
    assert_eq!(format_u32(1234), b"1234".to_vec());
    assert_eq!(format_u32(u32::MAX), b"4294967295".to_vec());
    assert_eq!(id_path(b"", 5), b"5".to_vec());
    assert_eq!(id_path(b"osc1/filter", 99), b"osc1/filter/99".to_vec());
}

#[test]
fn decimal_parsing() {
    assert_eq!(parse_u32(b"0"), Some(0));
    assert_eq!(parse_u32(b"+5"), Some(5));
    assert_eq!(parse_u32(b"007"), Some(7));
    assert_eq!(parse_u32(b"4294967295"), Some(u32::MAX));
    assert_eq!(parse_u32(b"4294967296"), None);
    assert_eq!(parse_u32(b""), None);
    assert_eq!(parse_u32(b"+"), None);
    assert_eq!(parse_u32(b"12a"), None);
    assert_eq!(parse_u32(b"-1"), None);
    assert_eq!(parse_u32(b" 1"), None);
    for n in [0u32, 9, 10, 65535, 123456789, u32::MAX] {
        assert_eq!(parse_u32(&format_u32(n)), Some(n));
    }
}

#[test]
fn paths_split_at_the_first_slash() {
    assert_eq!(split_group_path(b"1234"), None);
    assert_eq!(split_group_path(b"filter/1234"), Some((b"filter".to_vec(), b"1234".to_vec())));
    assert_eq!(
        split_group_path(b"osc1/filter/7"),
        Some((b"osc1".to_vec(), b"filter/7".to_vec()))
    );
    assert_eq!(split_group_path(b"/7"), Some((Vec::new(), b"7".to_vec())));
}

#[test]
fn nested_paths_route_to_their_group() {
    let groups = vec![b"filter".to_vec(), b"env".to_vec(), b"filter".to_vec()];
    assert!(matches!(route_state_path(b"42", &groups), StateRoute::Direct(Some(42))));
    assert!(matches!(route_state_path(b"gain", &groups), StateRoute::Direct(None)));
    match route_state_path(b"env/attack/3", &groups) {
        StateRoute::Nested { group, rest } => {
            assert_eq!(group, 1);
            assert_eq!(rest, b"attack/3".to_vec());
        }
        other => panic!("expected a nested route, got {:?}", other),
    }
    // The first group of a repeated name receives the path.
    assert!(matches!(route_state_path(b"filter/9", &groups), StateRoute::Nested { group: 0, .. }));
    assert!(matches!(route_state_path(b"lfo/9", &groups), StateRoute::NoSuchGroup));
    assert!(matches!(route_state_path(b"lfo/9", &Vec::new()), StateRoute::NoSuchGroup));
}

#[test]
fn grouped_save_path_routes_back() {
    let path = id_path(b"filter", 42);
    assert_eq!(path, b"filter/42".to_vec());
    let groups = vec![b"env".to_vec(), b"filter".to_vec()];
    match route_state_path(&path, &groups) {
        StateRoute::Nested { group, rest } => {
            assert_eq!(group, 1);
            assert!(matches!(route_state_path(&rest, &Vec::new()), StateRoute::Direct(Some(42))));
        }
        other => panic!("expected a nested route, got {:?}", other),
    }
}

#[test]
fn string_id_paths_route_to_their_parameter() {
    let ids = vec![b"gain".to_vec(), b"mix".to_vec()];
    let groups = vec![b"filter".to_vec()];
    assert!(matches!(route_state_path_by_id(b"gain", &ids, &groups), IdRoute::Parameter(0)));
    assert!(matches!(route_state_path_by_id(b"mix", &ids, &groups), IdRoute::Parameter(1)));
    assert!(matches!(route_state_path_by_id(b"width", &ids, &groups), IdRoute::NoSuchParameter));
    assert!(matches!(route_state_path_by_id(b"lfo/rate", &ids, &groups), IdRoute::NoSuchGroup));
    let path = join_state_path(b"filter", b"cutoff");
    assert_eq!(path, b"filter/cutoff".to_vec());
    match route_state_path_by_id(&path, &ids, &groups) {
        IdRoute::Nested { group, rest } => {
            assert_eq!(group, 0);
            let inner = vec![b"cutoff".to_vec(), b"resonance".to_vec()];
            assert!(matches!(route_state_path_by_id(&rest, &inner, &Vec::new()), IdRoute::Parameter(0)));
        }
        other => panic!("expected a nested route, got {:?}", other),
    }
    assert_eq!(join_state_path(b"", b"gain"), b"gain".to_vec());
    assert_eq!(join_state_path(b"osc1/filter", b"q"), b"osc1/filter/q".to_vec());
}

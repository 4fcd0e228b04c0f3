use beamer::fnv1a_32;

#[test]
fn test_fnv1a_empty() {
    // FNV-1a of the empty string is the offset basis
    assert_eq!(fnv1a_32(""), 2166136261);
}

#[test]
fn test_fnv1a_single_char() {
    // Known test vector for "a"
    assert_eq!(fnv1a_32("a"), 0xe40c292c);
}

#[test]
fn test_fnv1a_const() {
    let hash: u32 = fnv1a_32("test");
    assert_eq!(hash, fnv1a_32("test"));
}

#[test]
fn test_fnv1a_consistency() {
    let id1 = fnv1a_32("cutoff");
    let id2 = fnv1a_32("cutoff");
    assert_eq!(id1, id2);
}

#[test]
fn test_fnv1a_different_strings() {
    let id1 = fnv1a_32("gain");
    let id2 = fnv1a_32("frequency");
    assert_ne!(id1, id2);
}

#[test]
fn fnv1a_known_vectors() {
    // Published FNV-1a 32-bit test vectors.
    assert_eq!(fnv1a_32("foobar"), 0xbf9cf968);
    assert_eq!(fnv1a_32("b"), 0xe70c2de5);
}

#[test]
fn fnv1a_core_path_matches() {
    assert_eq!(beamer::fnv::fnv1a_32("gain"), fnv1a_32("gain"));
}

#[test]
fn fnv1a_hashes_utf8_bytes() {
    // "é" is two UTF-8 bytes; the hash runs over both.
    let expected = {
        let mut h: u32 = 2166136261;
        for b in "é".as_bytes() {
            h ^= *b as u32;
            h = h.wrapping_mul(16777619);
        }
        h
    };
    assert_eq!(fnv1a_32("é"), expected);
}

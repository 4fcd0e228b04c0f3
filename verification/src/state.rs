//! Parameter state serialization.
//!
//! A saved state is a sequence of entries, each `[path_len: u8][path: UTF-8
//! bytes][value: f64, little endian]`. The path names the parameter (its
//! decimal ID for flat collections, `group/.../id` for nested groups); the
//! value is the parameter's normalized value, carried here as the bit
//! pattern of the `f64`.
//!
//! Loading reads entries until the data runs out or an entry is truncated,
//! and skips entries whose path is not valid UTF-8.

use vstd::prelude::*;
use vstd::utf8::valid_utf8;
use crate::text::str_from_utf8;
use crate::decimal::{
    id_path, id_path_spec, parse_u32, decimal_digits, parse_u32_spec, lemma_u32_digits_short_ascii,
    lemma_format_parse_roundtrip, lemma_decimal_digits_are_digits,
};

verus! {

/// One saved parameter: its path (UTF-8 bytes) and the bit pattern of its
/// normalized `f64` value.
#[derive(Debug)]
pub struct StateEntry {
    /// Path bytes (e.g. `b"1234"` or `b"filter/1234"`).
    pub path: Vec<u8>,
    /// Bit pattern of the normalized value.
    pub value_bits: u64,
}

impl View for StateEntry {
    type V = (Seq<u8>, u64);

    open spec fn view(&self) -> (Seq<u8>, u64) {
        (self.path@, self.value_bits)
    }
}

/// The eight little-endian bytes of a 64-bit value.
pub open spec fn le_bytes(v: u64) -> Seq<u8> {
    seq![
        v as u8,
        (v >> 8) as u8,
        (v >> 16) as u8,
        (v >> 24) as u8,
        (v >> 32) as u8,
        (v >> 40) as u8,
        (v >> 48) as u8,
        (v >> 56) as u8,
    ]
}

/// The 64-bit value of eight little-endian bytes.
pub open spec fn le_value(b0: u8, b1: u8, b2: u8, b3: u8, b4: u8, b5: u8, b6: u8, b7: u8) -> u64 {
    (b0 as u64) | ((b1 as u64) << 8) | ((b2 as u64) << 16) | ((b3 as u64) << 24) | ((b4 as u64) << 32) | ((
    b5 as u64) << 40) | ((b6 as u64) << 48) | ((b7 as u64) << 56)
}

/// The 64-bit value of the first eight bytes of a sequence, little endian.
pub open spec fn le_value_of(b: Seq<u8>) -> u64 {
    le_value(b[0], b[1], b[2], b[3], b[4], b[5], b[6], b[7])
}

/// Reading back the little-endian bytes of a value gives the value.
pub proof fn lemma_le_roundtrip(v: u64)
    ensures
        le_value_of(le_bytes(v)) == v,
{
    let b = le_bytes(v);
    assert(le_value(v as u8, (v >> 8) as u8, (v >> 16) as u8, (v >> 24) as u8, (v >> 32) as u8, (v >> 40) as u8, (
    v >> 48) as u8, (v >> 56) as u8) == v) by (bit_vector);
}

/// The bytes of one entry.
pub open spec fn entry_bytes(path: Seq<u8>, value_bits: u64) -> Seq<u8> {
    seq![path.len() as u8] + path + le_bytes(value_bits)
}

/// The bytes of a sequence of entries, in order.
pub open spec fn state_bytes(entries: Seq<(Seq<u8>, u64)>) -> Seq<u8>
    decreases entries.len(),
{
    if entries.len() == 0 {
        Seq::empty()
    } else {
        state_bytes(entries.drop_last()) + entry_bytes(entries.last().0, entries.last().1)
    }
}

/// The entries read from saved data: entries are read from the front until
/// the data is used up or the next entry is incomplete; entries whose path
/// is not valid UTF-8 are skipped.
pub open spec fn decode_state_spec(data: Seq<u8>) -> Seq<(Seq<u8>, u64)>
    decreases data.len(),
{
    if data.len() == 0 {
        Seq::empty()
    } else {
        let n = data[0] as int;
        if 1 + n + 8 > data.len() {
            Seq::empty()
        } else {
            let path = data.subrange(1, 1 + n);
            let value = le_value_of(data.subrange(1 + n, 9 + n));
            let rest = decode_state_spec(data.subrange(9 + n, data.len() as int));
            if valid_utf8(path) {
                seq![(path, value)] + rest
            } else {
                rest
            }
        }
    }
}

/// Append one entry to a state buffer: the path length as one byte, the
/// path bytes, then the value's eight little-endian bytes.
pub fn append_state_entry(data: &mut Vec<u8>, path: &[u8], value_bits: u64)
    ensures
        final(data)@ == old(data)@ + entry_bytes(path@, value_bits),
{
    let ghost start = data@;
    data.push(path.len() as u8);
    let mut i: usize = 0;
    while i < path.len()
        invariant
            i <= path@.len(),
            data@ == start + seq![path@.len() as u8] + path@.subrange(0, i as int),
        decreases path@.len() - i,
    {
        data.push(path[i]);
        proof {
            assert(path@.subrange(0, i + 1) =~= path@.subrange(0, i as int).push(path@[i as int]));
        }
        i += 1;
    }
    proof {
        assert(path@.subrange(0, path@.len() as int) =~= path@);
    }
    data.push(value_bits as u8);
    data.push((value_bits >> 8) as u8);
    data.push((value_bits >> 16) as u8);
    data.push((value_bits >> 24) as u8);
    data.push((value_bits >> 32) as u8);
    data.push((value_bits >> 40) as u8);
    data.push((value_bits >> 48) as u8);
    data.push((value_bits >> 56) as u8);
    proof {
        assert(data@ =~= start + entry_bytes(path@, value_bits));
    }
}

/// Serialize entries into a new state buffer.
pub fn encode_state(entries: &[StateEntry]) -> (data: Vec<u8>)
    ensures
        data@ == state_bytes(entries@.map_values(|e: StateEntry| e@)),
{
    let mut data: Vec<u8> = Vec::new();
    let mut k: usize = 0;
    while k < entries.len()
        invariant
            k <= entries@.len(),
            data@ == state_bytes(entries@.subrange(0, k as int).map_values(|e: StateEntry| e@)),
        decreases entries@.len() - k,
    {
        proof {
            let pre = entries@.subrange(0, k as int).map_values(|e: StateEntry| e@);
            let post = entries@.subrange(0, k + 1).map_values(|e: StateEntry| e@);
            assert(post.drop_last() =~= pre);
            assert(post.last() == entries@[k as int]@);
        }
        append_state_entry(&mut data, entries[k].path.as_slice(), entries[k].value_bits);
        k += 1;
    }
    proof {
        assert(entries@.subrange(0, entries@.len() as int) =~= entries@);
    }
    data
}

/// Read eight little-endian bytes starting at `pos`.
fn read_le_u64(data: &[u8], pos: usize) -> (v: u64)
    requires
        pos + 8 <= data@.len(),
    ensures
        v == le_value_of(data@.subrange(pos as int, pos + 8)),
{
    let b0 = data[pos] as u64;
    let b1 = data[pos + 1] as u64;
    let b2 = data[pos + 2] as u64;
    let b3 = data[pos + 3] as u64;
    let b4 = data[pos + 4] as u64;
    let b5 = data[pos + 5] as u64;
    let b6 = data[pos + 6] as u64;
    let b7 = data[pos + 7] as u64;
    b0 | (b1 << 8) | (b2 << 16) | (b3 << 24) | (b4 << 32) | (b5 << 40) | (b6 << 48) | (b7 << 56)
}

/// Decoding from a position is decoding the suffix that starts there.
proof fn lemma_decode_step(data: Seq<u8>, cursor: int)
    requires
        0 <= cursor < data.len(),
    ensures
        ({
            let s = data.subrange(cursor, data.len() as int);
            let n = data[cursor] as int;
            &&& s.len() > 0
            &&& s[0] == data[cursor]
            &&& cursor + 1 + n + 8 <= data.len() ==> {
                &&& s.subrange(1, 1 + n) == data.subrange(cursor + 1, cursor + 1 + n)
                &&& s.subrange(1 + n, 9 + n) == data.subrange(cursor + 1 + n, cursor + 9 + n)
                &&& s.subrange(9 + n, s.len() as int) == data.subrange(cursor + 9 + n, data.len() as int)
            }
        }),
{
    let s = data.subrange(cursor, data.len() as int);
    let n = data[cursor] as int;
    if cursor + 1 + n + 8 <= data.len() {
        assert(s.subrange(1, 1 + n) =~= data.subrange(cursor + 1, cursor + 1 + n));
        assert(s.subrange(1 + n, 9 + n) =~= data.subrange(cursor + 1 + n, cursor + 9 + n));
        assert(s.subrange(9 + n, s.len() as int) =~= data.subrange(cursor + 9 + n, data.len() as int));
    }
}

/// Read the entries of a saved state (see [`decode_state_spec`]).
pub fn decode_state(data: &[u8]) -> (entries: Vec<StateEntry>)
    ensures
        entries@.map_values(|e: StateEntry| e@) == decode_state_spec(data@),
{
    let mut entries: Vec<StateEntry> = Vec::new();
    let mut cursor: usize = 0;
    proof {
        assert(data@.subrange(0, data@.len() as int) =~= data@);
        assert(entries@.map_values(|e: StateEntry| e@) + decode_state_spec(data@) =~= decode_state_spec(data@));
    }
    while cursor < data.len()
        invariant_except_break
            cursor <= data@.len(),
            entries@.map_values(|e: StateEntry| e@) + decode_state_spec(data@.subrange(cursor as int, data@.len() as int))
                == decode_state_spec(data@),
        ensures
            entries@.map_values(|e: StateEntry| e@) == decode_state_spec(data@),
        decreases data@.len() - cursor,
    {
        let ghost before = entries@.map_values(|e: StateEntry| e@);
        let ghost s = data@.subrange(cursor as int, data@.len() as int);
        proof {
            lemma_decode_step(data@, cursor as int);
        }
        let path_len = data[cursor] as usize;
        if path_len + 8 >= data.len() - cursor {
            proof {
                assert(decode_state_spec(s) =~= Seq::<(Seq<u8>, u64)>::empty());
                assert(before + decode_state_spec(s) =~= before);
            }
            break;
        }
        let start = cursor + 1;
        let path_bytes = vstd::slice::slice_subrange(data, start, start + path_len);
        let value_bits = read_le_u64(data, start + path_len);
        let next = start + path_len + 8;
        match str_from_utf8(path_bytes) {
            Some(_) => {
                let path = vstd::slice::slice_to_vec(path_bytes);
                entries.push(StateEntry { path, value_bits });
                proof {
                    let after = entries@.map_values(|e: StateEntry| e@);
                    assert(after =~= before.push((path_bytes@, value_bits)));
                    assert(after + decode_state_spec(data@.subrange(next as int, data@.len() as int))
                        =~= before + decode_state_spec(s));
                }
            },
            None => {
                proof {
                    assert(entries@.map_values(|e: StateEntry| e@) =~= before);
                }
            },
        }
        cursor = next;
    }
    entries
}

/// The bytes that a flat collection appends for its parameters (ID and
/// value bit pattern, in order) under a path prefix.
pub open spec fn flat_state_bytes(prefix: Seq<u8>, params: Seq<(u32, u64)>) -> Seq<u8>
    decreases params.len(),
{
    if params.len() == 0 {
        Seq::empty()
    } else {
        flat_state_bytes(prefix, params.drop_last()) + entry_bytes(
            id_path_spec(prefix, params.last().0),
            params.last().1,
        )
    }
}

/// Append the state of a flat parameter collection: one entry per
/// parameter, named by its decimal ID (as `prefix/ID` under a non-empty
/// prefix).
pub fn append_flat_state(data: &mut Vec<u8>, prefix: &[u8], params: &[(u32, u64)])
    ensures
        final(data)@ == old(data)@ + flat_state_bytes(prefix@, params@),
{
    let ghost start = data@;
    let mut k: usize = 0;
    while k < params.len()
        invariant
            k <= params@.len(),
            data@ == start + flat_state_bytes(prefix@, params@.subrange(0, k as int)),
        decreases params@.len() - k,
    {
        let (id, bits) = params[k];
        let path = id_path(prefix, id);
        append_state_entry(data, path.as_slice(), bits);
        proof {
            let pre = params@.subrange(0, k as int);
            let post = params@.subrange(0, k + 1);
            assert(post.drop_last() =~= pre);
            assert(data@ =~= start + flat_state_bytes(prefix@, post));
        }
        k += 1;
    }
    proof {
        assert(params@.subrange(0, params@.len() as int) =~= params@);
    }
}

/// The (ID, value) pairs a flat collection restores from decoded entries:
/// the entries whose path parses as a decimal ID, in order.
pub open spec fn flat_loaded(entries: Seq<(Seq<u8>, u64)>) -> Seq<(u32, u64)>
    decreases entries.len(),
{
    if entries.len() == 0 {
        Seq::empty()
    } else {
        let prev = flat_loaded(entries.drop_last());
        match parse_u32_spec(entries.last().0) {
            Some(id) => prev.push((id, entries.last().1)),
            None => prev,
        }
    }
}

/// Read the state of a flat parameter collection: the decoded entries whose
/// path is a decimal ID, as (ID, value bit pattern) pairs in order.
/// Entries with other paths are ignored.
pub fn load_flat_state(data: &[u8]) -> (r: Vec<(u32, u64)>)
    ensures
        r@ == flat_loaded(decode_state_spec(data@)),
{
    let entries = decode_state(data);
    let ghost es = entries@.map_values(|e: StateEntry| e@);
    let mut r: Vec<(u32, u64)> = Vec::new();
    let mut k: usize = 0;
    while k < entries.len()
        invariant
            k <= entries@.len(),
            es == entries@.map_values(|e: StateEntry| e@),
            r@ == flat_loaded(es.subrange(0, k as int)),
        decreases entries@.len() - k,
    {
        proof {
            assert(es.subrange(0, k + 1).drop_last() =~= es.subrange(0, k as int));
            assert(es[k as int] == entries@[k as int]@);
        }
        match parse_u32(entries[k].path.as_slice()) {
            Some(id) => r.push((id, entries[k].value_bits)),
            None => {},
        }
        k += 1;
    }
    proof {
        assert(es.subrange(0, es.len() as int) =~= es);
    }
    r
}

/// Saved entries read back exactly: decoding the bytes of entries whose
/// paths are valid UTF-8 of at most 255 bytes gives the same entries, in
/// the same order.
pub proof fn lemma_state_roundtrip(entries: Seq<(Seq<u8>, u64)>)
    requires
        forall|k: int| 0 <= k < entries.len() ==> #[trigger] entries[k].0.len() <= 255 && valid_utf8(entries[k].0),
    ensures
        decode_state_spec(state_bytes(entries)) == entries,
    decreases entries.len(),
{
    lemma_state_append_roundtrip(entries, Seq::empty());
    assert(state_bytes(entries) + Seq::<u8>::empty() =~= state_bytes(entries));
    assert(entries + Seq::<(Seq<u8>, u64)>::empty() =~= entries);
}

/// The entries a flat parameter collection saves: each parameter's decimal
/// ID as its path, with its value.
pub open spec fn flat_entries(saved: Seq<(u32, u64)>) -> Seq<(Seq<u8>, u64)> {
    saved.map_values(|p: (u32, u64)| (decimal_digits(p.0 as nat), p.1))
}

/// Saving a flat parameter collection and loading it back restores every
/// parameter: the loaded entries are the saved ones, in order, and each
/// path parses back to the ID of the parameter that was saved.
pub proof fn lemma_flat_state_roundtrip(saved: Seq<(u32, u64)>)
    ensures
        decode_state_spec(state_bytes(flat_entries(saved))) == flat_entries(saved),
        forall|k: int| 0 <= k < saved.len() ==> parse_u32_spec(#[trigger] flat_entries(saved)[k].0) == Some(saved[k].0),
        forall|k: int| 0 <= k < saved.len() ==> #[trigger] flat_entries(saved)[k].1 == saved[k].1,
{
    let entries = flat_entries(saved);
    assert forall|k: int| 0 <= k < entries.len() implies #[trigger] entries[k].0.len() <= 255 && valid_utf8(
        entries[k].0,
    ) by {
        lemma_u32_digits_short_ascii(saved[k].0);
    }
    lemma_state_roundtrip(entries);
    assert forall|k: int| 0 <= k < saved.len() implies parse_u32_spec(#[trigger] flat_entries(saved)[k].0) == Some(
        saved[k].0,
    ) by {
        lemma_format_parse_roundtrip(saved[k].0);
    }
}

/// Saving a flat collection (no prefix) with [`append_flat_state`] and
/// reading it with [`load_flat_state`] restores exactly the saved
/// (ID, value) pairs, in order.
pub proof fn lemma_flat_save_load(params: Seq<(u32, u64)>)
    ensures
        flat_loaded(decode_state_spec(flat_state_bytes(Seq::empty(), params))) == params,
{
    lemma_flat_bytes_are_entries(params);
    lemma_flat_state_roundtrip(params);
    lemma_flat_loaded_entries(params);
}

proof fn lemma_flat_bytes_are_entries(params: Seq<(u32, u64)>)
    ensures
        flat_state_bytes(Seq::empty(), params) == state_bytes(flat_entries(params)),
    decreases params.len(),
{
    if params.len() > 0 {
        lemma_flat_bytes_are_entries(params.drop_last());
        assert(flat_entries(params).drop_last() =~= flat_entries(params.drop_last()));
    }
}

proof fn lemma_flat_loaded_entries(params: Seq<(u32, u64)>)
    ensures
        flat_loaded(flat_entries(params)) == params,
    decreases params.len(),
{
    if params.len() > 0 {
        lemma_flat_loaded_entries(params.drop_last());
        assert(flat_entries(params).drop_last() =~= flat_entries(params.drop_last()));
        lemma_format_parse_roundtrip(params.last().0);
        assert(params.drop_last().push(params.last()) =~= params);
    }
}

/// Decoding the bytes of entries followed by more bytes reads the entries,
/// then whatever the rest decodes to.
#[verifier::spinoff_prover]
#[verifier::rlimit(40)]
proof fn lemma_state_append_roundtrip(entries: Seq<(Seq<u8>, u64)>, tail: Seq<u8>)
    requires
        forall|k: int| 0 <= k < entries.len() ==> #[trigger] entries[k].0.len() <= 255 && valid_utf8(entries[k].0),
    ensures
        decode_state_spec(state_bytes(entries) + tail) == entries + decode_state_spec(tail),
    decreases entries.len(),
{
    if entries.len() == 0 {
        assert(state_bytes(entries) + tail =~= tail);
        assert(entries + decode_state_spec(tail) =~= decode_state_spec(tail));
    } else {
        let first = entries[0];
        let rest = entries.drop_first();
        let eb = entry_bytes(first.0, first.1);
        lemma_state_bytes_front(entries);
        assert(state_bytes(entries) == eb + state_bytes(rest));
        assert forall|k: int| 0 <= k < rest.len() implies #[trigger] rest[k].0.len() <= 255 && valid_utf8(rest[k].0) by {
            assert(rest[k] == entries[k + 1]);
        }
        lemma_state_append_roundtrip(rest, tail);
        let data = state_bytes(entries) + tail;
        let n = first.0.len() as int;
        assert(data =~= eb + (state_bytes(rest) + tail));
        assert(entries[0].0.len() <= 255 && valid_utf8(entries[0].0));
        assert(data[0] == n as u8);
        assert(data[0] as int == n);
        assert(data.subrange(1, 1 + n) =~= first.0);
        assert(data.subrange(1 + n, 9 + n) =~= le_bytes(first.1));
        lemma_le_roundtrip(first.1);
        assert(data.subrange(9 + n, data.len() as int) =~= state_bytes(rest) + tail);
        assert(entries =~= seq![first] + rest);
        assert(seq![first] + rest + decode_state_spec(tail) =~= seq![first] + (rest + decode_state_spec(tail)));
    }
}

/// The bytes of a non-empty sequence of entries start with its first entry.
proof fn lemma_state_bytes_front(entries: Seq<(Seq<u8>, u64)>)
    requires
        entries.len() > 0,
    ensures
        state_bytes(entries) == entry_bytes(entries[0].0, entries[0].1) + state_bytes(entries.drop_first()),
    decreases entries.len(),
{
    if entries.len() == 1 {
        assert(entries.drop_first() =~= Seq::<(Seq<u8>, u64)>::empty());
        assert(entries.drop_last() =~= Seq::<(Seq<u8>, u64)>::empty());
        assert(state_bytes(entries.drop_last()) =~= Seq::<u8>::empty());
        assert(entries.last() == entries[0]);
        assert(Seq::<u8>::empty() + entry_bytes(entries[0].0, entries[0].1) =~= entry_bytes(entries[0].0, entries[0].1));
        assert(state_bytes(entries) =~= entry_bytes(entries[0].0, entries[0].1));
        assert(entry_bytes(entries[0].0, entries[0].1) + Seq::<u8>::empty() =~= entry_bytes(entries[0].0, entries[0].1));
    } else {
        let init = entries.drop_last();
        lemma_state_bytes_front(init);
        assert(init.drop_first() =~= entries.drop_first().drop_last());
        assert(entries.drop_first().last() == entries.last());
        assert(init[0] == entries[0]);
        let e0 = entry_bytes(entries[0].0, entries[0].1);
        let el = entry_bytes(entries.last().0, entries.last().1);
        assert(state_bytes(entries) == state_bytes(init) + el);
        assert(state_bytes(entries.drop_first()) == state_bytes(init.drop_first()) + el);
        assert(e0 + state_bytes(init.drop_first()) + el =~= e0 + (state_bytes(init.drop_first()) + el));
    }
}

/// Where a saved path leads within a parameter collection that may hold
/// nested groups. A path `group/rest` goes to the nested group named
/// `group` (the part before the first '/'), which reads `rest` in turn; a
/// path without '/' names a parameter of the collection by decimal ID.
#[derive(Debug)]
pub enum StateRoute {
    /// A parameter of this collection: its decimal ID, or `None` when the
    /// path is not one.
    Direct(Option<u32>),
    /// The nested group at index `group`, with the path that remains in it.
    Nested { group: usize, rest: Vec<u8> },
    /// The part before the first '/' names no nested group.
    NoSuchGroup,
}

/// Whether a byte sequence holds no '/' (byte 47).
pub open spec fn slash_free(s: Seq<u8>) -> bool {
    forall|j: int| 0 <= j < s.len() ==> s[j] != 47u8
}

fn bytes_eq(a: &[u8], b: &[u8]) -> (r: bool)
    ensures
        r == (a@ == b@),
{
    if a.len() != b.len() {
        return false;
    }
    let mut i: usize = 0;
    while i < a.len()
        invariant
            a@.len() == b@.len(),
            i <= a@.len(),
            forall|j: int| 0 <= j < i ==> a@[j] == b@[j],
        decreases a@.len() - i,
    {
        if a[i] != b[i] {
            return false;
        }
        i += 1;
    }
    assert(a@ =~= b@);
    true
}

/// Split a saved path at its first '/': the group name before it and the
/// rest after it, or `None` when the path holds no '/'.
pub fn split_group_path(path: &[u8]) -> (r: Option<(Vec<u8>, Vec<u8>)>)
    ensures
        match r {
            None => slash_free(path@),
            Some((group, rest)) => path@ == group@ + seq![47u8] + rest@ && slash_free(group@),
        },
{
    let mut k: usize = 0;
    while k < path.len() && path[k] != 47u8
        invariant
            k <= path@.len(),
            slash_free(path@.subrange(0, k as int)),
        decreases path@.len() - k,
    {
        proof {
            assert(path@.subrange(0, k + 1) =~= path@.subrange(0, k as int).push(path@[k as int]));
        }
        k += 1;
    }
    if k == path.len() {
        proof {
            assert(path@.subrange(0, k as int) =~= path@);
        }
        return None;
    }
    let group = vstd::slice::slice_to_vec(vstd::slice::slice_subrange(path, 0, k));
    let rest = vstd::slice::slice_to_vec(vstd::slice::slice_subrange(path, k + 1, path.len()));
    proof {
        assert(path@ =~= group@ + seq![47u8] + rest@);
    }
    Some((group, rest))
}

/// Route a saved path within a collection whose nested groups are named
/// `group_names` (in order): a path without '/' is a decimal parameter ID
/// of the collection; otherwise the part before the first '/' selects the
/// first nested group of that name, which receives the rest of the path.
pub fn route_state_path(path: &[u8], group_names: &Vec<Vec<u8>>) -> (r: StateRoute)
    ensures
        match r {
            StateRoute::Direct(id) => slash_free(path@) && id == parse_u32_spec(path@),
            StateRoute::Nested { group, rest } => {
                &&& group < group_names@.len()
                &&& slash_free(group_names@[group as int]@)
                &&& path@ == group_names@[group as int]@ + seq![47u8] + rest@
                &&& forall|i: int| 0 <= i < group ==> group_names@[i]@ != group_names@[group as int]@
            },
            StateRoute::NoSuchGroup => exists|g: Seq<u8>, rest: Seq<u8>|
                {
                    &&& path@ == g + seq![47u8] + rest
                    &&& slash_free(g)
                    &&& forall|i: int| 0 <= i < group_names@.len() ==> #[trigger] group_names@[i]@ != g
                },
        },
{
    match split_group_path(path) {
        None => StateRoute::Direct(parse_u32(path)),
        Some((group, rest)) => {
            let mut i: usize = 0;
            while i < group_names.len()
                invariant
                    i <= group_names@.len(),
                    path@ == group@ + seq![47u8] + rest@,
                    slash_free(group@),
                    forall|j: int| 0 <= j < i ==> #[trigger] group_names@[j]@ != group@,
                decreases group_names@.len() - i,
            {
                if bytes_eq(group_names[i].as_slice(), group.as_slice()) {
                    proof {
                        assert(group_names@[i as int]@ == group@);
                    }
                    return StateRoute::Nested { group: i, rest };
                }
                i += 1;
            }
            StateRoute::NoSuchGroup
        },
    }
}

/// Where a saved path leads within a collection whose direct parameters are
/// named by string IDs (as a derived collection saves them, e.g. `gain` or
/// `filter/cutoff`).
#[derive(Debug)]
pub enum IdRoute {
    /// The direct parameter at this index.
    Parameter(usize),
    /// A path without '/' that names no direct parameter.
    NoSuchParameter,
    /// The nested group at index `group`, with the path that remains in it.
    Nested { group: usize, rest: Vec<u8> },
    /// The part before the first '/' names no nested group.
    NoSuchGroup,
}

/// The index of the first entry of `names` equal to `s`, if any.
fn find_name(names: &Vec<Vec<u8>>, s: &[u8]) -> (r: Option<usize>)
    ensures
        match r {
            Some(i) => i < names@.len() && names@[i as int]@ == s@ && forall|j: int| 0 <= j < i ==> names@[j]@ != s@,
            None => forall|j: int| 0 <= j < names@.len() ==> #[trigger] names@[j]@ != s@,
        },
{
    let mut i: usize = 0;
    while i < names.len()
        invariant
            i <= names@.len(),
            forall|j: int| 0 <= j < i ==> #[trigger] names@[j]@ != s@,
        decreases names@.len() - i,
    {
        if bytes_eq(names[i].as_slice(), s) {
            return Some(i);
        }
        i += 1;
    }
    None
}

/// Route a saved path within a collection whose direct parameters have the
/// string IDs `parameter_ids` and whose nested groups are named
/// `group_names` (both in declaration order): a path without '/' names the
/// first direct parameter with that ID; otherwise the part before the first
/// '/' selects the first nested group of that name, which receives the rest
/// of the path.
pub fn route_state_path_by_id(path: &[u8], parameter_ids: &Vec<Vec<u8>>, group_names: &Vec<Vec<u8>>) -> (r: IdRoute)
    ensures
        match r {
            IdRoute::Parameter(i) => {
                &&& slash_free(path@)
                &&& i < parameter_ids@.len()
                &&& parameter_ids@[i as int]@ == path@
                &&& forall|j: int| 0 <= j < i ==> parameter_ids@[j]@ != path@
            },
            IdRoute::NoSuchParameter => slash_free(path@) && forall|j: int|
                0 <= j < parameter_ids@.len() ==> #[trigger] parameter_ids@[j]@ != path@,
            IdRoute::Nested { group, rest } => {
                &&& group < group_names@.len()
                &&& slash_free(group_names@[group as int]@)
                &&& path@ == group_names@[group as int]@ + seq![47u8] + rest@
                &&& forall|i: int| 0 <= i < group ==> group_names@[i]@ != group_names@[group as int]@
            },
            IdRoute::NoSuchGroup => exists|g: Seq<u8>, rest: Seq<u8>|
                {
                    &&& path@ == g + seq![47u8] + rest
                    &&& slash_free(g)
                    &&& forall|i: int| 0 <= i < group_names@.len() ==> #[trigger] group_names@[i]@ != g
                },
        },
{
    match split_group_path(path) {
        None => match find_name(parameter_ids, path) {
            Some(i) => IdRoute::Parameter(i),
            None => IdRoute::NoSuchParameter,
        },
        Some((group, rest)) => match find_name(group_names, group.as_slice()) {
            Some(g) => IdRoute::Nested { group: g, rest },
            None => IdRoute::NoSuchGroup,
        },
    }
}

/// The path under which a collection saves a parameter or names a nested
/// group: the name itself at the top level, `prefix/name` below it.
pub open spec fn joined_path(prefix: Seq<u8>, name: Seq<u8>) -> Seq<u8> {
    if prefix.len() == 0 {
        name
    } else {
        prefix + seq![47u8] + name
    }
}

/// Join a path prefix and a name (see [`joined_path`]).
pub fn join_state_path(prefix: &[u8], name: &[u8]) -> (r: Vec<u8>)
    ensures
        r@ == joined_path(prefix@, name@),
{
    let mut r: Vec<u8> = Vec::new();
    if prefix.len() > 0 {
        r = vstd::slice::slice_to_vec(prefix);
        r.push(47u8);
    }
    let mut i: usize = 0;
    let ghost start = r@;
    while i < name.len()
        invariant
            i <= name@.len(),
            r@ == start + name@.subrange(0, i as int),
        decreases name@.len() - i,
    {
        r.push(name[i]);
        proof {
            assert(name@.subrange(0, i + 1) =~= name@.subrange(0, i as int).push(name@[i as int]));
        }
        i += 1;
    }
    proof {
        assert(name@.subrange(0, name@.len() as int) =~= name@);
        assert(prefix@.len() == 0 ==> start =~= Seq::<u8>::empty());
    }
    r
}

/// A parameter saved by its string ID under a group comes back to it: when
/// the group name and the ID hold no '/', the joined path splits at its
/// first '/' into exactly the group name and the ID.
pub proof fn lemma_joined_path_splits_back(group: Seq<u8>, id: Seq<u8>, g: Seq<u8>, rest: Seq<u8>)
    requires
        group.len() > 0,
        slash_free(group),
        slash_free(g),
        joined_path(group, id) == g + seq![47u8] + rest,
    ensures
        g == group,
        rest == id,
{
    lemma_split_is_unique(group, id, g, rest);
}

/// The first '/' of a path decides its route: the group name and the rest
/// of a path are the same whichever way the path is split at a '/' with
/// none before it.
pub proof fn lemma_split_is_unique(g1: Seq<u8>, r1: Seq<u8>, g2: Seq<u8>, r2: Seq<u8>)
    requires
        g1 + seq![47u8] + r1 == g2 + seq![47u8] + r2,
        slash_free(g1),
        slash_free(g2),
    ensures
        g1 == g2,
        r1 == r2,
{
    let p = g1 + seq![47u8] + r1;
    if g1.len() < g2.len() {
        assert(p[g1.len() as int] == 47u8);
        assert(g2[g1.len() as int] == p[g1.len() as int]);
    } else if g2.len() < g1.len() {
        assert(p[g2.len() as int] == 47u8);
        assert(g1[g2.len() as int] == p[g2.len() as int]);
    }
    assert(g1 =~= p.subrange(0, g1.len() as int));
    assert(g2 =~= p.subrange(0, g2.len() as int));
    assert(r1 =~= p.subrange(g1.len() as int + 1, p.len() as int));
    assert(r2 =~= p.subrange(g2.len() as int + 1, p.len() as int));
}

/// A parameter saved under a group comes back to it: the path of ID `id`
/// under a non-empty group name without '/' is that name, a '/', and the
/// decimal ID, which holds no '/' and reads back as `id`. So routing the
/// path leads to the group (when the collection has one of that name), and
/// routing the rest there names the parameter `id`.
pub proof fn lemma_group_path_routes_back(group: Seq<u8>, id: u32)
    requires
        group.len() > 0,
        slash_free(group),
    ensures
        id_path_spec(group, id) == group + seq![47u8] + decimal_digits(id as nat),
        slash_free(decimal_digits(id as nat)),
        parse_u32_spec(decimal_digits(id as nat)) == Some(id),
{
    lemma_decimal_digits_are_digits(id as nat);
    lemma_format_parse_roundtrip(id);
    assert(group.push(47u8) =~= group + seq![47u8]);
}

} // verus!

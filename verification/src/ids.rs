//! Parameter ID validation: string IDs must be unique, and no two of them
//! may hash to the same 32-bit parameter ID.

use vstd::prelude::*;
use crate::hash::{fnv1a_32, fnv1a_str};
use crate::text::str_eq;

verus! {

/// Why a set of parameter IDs was rejected.
#[derive(Debug, Clone, Copy, PartialEq, Eq, Structural)]
pub enum IdError {
    /// The string ID at `index` repeats the one at `first`.
    DuplicateId {
        /// Position of the repeated ID.
        index: usize,
        /// Position of its first occurrence.
        first: usize,
    },
    /// The ID at `index` hashes to the same value as the one at `first`.
    HashCollision {
        /// Position of the colliding ID.
        index: usize,
        /// Position of the earlier ID with the same hash.
        first: usize,
    },
}

/// Whether the first `n` elements of a sequence are pairwise distinct.
pub open spec fn distinct_prefix<T>(s: Seq<T>, n: int) -> bool {
    forall|a: int, b: int| 0 <= a < b < n ==> s[a] != s[b]
}

/// The first repetition in a sequence, as (position, position of the
/// earlier equal element): the smallest position whose element occurred
/// before it.
pub open spec fn first_repeat<T>(s: Seq<T>, index: int, first: int) -> bool {
    &&& 0 <= first < index < s.len()
    &&& s[first] == s[index]
    &&& distinct_prefix(s, index)
}

/// Find the first repeated value in a sequence of hashes.
pub fn find_repeat_u32(values: &[u32]) -> (r: Option<(usize, usize)>)
    ensures
        r is None <==> distinct_prefix(values@, values@.len() as int),
        r matches Some(p) ==> first_repeat(values@, p.0 as int, p.1 as int),
{
    let mut i: usize = 0;
    while i < values.len()
        invariant
            i <= values@.len(),
            distinct_prefix(values@, i as int),
        decreases values@.len() - i,
    {
        let mut j: usize = 0;
        while j < i
            invariant
                i < values@.len(),
                j <= i,
                distinct_prefix(values@, i as int),
                forall|k: int| 0 <= k < j ==> values@[k] != values@[i as int],
            decreases i - j,
        {
            if values[j] == values[i] {
                return Some((i, j));
            }
            j += 1;
        }
        i += 1;
    }
    None
}

/// Find the first repeated string in a sequence of strings.
pub fn find_repeat_str(values: &[&str]) -> (r: Option<(usize, usize)>)
    ensures
        r is None <==> distinct_prefix(values@.map_values(|s: &str| s@), values@.len() as int),
        r matches Some(p) ==> first_repeat(values@.map_values(|s: &str| s@), p.0 as int, p.1 as int),
{
    let ghost views = values@.map_values(|s: &str| s@);
    let mut i: usize = 0;
    while i < values.len()
        invariant
            i <= values@.len(),
            views == values@.map_values(|s: &str| s@),
            distinct_prefix(views, i as int),
        decreases values@.len() - i,
    {
        let mut j: usize = 0;
        while j < i
            invariant
                i < values@.len(),
                j <= i,
                views == values@.map_values(|s: &str| s@),
                distinct_prefix(views, i as int),
                forall|k: int| 0 <= k < j ==> views[k] != views[i as int],
            decreases i - j,
        {
            if str_eq(values[j], values[i]) {
                proof {
                    assert(views[j as int] == values@[j as int]@);
                    assert(views[i as int] == values@[i as int]@);
                    assert(!distinct_prefix(views, values@.len() as int));
                }
                return Some((i, j));
            }
            j += 1;
        }
        i += 1;
    }
    None
}

/// Check a struct's parameter string IDs and compute their 32-bit IDs.
///
/// Fails with the first duplicated string ID, otherwise with the first ID
/// whose FNV-1a hash equals an earlier one's; on success returns the hash
/// of every ID, in order, all distinct.
pub fn validate_parameter_ids(ids: &[&str]) -> (r: Result<Vec<u32>, IdError>)
    ensures
        r matches Ok(hashes) ==> {
            &&& distinct_prefix(ids@.map_values(|s: &str| s@), ids@.len() as int)
            &&& hashes@.len() == ids@.len()
            &&& forall|k: int| 0 <= k < ids@.len() ==> hashes@[k] == fnv1a_str(ids@[k])
            &&& distinct_prefix(hashes@, hashes@.len() as int)
        },
        r matches Err(IdError::DuplicateId { index, first }) ==> first_repeat(
            ids@.map_values(|s: &str| s@),
            index as int,
            first as int,
        ),
        r matches Err(IdError::HashCollision { index, first }) ==> {
            &&& distinct_prefix(ids@.map_values(|s: &str| s@), ids@.len() as int)
            &&& first_repeat(ids@.map_values(|s: &str| fnv1a_str(s)), index as int, first as int)
        },
        (r is Ok) <==> (distinct_prefix(ids@.map_values(|s: &str| s@), ids@.len() as int)
            && distinct_prefix(ids@.map_values(|s: &str| fnv1a_str(s)), ids@.len() as int)),
{
    match find_repeat_str(ids) {
        Some((index, first)) => {
            return Err(IdError::DuplicateId { index, first });
        },
        None => {},
    }
    let mut hashes: Vec<u32> = Vec::new();
    let mut k: usize = 0;
    while k < ids.len()
        invariant
            k <= ids@.len(),
            hashes@.len() == k,
            forall|j: int| 0 <= j < k ==> hashes@[j] == fnv1a_str(ids@[j]),
        decreases ids@.len() - k,
    {
        hashes.push(fnv1a_32(ids[k]));
        k += 1;
    }
    proof {
        assert(hashes@ =~= ids@.map_values(|s: &str| fnv1a_str(s)));
    }
    match find_repeat_u32(hashes.as_slice()) {
        Some((index, first)) => Err(IdError::HashCollision { index, first }),
        None => Ok(hashes),
    }
}

} // verus!

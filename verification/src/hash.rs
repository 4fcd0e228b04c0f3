//! FNV-1a hashing used to derive stable 32-bit parameter identifiers from
//! string identifiers.

use vstd::prelude::*;
use vstd::string::StringSliceAdditionalSpecFns;

verus! {

/// FNV-1a 32-bit offset basis.
pub const FNV_OFFSET: u32 = 2166136261;

/// FNV-1a 32-bit prime.
pub const FNV_PRIME: u32 = 16777619;

/// One FNV-1a round: xor the byte into the state, then multiply by the prime
/// modulo 2^32.
pub open spec fn fnv1a_step(hash: u32, byte: u8) -> u32 {
    (hash ^ (byte as u32)).wrapping_mul(FNV_PRIME)
}

/// FNV-1a hash of a byte sequence: the rounds applied left to right,
/// starting from the offset basis.
pub open spec fn fnv1a_bytes(bytes: Seq<u8>) -> u32
    decreases bytes.len(),
{
    if bytes.len() == 0 {
        FNV_OFFSET
    } else {
        fnv1a_step(fnv1a_bytes(bytes.drop_last()), bytes.last())
    }
}

/// FNV-1a hash of a string, taken over its UTF-8 encoding.
pub open spec fn fnv1a_str(s: &str) -> u32 {
    fnv1a_bytes(s.spec_bytes())
}

/// Compute the FNV-1a 32-bit hash of a string (over its UTF-8 bytes).
///
/// The same string always gives the same identifier; the derive layer
/// rejects parameter sets in which two identifiers collide.
pub fn fnv1a_32(s: &str) -> (hash: u32)
    ensures
        hash == fnv1a_str(s),
{
    let bytes = s.as_bytes();
    let mut hash: u32 = FNV_OFFSET;
    let mut i: usize = 0;
    while i < bytes.len()
        invariant
            bytes@ == s.spec_bytes(),
            i <= bytes@.len(),
            hash == fnv1a_bytes(bytes@.subrange(0, i as int)),
        decreases bytes@.len() - i,
    {
        proof {
            let next = bytes@.subrange(0, i + 1);
            assert(next.drop_last() =~= bytes@.subrange(0, i as int));
            assert(next.last() == bytes@[i as int]);
        }
        hash ^= bytes[i] as u32;
        hash = hash.wrapping_mul(FNV_PRIME);
        i += 1;
    }
    proof {
        assert(bytes@.subrange(0, bytes@.len() as int) =~= bytes@);
    }
    hash
}

} // verus!

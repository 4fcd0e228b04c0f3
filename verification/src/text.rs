//! Byte and string helpers shared by the MIDI and parameter modules.

use vstd::prelude::*;
use vstd::string::StringSliceAdditionalSpecFns;
use vstd::utf8::{
    decode_utf8, encode_utf8, encode_utf8_decode_utf8, encode_utf8_valid_utf8, valid_utf8, is_char_boundary,
    is_continuation_byte, valid_utf8_split, is_char_boundary_iff_not_is_continuation_byte,
    partial_valid_partial_invalid_utf8,
};

verus! {

/// Two strings are equal exactly when their UTF-8 encodings are.
pub proof fn lemma_str_eq_iff_bytes_eq(a: &str, b: &str)
    ensures
        (a@ == b@) <==> (a.spec_bytes() == b.spec_bytes()),
{
    encode_utf8_decode_utf8(a@);
    encode_utf8_decode_utf8(b@);
}

/// Compare two strings for equality.
pub fn str_eq(a: &str, b: &str) -> (r: bool)
    ensures
        r == (a@ == b@),
{
    proof {
        lemma_str_eq_iff_bytes_eq(a, b);
    }
    let ab = a.as_bytes();
    let bb = b.as_bytes();
    if ab.len() != bb.len() {
        return false;
    }
    let mut i: usize = 0;
    while i < ab.len()
        invariant
            ab@ == a.spec_bytes(),
            bb@ == b.spec_bytes(),
            ab@.len() == bb@.len(),
            i <= ab@.len(),
            forall|j: int| 0 <= j < i ==> ab@[j] == bb@[j],
        decreases ab@.len() - i,
    {
        if ab[i] != bb[i] {
            return false;
        }
        i += 1;
    }
    assert(ab@ =~= bb@);
    true
}

/// `std::str::from_utf8`: the bytes read as a string slice when they form
/// valid UTF-8, `None` otherwise. The contract claims that the result is
/// present exactly for valid UTF-8 and then encodes back to the same bytes
/// (so its characters are the decoding of the bytes).
#[verifier::external_body]
pub fn str_from_utf8(bytes: &[u8]) -> (r: Option<&str>)
    ensures
        r is Some <==> valid_utf8(bytes@),
        r matches Some(s) ==> s.spec_bytes() == bytes@,
{
    std::str::from_utf8(bytes).ok()
}

/// The characters of a byte buffer read as UTF-8, or the empty string when
/// the bytes are not valid UTF-8.
pub open spec fn utf8_or_empty(bytes: Seq<u8>) -> Seq<char> {
    if valid_utf8(bytes) {
        decode_utf8(bytes)
    } else {
        Seq::empty()
    }
}

/// Read the first `len` bytes of a buffer as a string slice, falling back to
/// the empty string when they are not valid UTF-8.
pub fn utf8_prefix_or_empty(buf: &[u8], len: usize) -> (r: &str)
    requires
        len <= buf@.len(),
    ensures
        r@ == utf8_or_empty(buf@.subrange(0, len as int)),
{
    let prefix = vstd::slice::slice_subrange(buf, 0, len);
    match str_from_utf8(prefix) {
        Some(s) => {
            proof {
                encode_utf8_decode_utf8(s@);
            }
            s
        },
        None => {
            proof {
                reveal_strlit("");
            }
            ""
        },
    }
}

/// Copy the first `min(src.len(), N)` bytes of a string into a zeroed
/// fixed-size buffer, returning the buffer and the number of bytes copied.
pub fn copy_str_truncated<const N: usize>(src: &str) -> (r: ([u8; N], usize))
    ensures
        r.1 == if src.spec_bytes().len() < N { src.spec_bytes().len() } else { N as nat },
        r.0@.len() == N,
        forall|i: int| 0 <= i < r.1 ==> r.0@[i] == src.spec_bytes()[i],
        forall|i: int| r.1 <= i < N ==> r.0@[i] == 0,
{
    let bytes = src.as_bytes();
    let len: usize = if bytes.len() < N {
        bytes.len()
    } else {
        N
    };
    let mut buf: [u8; N] = [0u8; N];
    let mut i: usize = 0;
    while i < len
        invariant
            bytes@ == src.spec_bytes(),
            len <= bytes@.len(),
            len <= N,
            i <= len,
            buf@.len() == N,
            forall|j: int| 0 <= j < i ==> buf@[j] == bytes@[j],
            forall|j: int| i <= j < N ==> buf@[j] == 0,
        decreases len - i,
    {
        buf[i] = bytes[i];
        i += 1;
    }
    (buf, len)
}

/// What the first `n` bytes of a string read back as: the whole string
/// when it has at most `n` bytes; otherwise its first `n` bytes when byte
/// `n` starts a character, and the empty string when it does not.
pub open spec fn truncated_text(s: &str, n: nat) -> Seq<char> {
    if s.spec_bytes().len() <= n {
        s@
    } else if is_char_boundary(s.spec_bytes(), n as int) {
        decode_utf8(s.spec_bytes().subrange(0, n as int))
    } else {
        Seq::empty()
    }
}

/// Reading the first `n` bytes of a string as UTF-8 (or the empty string
/// when they are not valid) gives [`truncated_text`]: a string cut at a
/// character boundary reads as its prefix, and a string cut inside a
/// character reads as empty.
pub proof fn lemma_truncated_text(s: &str, n: nat)
    ensures
        utf8_or_empty(
            s.spec_bytes().subrange(
                0,
                if s.spec_bytes().len() <= n {
                    s.spec_bytes().len() as int
                } else {
                    n as int
                },
            ),
        ) == truncated_text(s, n),
{
    let b = s.spec_bytes();
    encode_utf8_valid_utf8(s@);
    if b.len() <= n {
        assert(b.subrange(0, b.len() as int) =~= b);
        encode_utf8_decode_utf8(s@);
    } else if is_char_boundary(b, n as int) {
        valid_utf8_split(b, n as int);
    } else {
        if valid_utf8(b.subrange(0, n as int)) {
            is_char_boundary_iff_not_is_continuation_byte(b, n as int);
            let rest = b.subrange(n as int, b.len() as int);
            assert(rest[0] == b[n as int]);
            assert(is_continuation_byte(rest[0]));
            assert(!valid_utf8(rest));
            partial_valid_partial_invalid_utf8(b, n as int);
        }
    }
}

/// Copy the first `min(len, N)` bytes of a string into the front of a
/// buffer and return how many were copied; the rest of the buffer is left
/// as it was.
pub fn copy_str_prefix_into<const N: usize>(buf: &mut [u8; N], src: &str) -> (len: usize)
    ensures
        len == if src.spec_bytes().len() < N { src.spec_bytes().len() } else { N as nat },
        final(buf)@.len() == N,
        forall|i: int| 0 <= i < len ==> final(buf)@[i] == src.spec_bytes()[i],
        forall|i: int| len <= i < N ==> final(buf)@[i] == old(buf)@[i],
{
    let bytes = src.as_bytes();
    let len: usize = if bytes.len() < N {
        bytes.len()
    } else {
        N
    };
    let mut i: usize = 0;
    while i < len
        invariant
            bytes@ == src.spec_bytes(),
            len <= bytes@.len(),
            len <= N,
            i <= len,
            buf@.len() == N,
            forall|j: int| 0 <= j < i ==> buf@[j] == bytes@[j],
            forall|j: int| i <= j < N ==> buf@[j] == old(buf)@[j],
        decreases len - i,
    {
        buf[i] = bytes[i];
        i += 1;
    }
    len
}

} // verus!

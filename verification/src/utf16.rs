//! Conversion of host UTF-16 strings into UTF-8 bytes written to a fixed
//! buffer.
//!
//! The conversion stops at the first NUL unit or at the first character
//! that no longer fits. A surrogate unit is replaced by U+FFFD, so every
//! unit stands for exactly one character.

use vstd::prelude::*;
use vstd::utf8::{
    encode_scalar, leading_byte_width_1, leading_byte_width_2, leading_byte_width_3,
    second_last_continuation_byte, last_continuation_byte, encode_utf8, valid_utf8,
};

verus! {

/// The character a UTF-16 unit stands for: the unit itself, or U+FFFD for
/// a surrogate.
pub open spec fn unit_scalar(u: u16) -> u32 {
    if 0xD800 <= u <= 0xDFFF { 0xFFFD } else { u as u32 }
}

/// The UTF-8 bytes that the conversion of `units` writes into `room`
/// bytes: the encoding of each unit in turn, up to the first NUL unit and
/// up to the first character whose encoding no longer fits.
pub open spec fn utf16_units_to_utf8(units: Seq<u16>, room: int) -> Seq<u8>
    decreases units.len(),
{
    if units.len() == 0 || units[0] == 0 {
        seq![]
    } else {
        let e = encode_scalar(unit_scalar(units[0]));
        if e.len() > room {
            seq![]
        } else {
            e + utf16_units_to_utf8(units.drop_first(), room - e.len())
        }
    }
}

/// The characters that the conversion of `units` into `room` bytes
/// encodes, in order.
pub open spec fn utf16_units_chars(units: Seq<u16>, room: int) -> Seq<char>
    decreases units.len(),
{
    if units.len() == 0 || units[0] == 0 {
        seq![]
    } else {
        let e = encode_scalar(unit_scalar(units[0]));
        if e.len() > room {
            seq![]
        } else {
            seq![unit_scalar(units[0]) as char] + utf16_units_chars(units.drop_first(), room - e.len())
        }
    }
}

proof fn lemma_unfold_skip(units: Seq<u16>, i: int)
    requires
        0 <= i < units.len(),
    ensures
        units.skip(i)[0] == units[i],
        units.skip(i).drop_first() == units.skip(i + 1),
{
    assert(units.skip(i).drop_first() =~= units.skip(i + 1));
}

/// Converts UTF-16 units to UTF-8, writing into `utf8_buf`, and returns
/// the number of bytes written. Bytes past that count are left unchanged.
pub fn utf16_to_utf8(utf16: &[u16], utf8_buf: &mut [u8]) -> (n: usize)
    ensures
        n == utf16_units_to_utf8(utf16@, old(utf8_buf)@.len() as int).len(),
        final(utf8_buf)@.len() == old(utf8_buf)@.len(),
        final(utf8_buf)@.take(n as int) == utf16_units_to_utf8(utf16@, old(utf8_buf)@.len() as int),
        final(utf8_buf)@.skip(n as int) == old(utf8_buf)@.skip(n as int),
{
    let ghost total = old(utf8_buf)@.len() as int;
    let ghost whole = utf16_units_to_utf8(utf16@, total);
    let mut utf8_pos: usize = 0;
    let mut i: usize = 0;
    proof {
        assert(utf16@.skip(0) =~= utf16@);
        assert(utf8_buf@.take(0) + utf16_units_to_utf8(utf16@.skip(0), total) =~= whole);
    }
    while i < utf16.len()
        invariant_except_break
            i <= utf16@.len(),
            utf8_pos <= total,
            utf8_buf@.len() == total,
            total == old(utf8_buf)@.len(),
            whole == utf16_units_to_utf8(utf16@, total),
            utf8_buf@.take(utf8_pos as int) + utf16_units_to_utf8(utf16@.skip(i as int), total - utf8_pos)
                == whole,
            utf8_buf@.skip(utf8_pos as int) == old(utf8_buf)@.skip(utf8_pos as int),
        ensures
            utf8_pos <= total,
            utf8_buf@.len() == total,
            utf8_buf@.take(utf8_pos as int) == whole,
            utf8_buf@.skip(utf8_pos as int) == old(utf8_buf)@.skip(utf8_pos as int),
        decreases utf16@.len() - i,
    {
        let code_unit = utf16[i];
        proof {
            lemma_unfold_skip(utf16@, i as int);
        }
        if code_unit == 0 {
            proof {
                assert(utf8_buf@.take(utf8_pos as int) + Seq::<u8>::empty() =~= utf8_buf@.take(utf8_pos as int));
            }
            break;
        }
        let bytes_needed: usize;
        let char_value: u32;
        if code_unit < 0x80 {
            bytes_needed = 1;
            char_value = code_unit as u32;
        } else if code_unit < 0x800 {
            bytes_needed = 2;
            char_value = code_unit as u32;
        } else if 0xD800 <= code_unit && code_unit <= 0xDFFF {
            bytes_needed = 3;
            char_value = 0xFFFD;
        } else {
            bytes_needed = 3;
            char_value = code_unit as u32;
        }
        let ghost e = encode_scalar(unit_scalar(code_unit));
        assert(char_value == unit_scalar(code_unit));
        assert(e.len() == bytes_needed);
        if bytes_needed > utf8_buf.len() - utf8_pos {
            proof {
                assert(utf8_buf@.take(utf8_pos as int) + Seq::<u8>::empty() =~= utf8_buf@.take(utf8_pos as int));
            }
            break;
        }
        let ghost before = utf8_buf@;
        if bytes_needed == 1 {
            let b0: u8 = char_value as u8;
            assert(b0 == leading_byte_width_1(char_value)) by (bit_vector)
                requires
                    char_value < 0x80,
                    b0 == char_value as u8,
            ;
            utf8_buf[utf8_pos] = b0;
        } else if bytes_needed == 2 {
            let b0: u8 = (0xC0 | (char_value >> 6)) as u8;
            let b1: u8 = (0x80 | (char_value & 0x3F)) as u8;
            assert(b0 == leading_byte_width_2(char_value) && b1 == last_continuation_byte(char_value))
                by (bit_vector)
                requires
                    0x80 <= char_value < 0x800,
                    b0 == (0xC0 | (char_value >> 6)) as u8,
                    b1 == (0x80 | (char_value & 0x3F)) as u8,
            ;
            utf8_buf[utf8_pos] = b0;
            utf8_buf[utf8_pos + 1] = b1;
        } else {
            let b0: u8 = (0xE0 | (char_value >> 12)) as u8;
            let b1: u8 = (0x80 | ((char_value >> 6) & 0x3F)) as u8;
            let b2: u8 = (0x80 | (char_value & 0x3F)) as u8;
            assert(b0 == leading_byte_width_3(char_value) && b1 == second_last_continuation_byte(
                char_value,
            ) && b2 == last_continuation_byte(char_value)) by (bit_vector)
                requires
                    0x800 <= char_value <= 0xFFFF,
                    b0 == (0xE0 | (char_value >> 12)) as u8,
                    b1 == (0x80 | ((char_value >> 6) & 0x3F)) as u8,
                    b2 == (0x80 | (char_value & 0x3F)) as u8,
            ;
            utf8_buf[utf8_pos] = b0;
            utf8_buf[utf8_pos + 1] = b1;
            utf8_buf[utf8_pos + 2] = b2;
        }
        let new_pos = utf8_pos + bytes_needed;
        proof {
            assert(utf8_buf@.subrange(utf8_pos as int, new_pos as int) =~= e);
            assert(utf8_buf@.take(new_pos as int) =~= before.take(utf8_pos as int) + e);
            assert(utf8_buf@.take(utf8_pos as int) =~= before.take(utf8_pos as int));
            assert(utf8_buf@.skip(new_pos as int) =~= old(utf8_buf)@.skip(new_pos as int)) by {
                assert(before.skip(utf8_pos as int) == old(utf8_buf)@.skip(utf8_pos as int));
                assert forall|k: int| 0 <= k < total - new_pos implies
                    #[trigger] utf8_buf@.skip(new_pos as int)[k] == old(utf8_buf)@.skip(new_pos as int)[k] by {
                    assert(before.skip(utf8_pos as int)[k + bytes_needed] == old(utf8_buf)@.skip(utf8_pos as int)[k + bytes_needed]);
                }
            }
            assert(utf8_buf@.take(new_pos as int) + utf16_units_to_utf8(utf16@.skip(i + 1), total - new_pos)
                =~= whole);
        }
        utf8_pos = new_pos;
        i = i + 1;
    }
    utf8_pos
}

/// The bytes written are the UTF-8 encoding of the characters the units
/// stand for, so they are always valid UTF-8.
pub proof fn lemma_utf16_output_is_utf8(units: Seq<u16>, room: int)
    ensures
        utf16_units_to_utf8(units, room) == encode_utf8(utf16_units_chars(units, room)),
        valid_utf8(utf16_units_to_utf8(units, room)),
    decreases units.len(),
{
    if units.len() == 0 || units[0] == 0 {
    } else {
        let s = unit_scalar(units[0]);
        let e = encode_scalar(s);
        if e.len() > room {
        } else {
            lemma_utf16_output_is_utf8(units.drop_first(), room - e.len());
            let c = s as char;
            assert((c as u32) == s);
            let chars = utf16_units_chars(units, room);
            assert(chars.drop_first() =~= utf16_units_chars(units.drop_first(), room - e.len()));
        }
    }
    vstd::utf8::encode_utf8_valid_utf8(utf16_units_chars(units, room));
}

} // verus!

//! 14-bit MIDI value helpers: combining and splitting MSB/LSB pairs.

use vstd::prelude::*;

verus! {

/// Combine two raw 7-bit values into a 14-bit value: `msb << 7 | (lsb & 0x7F)`.
pub fn combine_14bit_raw(msb: u8, lsb: u8) -> (r: u16)
    ensures
        r == (((msb as u16) << 7) | ((lsb as u16) & 0x7F)) as u16,
        msb < 128 ==> r == msb as int * 128 + (lsb as int % 128),
{
    let r: u16 = ((msb as u16) << 7) | ((lsb as u16) & 0x7F);
    assert(msb < 128 ==> r == msb as int * 128 + (lsb as int % 128)) by (bit_vector)
        requires
            r == ((msb as u16) << 7) | ((lsb as u16) & 0x7F),
    ;
    r
}

/// Split a 14-bit value into its MSB and LSB, both 7-bit.
pub fn split_14bit_raw(value: u16) -> (r: (u8, u8))
    ensures
        r.0 == (value >> 7) & 0x7F,
        r.1 == value & 0x7F,
        r.0 < 128,
        r.1 < 128,
        value < 16384 ==> r.0 as int == value as int / 128 && r.1 as int == value as int % 128,
{
    let msb: u8 = ((value >> 7) & 0x7F) as u8;
    let lsb: u8 = (value & 0x7F) as u8;
    assert(((value >> 7) & 0x7F) < 128 && (value & 0x7F) < 128) by (bit_vector);
    assert(value < 16384 ==> ((value >> 7) & 0x7F) == value / 128 && (value & 0x7F) == value % 128)
        by (bit_vector);
    (msb, lsb)
}

/// Combining the two halves of a split 14-bit value gives the value back.
pub proof fn lemma_combine_split(value: u16)
    requires
        value < 16384,
    ensures
        ((((((value >> 7) & 0x7F) as u8) as u16) << 7) | (((value & 0x7F) as u8) as u16 & 0x7F)) as u16 == value,
{
    assert(((((((value >> 7) & 0x7F) as u8) as u16) << 7) | (((value & 0x7F) as u8) as u16 & 0x7F)) as u16 == value)
        by (bit_vector)
        requires
            value < 16384,
    ;
}

/// Splitting a combined pair of 7-bit values gives the pair back.
pub proof fn lemma_split_combine(msb: u8, lsb: u8)
    requires
        msb < 128,
        lsb < 128,
    ensures
        ({
            let v = (((msb as u16) << 7) | ((lsb as u16) & 0x7F)) as u16;
            &&& v < 16384
            &&& ((v >> 7) & 0x7F) == msb
            &&& (v & 0x7F) == lsb
        }),
{
    assert({
        let v = (((msb as u16) << 7) | ((lsb as u16) & 0x7F)) as u16;
        &&& v < 16384
        &&& ((v >> 7) & 0x7F) == msb as u16
        &&& (v & 0x7F) == lsb as u16
    }) by (bit_vector)
        requires
            msb < 128,
            lsb < 128,
    ;
}

} // verus!

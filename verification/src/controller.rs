//! Classification of MIDI controller numbers: 14-bit MSB/LSB pairs and the
//! controllers that take part in RPN/NRPN sequences.

use vstd::prelude::*;
use crate::rpn::{
    DATA_ENTRY_MSB, DATA_ENTRY_LSB, DATA_INCREMENT, DATA_DECREMENT, NRPN_LSB, NRPN_MSB, RPN_LSB,
    RPN_MSB,
};

verus! {

/// Whether a controller is the MSB half (CC 0-31) of a 14-bit pair.
pub fn is_14bit_msb(controller: u8) -> (r: bool)
    ensures
        r == (controller < 32),
{
    controller < 32
}

/// Whether a controller is the LSB half (CC 32-63) of a 14-bit pair.
pub fn is_14bit_lsb(controller: u8) -> (r: bool)
    ensures
        r == (32 <= controller < 64),
{
    controller >= 32 && controller < 64
}

/// The LSB controller paired with an MSB controller (CC 0-31 to CC 32-63).
pub open spec fn lsb_of(controller: u8) -> Option<u8> {
    if controller < 32 { Some((controller + 32) as u8) } else { None }
}

/// The MSB controller paired with an LSB controller (CC 32-63 to CC 0-31).
pub open spec fn msb_of(controller: u8) -> Option<u8> {
    if 32 <= controller < 64 { Some((controller - 32) as u8) } else { None }
}

/// The LSB controller paired with an MSB controller (CC 0-31 to CC 32-63).
pub fn lsb_pair(controller: u8) -> (r: Option<u8>)
    ensures
        r == lsb_of(controller),
{
    if controller < 32 {
        Some(controller + 32)
    } else {
        None
    }
}

/// The MSB controller paired with an LSB controller (CC 32-63 to CC 0-31).
pub fn msb_pair(controller: u8) -> (r: Option<u8>)
    ensures
        r == msb_of(controller),
{
    if controller >= 32 && controller < 64 {
        Some(controller - 32)
    } else {
        None
    }
}

/// Whether a controller takes part in an RPN/NRPN sequence: data entry
/// (CC 6, 38), increment/decrement (CC 96, 97) or parameter selection
/// (CC 98-101).
pub fn is_rpn_nrpn_related(controller: u8) -> (r: bool)
    ensures
        r == (controller == 6 || controller == 38 || (96 <= controller <= 101)),
{
    controller == DATA_ENTRY_MSB || controller == DATA_ENTRY_LSB || controller == DATA_INCREMENT
        || controller == DATA_DECREMENT || controller == NRPN_LSB || controller == NRPN_MSB
        || controller == RPN_LSB || controller == RPN_MSB
}

/// The 14-bit pairing is a bijection between CC 0-31 and CC 32-63: each
/// MSB's LSB pairs back to it, and each LSB's MSB pairs back to it.
pub proof fn lemma_pairs_are_inverse(controller: u8)
    ensures
        lsb_of(controller) matches Some(l) ==> msb_of(l) == Some(controller),
        msb_of(controller) matches Some(m) ==> lsb_of(m) == Some(controller),
{
}

} // verus!

//! Controller output in the host's legacy MIDI CC form: a control number
//! with one or two signed 7-bit values, where the control numbers above
//! 127 stand for channel pressure, pitch bend and program change.

use vstd::prelude::*;

verus! {

/// Legacy control number for channel pressure (aftertouch).
pub const LEGACY_CC_CHANNEL_PRESSURE: u8 = 128;

/// Legacy control number for pitch bend.
pub const LEGACY_CC_PITCH_BEND: u8 = 129;

/// Legacy control number for program change.
pub const LEGACY_CC_PROGRAM_CHANGE: u8 = 130;

/// What a legacy controller output event stands for. Values stay raw: the
/// 7-bit values as the host gave them, the pitch bend as its 14-bit number
/// (8192 is the centre).
#[derive(Debug, Clone, Copy, PartialEq, Eq, Structural)]
pub enum LegacyCcEvent {
    /// A Control Change (control numbers 0-127).
    ControlChange { channel: u8, controller: u8, value: i8 },
    /// Channel pressure.
    ChannelPressure { channel: u8, value: i8 },
    /// Pitch bend, from `value` (low 7 bits) and `value2` (high bits).
    PitchBend { channel: u8, raw: u16 },
    /// Program change.
    ProgramChange { channel: u8, program: u8 },
}

/// The pitch-bend number of a legacy event: the byte of `value2` as the
/// high part, times 128, plus the low 7 bits of `value`.
pub open spec fn legacy_pitch_bend(value: i8, value2: i8) -> int {
    (value2 as u8) as int * 128 + (value as u8) as int % 128
}

/// Decode a legacy controller output event. The channel and the program
/// are the bytes of the signed fields; control numbers above 130 stand for
/// nothing.
pub fn decode_legacy_cc(control_number: u8, channel: i8, value: i8, value2: i8) -> (r: Option<LegacyCcEvent>)
    ensures
        r == (if control_number <= 127 {
            Some(LegacyCcEvent::ControlChange { channel: channel as u8, controller: control_number, value })
        } else if control_number == LEGACY_CC_CHANNEL_PRESSURE {
            Some(LegacyCcEvent::ChannelPressure { channel: channel as u8, value })
        } else if control_number == LEGACY_CC_PITCH_BEND {
            Some(LegacyCcEvent::PitchBend { channel: channel as u8, raw: legacy_pitch_bend(value, value2) as u16 })
        } else if control_number == LEGACY_CC_PROGRAM_CHANGE {
            Some(LegacyCcEvent::ProgramChange { channel: channel as u8, program: value as u8 })
        } else {
            None
        }),
        r matches Some(LegacyCcEvent::PitchBend { raw, .. }) ==> raw == legacy_pitch_bend(value, value2),
{
    let ch = channel as u8;
    if control_number <= 127 {
        Some(LegacyCcEvent::ControlChange { channel: ch, controller: control_number, value })
    } else if control_number == LEGACY_CC_CHANNEL_PRESSURE {
        Some(LegacyCcEvent::ChannelPressure { channel: ch, value })
    } else if control_number == LEGACY_CC_PITCH_BEND {
        let lsb = (value as u8) as u16;
        let msb = (value2 as u8) as u16;
        let raw: u16 = (msb << 7) | (lsb & 0x7F);
        assert(raw == msb * 128 + lsb % 128) by (bit_vector)
            requires
                msb < 256,
                lsb < 256,
                raw == (msb << 7) | (lsb & 0x7F),
        ;
        Some(LegacyCcEvent::PitchBend { channel: ch, raw })
    } else if control_number == LEGACY_CC_PROGRAM_CHANGE {
        Some(LegacyCcEvent::ProgramChange { channel: ch, program: value as u8 })
    } else {
        None
    }
}

} // verus!

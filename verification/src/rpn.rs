//! RPN/NRPN decoding: assembling Registered and Non-Registered Parameter
//! Number messages from the Control Change sequences that carry them.
//!
//! The tracker works on 7-bit controller values (0-127). Selecting a
//! parameter takes two CCs (MSB and LSB); Data Entry MSB/LSB, Data Increment
//! and Data Decrement then complete a message for the selected parameter.

use vstd::prelude::*;
use crate::midi14::{combine_14bit_raw, split_14bit_raw};

verus! {

/// Data Entry MSB (CC 6).
pub const DATA_ENTRY_MSB: u8 = 6;
/// Data Entry LSB (CC 38).
pub const DATA_ENTRY_LSB: u8 = 38;
/// Data Increment (CC 96).
pub const DATA_INCREMENT: u8 = 96;
/// Data Decrement (CC 97).
pub const DATA_DECREMENT: u8 = 97;
/// NRPN LSB (CC 98).
pub const NRPN_LSB: u8 = 98;
/// NRPN MSB (CC 99).
pub const NRPN_MSB: u8 = 99;
/// RPN LSB (CC 100).
pub const RPN_LSB: u8 = 100;
/// RPN MSB (CC 101).
pub const RPN_MSB: u8 = 101;

/// Pitch Bend Sensitivity RPN (semitones + cents).
pub const PITCH_BEND_SENSITIVITY: u16 = 0x0000;
/// Channel Fine Tuning RPN.
pub const FINE_TUNING: u16 = 0x0001;
/// Channel Coarse Tuning RPN.
pub const COARSE_TUNING: u16 = 0x0002;
/// Tuning Program Change RPN.
pub const TUNING_PROGRAM: u16 = 0x0003;
/// Tuning Bank Select RPN.
pub const TUNING_BANK: u16 = 0x0004;
/// Modulation Depth Range RPN (MPE).
pub const MODULATION_DEPTH: u16 = 0x0005;
/// MPE Configuration Message RPN.
pub const MPE_CONFIGURATION: u16 = 0x0006;
/// RPN Null constant.
pub const NULL: u16 = 0x7F7F;

/// Check if a parameter number equals the RPN Null constant.
pub fn is_null(param: u16) -> (r: bool)
    ensures
        r == (param == NULL),
{
    param == NULL
}

/// Type of parameter number (RPN vs NRPN).
#[derive(Debug, Clone, Copy, PartialEq, Eq, Structural)]
pub enum ParameterNumberKind {
    /// Registered Parameter Number (CC 100/101).
    Rpn,
    /// Non-Registered Parameter Number (CC 98/99).
    Nrpn,
}

/// A complete RPN or NRPN message.
///
/// `raw_value` is the 14-bit data value (Data Entry MSB << 7 | LSB); it is 0
/// for increment and decrement messages, whose value is relative.
#[derive(Debug, Clone, Copy, PartialEq, Eq, Structural)]
pub struct ParameterNumberMessage {
    /// MIDI channel (0-15).
    pub channel: u8,
    /// RPN or NRPN.
    pub kind: ParameterNumberKind,
    /// 14-bit parameter number (MSB << 7 | LSB).
    pub parameter: u16,
    /// 14-bit data value.
    pub raw_value: u16,
    /// Whether this was a data increment.
    pub is_increment: bool,
    /// Whether this was a data decrement.
    pub is_decrement: bool,
}

impl ParameterNumberMessage {
    /// Create a new RPN message with an absolute 14-bit value.
    pub fn rpn(channel: u8, parameter: u16, raw_value: u16) -> (m: Self)
        ensures
            m == (ParameterNumberMessage {
                channel,
                kind: ParameterNumberKind::Rpn,
                parameter,
                raw_value,
                is_increment: false,
                is_decrement: false,
            }),
    {
        ParameterNumberMessage {
            channel,
            kind: ParameterNumberKind::Rpn,
            parameter,
            raw_value,
            is_increment: false,
            is_decrement: false,
        }
    }

    /// Create a new NRPN message with an absolute 14-bit value.
    pub fn nrpn(channel: u8, parameter: u16, raw_value: u16) -> (m: Self)
        ensures
            m == (ParameterNumberMessage {
                channel,
                kind: ParameterNumberKind::Nrpn,
                parameter,
                raw_value,
                is_increment: false,
                is_decrement: false,
            }),
    {
        ParameterNumberMessage {
            channel,
            kind: ParameterNumberKind::Nrpn,
            parameter,
            raw_value,
            is_increment: false,
            is_decrement: false,
        }
    }

    /// Check if this is an RPN.
    pub fn is_rpn(&self) -> (r: bool)
        ensures
            r == (self.kind == ParameterNumberKind::Rpn),
    {
        match self.kind {
            ParameterNumberKind::Rpn => true,
            ParameterNumberKind::Nrpn => false,
        }
    }

    /// Check if this is an NRPN.
    pub fn is_nrpn(&self) -> (r: bool)
        ensures
            r == (self.kind == ParameterNumberKind::Nrpn),
    {
        match self.kind {
            ParameterNumberKind::Rpn => false,
            ParameterNumberKind::Nrpn => true,
        }
    }

    /// Check if this is the Pitch Bend Sensitivity RPN.
    pub fn is_pitch_bend_sensitivity(&self) -> (r: bool)
        ensures
            r == (self.kind == ParameterNumberKind::Rpn && self.parameter == PITCH_BEND_SENSITIVITY),
    {
        self.is_rpn() && self.parameter == PITCH_BEND_SENSITIVITY
    }

    /// Check if this is an RPN whose parameter number equals the RPN Null constant.
    pub fn is_null(&self) -> (r: bool)
        ensures
            r == (self.kind == ParameterNumberKind::Rpn && self.parameter == NULL),
    {
        self.is_rpn() && is_null(self.parameter)
    }

    /// For Pitch Bend Sensitivity: (semitones, cents), the data MSB and LSB.
    pub fn pitch_bend_sensitivity(&self) -> (r: (u8, u8))
        ensures
            r.0 == (self.raw_value >> 7) & 0x7F,
            r.1 == self.raw_value & 0x7F,
    {
        split_14bit_raw(self.raw_value)
    }
}

/// Per-channel RPN/NRPN selection and data-entry state.
#[derive(Debug, Clone, Copy, PartialEq, Eq, Structural)]
pub struct RpnChannelState {
    /// Currently selected parameter MSB (CC 99/101).
    pub param_msb: Option<u8>,
    /// Currently selected parameter LSB (CC 98/100).
    pub param_lsb: Option<u8>,
    /// Current data entry MSB (CC 6).
    pub data_msb: Option<u8>,
    /// Current data entry LSB (CC 38).
    pub data_lsb: Option<u8>,
    /// Whether the current selection is RPN (true) or NRPN (false).
    pub is_rpn: bool,
}

/// The empty channel state: nothing selected, no data, NRPN flag clear.
pub open spec fn empty_channel_state() -> RpnChannelState {
    RpnChannelState { param_msb: None, param_lsb: None, data_msb: None, data_lsb: None, is_rpn: false }
}

/// The 14-bit parameter number selected in a channel state, if both halves are set.
pub open spec fn spec_parameter(st: RpnChannelState) -> Option<u16> {
    match (st.param_msb, st.param_lsb) {
        (Some(msb), Some(lsb)) => Some((((msb as u16) << 7) | ((lsb as u16) & 0x7F)) as u16),
        _ => None,
    }
}

/// The 14-bit data value of a channel state, if the data MSB is set (LSB defaults to 0).
pub open spec fn spec_data_value(st: RpnChannelState) -> Option<u16> {
    match st.data_msb {
        Some(msb) => Some(
            (((msb as u16) << 7) | ((match st.data_lsb { Some(l) => l, None => 0u8 }) as u16 & 0x7F)) as u16,
        ),
        None => None,
    }
}

/// The channel state after one Control Change with a 7-bit value.
///
/// - RPN/NRPN MSB select the parameter's high half and clear pending data.
/// - RPN/NRPN LSB select the low half; an RPN selection of 127/127
///   (the RPN Null sequence) clears the channel.
/// - Data Entry MSB/LSB record the data halves.
/// - Every other controller leaves the state as it was.
pub open spec fn channel_step(st: RpnChannelState, controller: u8, value: u8) -> RpnChannelState {
    if controller == RPN_MSB {
        RpnChannelState { param_msb: Some(value), is_rpn: true, data_msb: None, data_lsb: None, ..st }
    } else if controller == RPN_LSB {
        if st.param_msb == Some(0x7Fu8) && value == 0x7F {
            empty_channel_state()
        } else {
            RpnChannelState { param_lsb: Some(value), is_rpn: true, ..st }
        }
    } else if controller == NRPN_MSB {
        RpnChannelState { param_msb: Some(value), is_rpn: false, data_msb: None, data_lsb: None, ..st }
    } else if controller == NRPN_LSB {
        RpnChannelState { param_lsb: Some(value), is_rpn: false, ..st }
    } else if controller == DATA_ENTRY_MSB {
        RpnChannelState { data_msb: Some(value), ..st }
    } else if controller == DATA_ENTRY_LSB {
        RpnChannelState { data_lsb: Some(value), ..st }
    } else {
        st
    }
}

/// The message a channel emits after a Control Change, given the channel
/// state after that CC (`st`): Data Entry MSB/LSB emit the absolute value
/// once a parameter and the data MSB are known; Data Increment/Decrement
/// emit a relative message once a parameter is known.
pub open spec fn channel_message(st: RpnChannelState, channel: u8, controller: u8) -> Option<ParameterNumberMessage> {
    let kind = if st.is_rpn { ParameterNumberKind::Rpn } else { ParameterNumberKind::Nrpn };
    match spec_parameter(st) {
        None => None,
        Some(parameter) => {
            if controller == DATA_ENTRY_MSB || controller == DATA_ENTRY_LSB {
                match spec_data_value(st) {
                    Some(raw) => Some(ParameterNumberMessage {
                        channel, kind, parameter, raw_value: raw, is_increment: false, is_decrement: false,
                    }),
                    None => None,
                }
            } else if controller == DATA_INCREMENT {
                Some(ParameterNumberMessage {
                    channel, kind, parameter, raw_value: 0, is_increment: true, is_decrement: false,
                })
            } else if controller == DATA_DECREMENT {
                Some(ParameterNumberMessage {
                    channel, kind, parameter, raw_value: 0, is_increment: false, is_decrement: true,
                })
            } else {
                None
            }
        },
    }
}

/// An RPN selected with MSB `m` and LSB `l` (other than the Null pair 127/127)
/// followed by Data Entry MSB `v` yields, on any channel and from any prior
/// state, the RPN message for parameter `m * 128 + l` with value `v * 128`.
pub proof fn lemma_rpn_select_then_data_entry(st: RpnChannelState, channel: u8, m: u8, l: u8, v: u8)
    requires
        m < 128,
        l < 128,
        v < 128,
        !(m == 127 && l == 127),
    ensures
        ({
            let s1 = channel_step(st, RPN_MSB, m);
            let s2 = channel_step(s1, RPN_LSB, l);
            let s3 = channel_step(s2, DATA_ENTRY_MSB, v);
            &&& channel_message(s1, channel, RPN_MSB) is None
            &&& channel_message(s2, channel, RPN_LSB) is None
            &&& channel_message(s3, channel, DATA_ENTRY_MSB) == Some(
                ParameterNumberMessage {
                    channel,
                    kind: ParameterNumberKind::Rpn,
                    parameter: (m as int * 128 + l as int) as u16,
                    raw_value: (v as int * 128) as u16,
                    is_increment: false,
                    is_decrement: false,
                },
            )
        }),
{
    assert((((m as u16) << 7) | ((l as u16) & 0x7F)) as u16 == m as int * 128 + l as int) by (bit_vector)
        requires
            m < 128,
            l < 128,
    ;
    assert((((v as u16) << 7) | ((0u8 as u16) & 0x7F)) as u16 == v as int * 128) by (bit_vector)
        requires
            v < 128,
    ;
}

/// The RPN Null sequence (RPN MSB 127, then RPN LSB 127) deselects the
/// channel: no parameter stays selected and no data is pending, so later
/// data entry emits nothing.
pub proof fn lemma_rpn_null_deselects(st: RpnChannelState, channel: u8, v: u8)
    ensures
        ({
            let s2 = channel_step(channel_step(st, RPN_MSB, 127), RPN_LSB, 127);
            &&& s2 == empty_channel_state()
            &&& spec_parameter(s2) is None
            &&& channel_message(channel_step(s2, DATA_ENTRY_MSB, v), channel, DATA_ENTRY_MSB) is None
            &&& channel_message(s2, channel, DATA_INCREMENT) is None
        }),
{
}

/// Selecting a new parameter MSB (RPN or NRPN) discards pending data, so a
/// Data Entry LSB that follows it alone completes no message.
pub proof fn lemma_new_selection_clears_data(st: RpnChannelState, channel: u8, msb_controller: u8, m: u8, l: u8)
    requires
        msb_controller == RPN_MSB || msb_controller == NRPN_MSB,
    ensures
        channel_message(
            channel_step(channel_step(st, msb_controller, m), DATA_ENTRY_LSB, l),
            channel,
            DATA_ENTRY_LSB,
        ) is None,
{
}

/// A Control Change on any controller other than the parameter-select and
/// data controllers (6, 38, 96-101) leaves the channel state unchanged and
/// emits no message, whatever the state.
pub proof fn lemma_unrelated_controller_ignored(st: RpnChannelState, channel: u8, controller: u8, value: u8)
    requires
        controller != DATA_ENTRY_MSB,
        controller != DATA_ENTRY_LSB,
        controller != DATA_INCREMENT,
        controller != DATA_DECREMENT,
        controller != NRPN_LSB,
        controller != NRPN_MSB,
        controller != RPN_LSB,
        controller != RPN_MSB,
    ensures
        channel_step(st, controller, value) == st,
        channel_message(channel_step(st, controller, value), channel, controller) is None,
{
}

/// A channel just reset has no parameter selected, and data entry or
/// increment/decrement on it emits nothing until a parameter is selected.
pub proof fn lemma_reset_channel_emits_nothing(channel: u8, controller: u8, value: u8)
    requires
        controller == DATA_ENTRY_MSB || controller == DATA_ENTRY_LSB || controller == DATA_INCREMENT
            || controller == DATA_DECREMENT,
    ensures
        spec_parameter(empty_channel_state()) is None,
        spec_parameter(channel_step(empty_channel_state(), controller, value)) is None,
        channel_message(channel_step(empty_channel_state(), controller, value), channel, controller) is None,
{
}

/// The state of one channel after a history of Control Changes
/// (controller, value), applied in order from `st`.
pub open spec fn channel_after(st: RpnChannelState, h: Seq<(u8, u8)>) -> RpnChannelState
    decreases h.len(),
{
    if h.len() == 0 {
        st
    } else {
        channel_step(channel_after(st, h.drop_last()), h.last().0, h.last().1)
    }
}

/// Whether a controller selects the parameter number's MSB (RPN or NRPN).
pub open spec fn selects_msb(controller: u8) -> bool {
    controller == RPN_MSB || controller == NRPN_MSB
}

/// Whether a controller selects the parameter number's LSB (RPN or NRPN).
pub open spec fn selects_lsb(controller: u8) -> bool {
    controller == RPN_LSB || controller == NRPN_LSB
}

/// The value of the last MSB-select (`msb`) or LSB-select (`!msb`) Control
/// Change of a history, if there is one.
pub open spec fn last_selected(h: Seq<(u8, u8)>, msb: bool) -> Option<u8>
    decreases h.len(),
{
    if h.len() == 0 {
        None
    } else if (if msb {
        selects_msb(h.last().0)
    } else {
        selects_lsb(h.last().0)
    }) {
        Some(h.last().1)
    } else {
        last_selected(h.drop_last(), msb)
    }
}

/// Whether the last select Control Change (98-101) of a history is an RPN
/// one (100 or 101); false when there is none.
pub open spec fn last_select_is_rpn(h: Seq<(u8, u8)>) -> bool
    decreases h.len(),
{
    if h.len() == 0 {
        false
    } else if selects_msb(h.last().0) || selects_lsb(h.last().0) {
        h.last().0 == RPN_MSB || h.last().0 == RPN_LSB
    } else {
        last_select_is_rpn(h.drop_last())
    }
}

/// Whether the Control Change at index `i` of a history, read from an
/// empty channel, completes the RPN Null sequence: an RPN LSB of 127 while
/// the parameter MSB selected before it is 127.
pub open spec fn is_rpn_null_at(h: Seq<(u8, u8)>, i: int) -> bool {
    &&& 0 <= i < h.len()
    &&& h[i] == (RPN_LSB, 127u8)
    &&& last_selected(h.take(i), true) == Some(127u8)
}

/// From an empty channel and through a history without the RPN Null
/// sequence, the selected parameter is made of the last MSB and LSB
/// selected (by CC 99/101 and 98/100), and it is an RPN exactly when the
/// last select was CC 100 or 101: the parameter is there once both halves
/// have been selected.
pub proof fn lemma_channel_history(h: Seq<(u8, u8)>)
    requires
        forall|i: int| !#[trigger] is_rpn_null_at(h, i),
    ensures
        channel_after(empty_channel_state(), h).param_msb == last_selected(h, true),
        channel_after(empty_channel_state(), h).param_lsb == last_selected(h, false),
        channel_after(empty_channel_state(), h).is_rpn == last_select_is_rpn(h),
        spec_parameter(channel_after(empty_channel_state(), h)) == (match (
            last_selected(h, true),
            last_selected(h, false),
        ) {
            (Some(msb), Some(lsb)) => Some((((msb as u16) << 7) | ((lsb as u16) & 0x7F)) as u16),
            _ => None,
        }),
    decreases h.len(),
{
    if h.len() > 0 {
        let p = h.drop_last();
        assert forall|i: int| !#[trigger] is_rpn_null_at(p, i) by {
            if is_rpn_null_at(p, i) {
                assert(h.take(i) =~= p.take(i));
                assert(is_rpn_null_at(h, i));
            }
        }
        lemma_channel_history(p);
        assert(h.take(h.len() - 1) =~= p);
        assert(!is_rpn_null_at(h, h.len() - 1));
    }
}

/// Applying two histories in turn is applying the first and then the
/// second.
pub proof fn lemma_channel_after_concat(st: RpnChannelState, a: Seq<(u8, u8)>, b: Seq<(u8, u8)>)
    ensures
        channel_after(st, a + b) == channel_after(channel_after(st, a), b),
    decreases b.len(),
{
    if b.len() == 0 {
        assert(a + b =~= a);
    } else {
        assert((a + b).drop_last() =~= a + b.drop_last());
        lemma_channel_after_concat(st, a, b.drop_last());
    }
}

/// The RPN Null sequence resets a channel: what follows it reads as if the
/// channel had just been reset, so the selected parameter depends only on
/// the history after the last Null (or after the last reset).
pub proof fn lemma_history_after_null(st: RpnChannelState, h: Seq<(u8, u8)>, i: int)
    requires
        0 <= i < h.len(),
        h[i] == (RPN_LSB, 127u8),
        channel_after(st, h.take(i)).param_msb == Some(127u8),
    ensures
        channel_after(st, h) == channel_after(empty_channel_state(), h.skip(i + 1)),
{
    assert(h.take(i + 1).drop_last() =~= h.take(i));
    assert(channel_after(st, h.take(i + 1)) == empty_channel_state());
    lemma_channel_after_concat(st, h.take(i + 1), h.skip(i + 1));
    assert(h.take(i + 1) + h.skip(i + 1) =~= h);
}

/// The channel states of a tracker after a history of Control Changes
/// (channel, controller, value), applied in order; each goes to its channel
/// taken modulo 16.
pub open spec fn tracker_after(s: Seq<RpnChannelState>, ev: Seq<(u8, u8, u8)>) -> Seq<RpnChannelState>
    decreases ev.len(),
{
    if ev.len() == 0 {
        s
    } else {
        let t = tracker_after(s, ev.drop_last());
        let c = (ev.last().0 & 0x0F) as int;
        t.update(c, channel_step(t[c], ev.last().1, ev.last().2))
    }
}

/// The (controller, value) pairs of a history that go to channel `c`, in
/// order.
pub open spec fn events_on(ev: Seq<(u8, u8, u8)>, c: int) -> Seq<(u8, u8)>
    decreases ev.len(),
{
    if ev.len() == 0 {
        Seq::empty()
    } else {
        let p = events_on(ev.drop_last(), c);
        if (ev.last().0 & 0x0F) as int == c {
            p.push((ev.last().1, ev.last().2))
        } else {
            p
        }
    }
}

/// Channels are independent: after any history, each channel of a tracker
/// is in the state its own Control Changes lead to, whatever happened on
/// the other channels.
pub proof fn lemma_tracker_history(s: Seq<RpnChannelState>, ev: Seq<(u8, u8, u8)>, c: int)
    requires
        s.len() == 16,
        0 <= c < 16,
    ensures
        tracker_after(s, ev).len() == 16,
        tracker_after(s, ev)[c] == channel_after(s[c], events_on(ev, c)),
    decreases ev.len(),
{
    if ev.len() > 0 {
        let p = ev.drop_last();
        lemma_tracker_history(s, p, c);
        let x: u8 = ev.last().0;
        assert(x & 0x0F < 16) by (bit_vector);
        lemma_tracker_history(s, p, (x & 0x0F) as int);
        let q = events_on(p, c);
        assert(q.push((ev.last().1, ev.last().2)).drop_last() =~= q);
    }
}

/// Applying two histories to a tracker in turn is applying the first and
/// then the second.
pub proof fn lemma_tracker_after_concat(s: Seq<RpnChannelState>, a: Seq<(u8, u8, u8)>, b: Seq<(u8, u8, u8)>)
    ensures
        tracker_after(s, a + b) == tracker_after(tracker_after(s, a), b),
    decreases b.len(),
{
    if b.len() == 0 {
        assert(a + b =~= a);
    } else {
        assert((a + b).drop_last() =~= a + b.drop_last());
        lemma_tracker_after_concat(s, a, b.drop_last());
    }
}

impl RpnChannelState {
    fn new() -> (st: Self)
        ensures
            st == empty_channel_state(),
    {
        RpnChannelState { param_msb: None, param_lsb: None, data_msb: None, data_lsb: None, is_rpn: false }
    }

    fn reset(&mut self)
        ensures
            *final(self) == empty_channel_state(),
    {
        *self = RpnChannelState::new();
    }

    fn has_parameter(&self) -> (r: bool)
        ensures
            r == (spec_parameter(*self) is Some),
    {
        self.param_msb.is_some() && self.param_lsb.is_some()
    }

    fn parameter(&self) -> (r: Option<u16>)
        ensures
            r == spec_parameter(*self),
    {
        match (self.param_msb, self.param_lsb) {
            (Some(msb), Some(lsb)) => Some(combine_14bit_raw(msb, lsb)),
            _ => None,
        }
    }

    fn data_value(&self) -> (r: Option<u16>)
        ensures
            r == spec_data_value(*self),
    {
        match self.data_msb {
            Some(msb) => {
                let lsb = match self.data_lsb {
                    Some(l) => l,
                    None => 0u8,
                };
                Some(combine_14bit_raw(msb, lsb))
            },
            None => None,
        }
    }
}

/// Tracks RPN/NRPN state across all 16 MIDI channels.
#[derive(Debug, Clone, Copy)]
pub struct RpnTracker {
    channels: [RpnChannelState; 16],
}

impl View for RpnTracker {
    type V = Seq<RpnChannelState>;

    closed spec fn view(&self) -> Seq<RpnChannelState> {
        self.channels@
    }
}

impl RpnTracker {
    /// Create a new tracker with every channel empty.
    pub fn new() -> (t: Self)
        ensures
            t@.len() == 16,
            forall|i: int| 0 <= i < 16 ==> t@[i] == empty_channel_state(),
    {
        let t = RpnTracker { channels: [RpnChannelState::new(); 16] };
        proof {
            assert(t@ == t.channels@);
        }
        t
    }

    /// Every tracker holds exactly one state per MIDI channel.
    pub proof fn lemma_sixteen_channels(&self)
        ensures
            self@.len() == 16,
    {
    }

    /// Reset every channel to the empty state.
    pub fn reset(&mut self)
        ensures
            final(self)@.len() == 16,
            forall|i: int| 0 <= i < 16 ==> final(self)@[i] == empty_channel_state(),
    {
        let mut i: usize = 0;
        while i < 16
            invariant
                i <= 16,
                self.channels@.len() == 16,
                forall|j: int| 0 <= j < i ==> self.channels@[j] == empty_channel_state(),
            decreases 16 - i,
        {
            self.channels[i] = RpnChannelState::new();
            i += 1;
        }
    }

    /// Reset one channel's state; channel numbers of 16 and above are ignored.
    pub fn reset_channel(&mut self, channel: u8)
        ensures
            old(self)@.len() == 16,
            final(self)@.len() == 16,
            channel < 16 ==> final(self)@ == old(self)@.update(channel as int, empty_channel_state()),
            channel >= 16 ==> final(self)@ == old(self)@,
    {
        if (channel as usize) < 16 {
            self.channels[channel as usize] = RpnChannelState::new();
        }
    }

    /// Process one Control Change (controller number and 7-bit value) on a
    /// channel (taken modulo 16).
    ///
    /// Returns the RPN/NRPN message that this CC completes, if any. Only the
    /// addressed channel's state changes.
    pub fn process_cc(&mut self, channel: u8, controller: u8, value: u8) -> (r: Option<ParameterNumberMessage>)
        ensures
            old(self)@.len() == 16,
            final(self)@.len() == 16,
            final(self)@ == tracker_after(old(self)@, seq![(channel, controller, value)]),
            final(self)@ == old(self)@.update(
                (channel & 0x0F) as int,
                channel_step(old(self)@[(channel & 0x0F) as int], controller, value),
            ),
            r == channel_message(final(self)@[(channel & 0x0F) as int], channel & 0x0F, controller),
    {
        let ch: u8 = channel & 0x0F;
        assert(ch < 16) by (bit_vector)
            requires
                ch == channel & 0x0F,
        ;
        let idx: usize = ch as usize;
        let mut state = self.channels[idx];
        if controller == RPN_MSB {
            state.param_msb = Some(value);
            state.is_rpn = true;
            state.data_msb = None;
            state.data_lsb = None;
        } else if controller == RPN_LSB {
            if state.param_msb == Some(0x7Fu8) && value == 0x7F {
                state.reset();
            } else {
                state.param_lsb = Some(value);
                state.is_rpn = true;
            }
        } else if controller == NRPN_MSB {
            state.param_msb = Some(value);
            state.is_rpn = false;
            state.data_msb = None;
            state.data_lsb = None;
        } else if controller == NRPN_LSB {
            state.param_lsb = Some(value);
            state.is_rpn = false;
        } else if controller == DATA_ENTRY_MSB {
            state.data_msb = Some(value);
        } else if controller == DATA_ENTRY_LSB {
            state.data_lsb = Some(value);
        }
        self.channels[idx] = state;
        proof {
            let e = seq![(channel, controller, value)];
            assert(e.drop_last() =~= Seq::<(u8, u8, u8)>::empty());
            assert(e.last() == (channel, controller, value));
            assert(tracker_after(old(self)@, e.drop_last()) == old(self)@);
            assert(self@ == old(self)@.update(
                (channel & 0x0F) as int,
                channel_step(old(self)@[(channel & 0x0F) as int], controller, value),
            ));
        }
        if controller == DATA_ENTRY_MSB || controller == DATA_ENTRY_LSB {
            if state.data_msb.is_some() {
                Self::emit_message(&state, ch, false, false)
            } else {
                None
            }
        } else if controller == DATA_INCREMENT {
            if state.has_parameter() {
                Self::emit_message(&state, ch, true, false)
            } else {
                None
            }
        } else if controller == DATA_DECREMENT {
            if state.has_parameter() {
                Self::emit_message(&state, ch, false, true)
            } else {
                None
            }
        } else {
            None
        }
    }

    /// Build the message for a channel state: relative for increment and
    /// decrement, absolute otherwise (needing the data MSB).
    fn emit_message(state: &RpnChannelState, channel: u8, is_increment: bool, is_decrement: bool) -> (r:
        Option<ParameterNumberMessage>)
        requires
            !(is_increment && is_decrement),
        ensures
            r == (match spec_parameter(*state) {
                None => None,
                Some(parameter) => if is_increment || is_decrement {
                    Some(ParameterNumberMessage {
                        channel,
                        kind: if state.is_rpn { ParameterNumberKind::Rpn } else { ParameterNumberKind::Nrpn },
                        parameter,
                        raw_value: 0,
                        is_increment,
                        is_decrement,
                    })
                } else {
                    match spec_data_value(*state) {
                        None => None,
                        Some(raw) => Some(ParameterNumberMessage {
                            channel,
                            kind: if state.is_rpn { ParameterNumberKind::Rpn } else { ParameterNumberKind::Nrpn },
                            parameter,
                            raw_value: raw,
                            is_increment,
                            is_decrement,
                        }),
                    }
                },
            }),
    {
        let parameter = match state.parameter() {
            Some(p) => p,
            None => {
                return None;
            },
        };
        let raw_value: u16 = if is_increment || is_decrement {
            0
        } else {
            match state.data_value() {
                Some(v) => v,
                None => {
                    return None;
                },
            }
        };
        let kind = if state.is_rpn {
            ParameterNumberKind::Rpn
        } else {
            ParameterNumberKind::Nrpn
        };
        Some(ParameterNumberMessage { channel, kind, parameter, raw_value, is_increment, is_decrement })
    }

    /// The parameter currently selected on a channel (taken modulo 16), if any.
    pub fn current_parameter(&self, channel: u8) -> (r: Option<(ParameterNumberKind, u16)>)
        ensures
            self@.len() == 16,
            r == (match spec_parameter(self@[(channel & 0x0F) as int]) {
                Some(p) => Some(
                    (
                        if self@[(channel & 0x0F) as int].is_rpn {
                            ParameterNumberKind::Rpn
                        } else {
                            ParameterNumberKind::Nrpn
                        },
                        p,
                    ),
                ),
                None => None,
            }),
    {
        let ch: u8 = channel & 0x0F;
        assert(ch < 16) by (bit_vector)
            requires
                ch == channel & 0x0F,
        ;
        let state = self.channels[ch as usize];
        match state.parameter() {
            Some(p) => {
                let kind = if state.is_rpn {
                    ParameterNumberKind::Rpn
                } else {
                    ParameterNumberKind::Nrpn
                };
                Some((kind, p))
            },
            None => None,
        }
    }
}

impl Default for RpnTracker {
    fn default() -> (t: Self)
        ensures
            t@.len() == 16,
            forall|i: int| 0 <= i < 16 ==> t@[i] == empty_channel_state(),
    {
        RpnTracker::new()
    }
}


/// Every message a channel emits carries the channel's selection: from an
/// empty channel and through a history without the RPN Null sequence, the
/// message that the last Control Change completes (data entry or data
/// increment/decrement) is an RPN message exactly when the last parameter
/// select (CC 98-101) was an RPN one (100/101), and an NRPN message when it
/// was an NRPN one (98/99); its parameter is made of the last MSB and LSB
/// selected; an increment or decrement is emitted exactly when both halves
/// have been selected, and is marked as such.
pub proof fn lemma_message_follows_selection(h: Seq<(u8, u8)>, channel: u8)
    requires
        h.len() > 0,
        forall|i: int| !#[trigger] is_rpn_null_at(h, i),
    ensures
        channel_message(channel_after(empty_channel_state(), h), channel, h.last().0) matches Some(m) ==> {
            &&& (m.kind == ParameterNumberKind::Rpn) == last_select_is_rpn(h)
            &&& (m.kind == ParameterNumberKind::Nrpn) == !last_select_is_rpn(h)
            &&& m.channel == channel
            &&& last_selected(h, true) matches Some(msb) && last_selected(h, false) matches Some(lsb)
                && m.parameter == (((msb as u16) << 7) | ((lsb as u16) & 0x7F)) as u16
        },
        h.last().0 == DATA_INCREMENT || h.last().0 == DATA_DECREMENT ==> ((channel_message(
            channel_after(empty_channel_state(), h),
            channel,
            h.last().0,
        ) is Some) <==> (last_selected(h, true) is Some && last_selected(h, false) is Some)),
        h.last().0 == DATA_INCREMENT ==> (channel_message(channel_after(empty_channel_state(), h), channel, h.last().0)
            matches Some(m) ==> m.is_increment && !m.is_decrement && m.raw_value == 0),
        h.last().0 == DATA_DECREMENT ==> (channel_message(channel_after(empty_channel_state(), h), channel, h.last().0)
            matches Some(m) ==> m.is_decrement && !m.is_increment && m.raw_value == 0),
{
    lemma_channel_history(h);
}

} // verus!

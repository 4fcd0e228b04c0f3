//! The bus configuration a plugin declares, cached for the host, and its
//! check against the fixed channel and bus limits of the audio buffers.

use vstd::prelude::*;
use crate::plugin::BusInfo;
use crate::types::{MAX_AUX_BUSES, MAX_BUSES, MAX_CHANNELS};

verus! {

/// A bus configuration that exceeds the buffer limits.
#[derive(Clone, Copy, Debug, PartialEq, Eq, Structural)]
pub enum BusLimitError {
    /// More input buses than [`MAX_BUSES`].
    TooManyInputBuses { count: usize },
    /// More output buses than [`MAX_BUSES`].
    TooManyOutputBuses { count: usize },
    /// An input bus with more channels than [`MAX_CHANNELS`].
    TooManyInputChannels { bus: usize, channels: u32 },
    /// An output bus with more channels than [`MAX_CHANNELS`].
    TooManyOutputChannels { bus: usize, channels: u32 },
    /// A speaker arrangement with more speakers than [`MAX_CHANNELS`].
    TooManySpeakers { channels: u32 },
}

/// The bus descriptions among the plugin's answers, in order: the answers
/// with no bus are skipped.
pub open spec fn declared_buses(answers: Seq<Option<BusInfo>>) -> Seq<BusInfo>
    decreases answers.len(),
{
    if answers.len() == 0 {
        seq![]
    } else {
        let rest = declared_buses(answers.drop_last());
        match answers.last() {
            Some(b) => rest.push(b),
            None => rest,
        }
    }
}

/// Whether some bus of `buses` has more channels than [`MAX_CHANNELS`].
pub open spec fn has_wide_bus(buses: Seq<BusInfo>) -> bool {
    exists|i: int| 0 <= i < buses.len() && buses[i].channel_count > MAX_CHANNELS
}

/// The first bus of `buses` with more channels than [`MAX_CHANNELS`].
pub open spec fn first_wide_bus(buses: Seq<BusInfo>, i: int) -> bool {
    &&& 0 <= i < buses.len()
    &&& buses[i].channel_count > MAX_CHANNELS
    &&& forall|k: int| 0 <= k < i ==> #[trigger] buses[k].channel_count <= MAX_CHANNELS
}

/// The bus configuration of a plugin, kept for queries from the host.
#[derive(Clone, Debug)]
pub struct CachedBusConfig {
    /// Number of input buses the plugin declares.
    pub input_bus_count: usize,
    /// Number of output buses the plugin declares.
    pub output_bus_count: usize,
    /// The input bus descriptions.
    pub input_buses: Vec<BusInfo>,
    /// The output bus descriptions.
    pub output_buses: Vec<BusInfo>,
}

fn collect_buses(answers: &[Option<BusInfo>]) -> (r: Vec<BusInfo>)
    ensures
        r@ == declared_buses(answers@),
{
    let mut r: Vec<BusInfo> = Vec::new();
    let mut i: usize = 0;
    while i < answers.len()
        invariant
            i <= answers@.len(),
            r@ == declared_buses(answers@.take(i as int)),
        decreases answers@.len() - i,
    {
        proof {
            assert(answers@.take(i + 1).drop_last() =~= answers@.take(i as int));
        }
        match answers[i] {
            Some(b) => r.push(b),
            None => {},
        }
        i = i + 1;
    }
    proof {
        assert(answers@.take(i as int) =~= answers@);
    }
    r
}

impl CachedBusConfig {
    /// The configuration from the plugin's bus counts and its answers when
    /// asked for each bus in turn (`None` where it describes no bus).
    pub fn from_bus_infos(
        input_bus_count: usize,
        output_bus_count: usize,
        input_answers: &[Option<BusInfo>],
        output_answers: &[Option<BusInfo>],
    ) -> (c: Self)
        ensures
            c.input_bus_count == input_bus_count,
            c.output_bus_count == output_bus_count,
            c.input_buses@ == declared_buses(input_answers@),
            c.output_buses@ == declared_buses(output_answers@),
    {
        CachedBusConfig {
            input_bus_count,
            output_bus_count,
            input_buses: collect_buses(input_answers),
            output_buses: collect_buses(output_answers),
        }
    }

    /// The description of an input bus, if there is one at `index`.
    pub fn input_bus_info(&self, index: usize) -> (r: Option<&BusInfo>)
        ensures
            index < self.input_buses@.len() ==> r == Some(&self.input_buses@[index as int]),
            index >= self.input_buses@.len() ==> r is None,
    {
        if index < self.input_buses.len() {
            Some(&self.input_buses[index])
        } else {
            None
        }
    }

    /// The description of an output bus, if there is one at `index`.
    pub fn output_bus_info(&self, index: usize) -> (r: Option<&BusInfo>)
        ensures
            index < self.output_buses@.len() ==> r == Some(&self.output_buses@[index as int]),
            index >= self.output_buses@.len() ==> r is None,
    {
        if index < self.output_buses.len() {
            Some(&self.output_buses[index])
        } else {
            None
        }
    }
}

fn first_wide(buses: &Vec<BusInfo>) -> (r: Option<usize>)
    ensures
        r matches Some(i) ==> first_wide_bus(buses@, i as int),
        r is None ==> !has_wide_bus(buses@),
{
    let mut i: usize = 0;
    while i < buses.len()
        invariant
            i <= buses@.len(),
            forall|k: int| 0 <= k < i ==> #[trigger] buses@[k].channel_count <= MAX_CHANNELS,
        decreases buses@.len() - i,
    {
        if buses[i].channel_count as usize > MAX_CHANNELS {
            return Some(i);
        }
        i = i + 1;
    }
    None
}

/// Checks a bus configuration against [`MAX_BUSES`] and [`MAX_CHANNELS`]:
/// first the input bus count, then the output bus count, then the channel
/// count of each input bus, then of each output bus; the first limit
/// exceeded is the error.
pub fn validate_bus_limits_from_config(bus_config: &CachedBusConfig) -> (r: Result<(), BusLimitError>)
    ensures
        bus_config.input_bus_count > MAX_BUSES ==> r == Err::<(), BusLimitError>(
            BusLimitError::TooManyInputBuses { count: bus_config.input_bus_count },
        ),
        bus_config.input_bus_count <= MAX_BUSES && bus_config.output_bus_count > MAX_BUSES ==> r
            == Err::<(), BusLimitError>(
            BusLimitError::TooManyOutputBuses { count: bus_config.output_bus_count },
        ),
        bus_config.input_bus_count <= MAX_BUSES && bus_config.output_bus_count <= MAX_BUSES
            && has_wide_bus(bus_config.input_buses@) ==> (r matches Err(
            BusLimitError::TooManyInputChannels { bus, channels },
        ) && first_wide_bus(bus_config.input_buses@, bus as int) && channels
            == bus_config.input_buses@[bus as int].channel_count),
        bus_config.input_bus_count <= MAX_BUSES && bus_config.output_bus_count <= MAX_BUSES
            && !has_wide_bus(bus_config.input_buses@) && has_wide_bus(bus_config.output_buses@) ==> (
        r matches Err(BusLimitError::TooManyOutputChannels { bus, channels }) && first_wide_bus(
            bus_config.output_buses@,
            bus as int,
        ) && channels == bus_config.output_buses@[bus as int].channel_count),
        r is Ok <==> (bus_config.input_bus_count <= MAX_BUSES && bus_config.output_bus_count
            <= MAX_BUSES && !has_wide_bus(bus_config.input_buses@) && !has_wide_bus(
            bus_config.output_buses@,
        )),
{
    if bus_config.input_bus_count > MAX_BUSES {
        return Err(BusLimitError::TooManyInputBuses { count: bus_config.input_bus_count });
    }
    if bus_config.output_bus_count > MAX_BUSES {
        return Err(BusLimitError::TooManyOutputBuses { count: bus_config.output_bus_count });
    }
    match first_wide(&bus_config.input_buses) {
        Some(i) => {
            return Err(
                BusLimitError::TooManyInputChannels {
                    bus: i,
                    channels: bus_config.input_buses[i].channel_count,
                },
            );
        },
        None => {},
    }
    match first_wide(&bus_config.output_buses) {
        Some(i) => {
            return Err(
                BusLimitError::TooManyOutputChannels {
                    bus: i,
                    channels: bus_config.output_buses[i].channel_count,
                },
            );
        },
        None => {},
    }
    Ok(())
}

/// The number of set bits among the lowest `k` bits of `x`.
pub open spec fn low_ones(x: u64, k: nat) -> nat
    decreases k,
{
    if k == 0 {
        0
    } else {
        low_ones(x, (k - 1) as nat) + ((x >> ((k - 1) as u64)) & 1) as nat
    }
}

/// The number of set bits of `x`.
pub open spec fn ones(x: u64) -> nat {
    low_ones(x, 64)
}

/// The number of speakers in a speaker arrangement bit mask.
pub fn speaker_count(arrangement: u64) -> (n: u32)
    ensures
        n == ones(arrangement),
        n <= 64,
{
    let mut count: u32 = 0;
    let mut i: u64 = 0;
    while i < 64
        invariant
            i <= 64,
            count == low_ones(arrangement, i as nat),
            count <= i,
        decreases 64 - i,
    {
        let bit: u64 = (arrangement >> i) & 1;
        assert(bit <= 1) by (bit_vector)
            requires
                bit == (arrangement >> i) & 1,
        ;
        count = count + bit as u32;
        i = i + 1;
    }
    count
}

/// Checks that a speaker arrangement has no more speakers than
/// [`MAX_CHANNELS`].
pub fn validate_speaker_arrangement(arrangement: u64) -> (r: Result<(), BusLimitError>)
    ensures
        ones(arrangement) <= MAX_CHANNELS ==> r is Ok,
        ones(arrangement) > MAX_CHANNELS ==> r == Err::<(), BusLimitError>(
            BusLimitError::TooManySpeakers { channels: ones(arrangement) as u32 },
        ),
{
    let channel_count = speaker_count(arrangement);
    if channel_count as usize > MAX_CHANNELS {
        return Err(BusLimitError::TooManySpeakers { channels: channel_count });
    }
    Ok(())
}

/// The number of auxiliary buses in use: up to and including the last
/// bus that has a channel.
pub fn active_bus_count(channel_counts: &[usize]) -> (n: usize)
    ensures
        n <= channel_counts@.len(),
        n > 0 ==> channel_counts@[n - 1] > 0,
        forall|k: int| n <= k < channel_counts@.len() ==> channel_counts@[k] == 0,
{
    let mut n: usize = 0;
    let mut i: usize = 0;
    while i < channel_counts.len()
        invariant
            i <= channel_counts@.len(),
            n <= i,
            n > 0 ==> channel_counts@[n - 1] > 0,
            forall|k: int| n <= k < i ==> channel_counts@[k] == 0,
        decreases channel_counts@.len() - i,
    {
        if channel_counts[i] > 0 {
            n = i + 1;
        }
        i += 1;
    }
    n
}

/// A bus's channel count as auxiliary buffers keep it: capped at
/// [`MAX_CHANNELS`].
pub open spec fn kept_channels(n: usize) -> usize {
    if n <= MAX_CHANNELS {
        n
    } else {
        MAX_CHANNELS
    }
}

/// The layout that auxiliary buffers keep for the buses they are given
/// (`bus_channels`, one channel count per bus, in order): for each of the
/// [`MAX_AUX_BUSES`] bus slots the number of channels kept (capped at
/// [`MAX_CHANNELS`]; 0 for a slot with no bus; buses beyond the slots are
/// ignored), and the number of buses in use, up to and including the last
/// slot with a channel.
pub fn aux_layout(bus_channels: &[usize]) -> (r: (Vec<usize>, usize))
    ensures
        r.0@.len() == MAX_AUX_BUSES,
        forall|b: int|
            0 <= b < MAX_AUX_BUSES ==> #[trigger] r.0@[b] == (if b < bus_channels@.len() {
                kept_channels(bus_channels@[b])
            } else {
                0
            }),
        r.1 <= MAX_AUX_BUSES,
        r.1 > 0 ==> r.0@[r.1 - 1] > 0,
        forall|k: int| r.1 <= k < MAX_AUX_BUSES ==> r.0@[k] == 0,
{
    let mut counts: Vec<usize> = Vec::new();
    let mut b: usize = 0;
    while b < MAX_AUX_BUSES
        invariant
            b <= MAX_AUX_BUSES,
            counts@.len() == b,
            forall|k: int|
                0 <= k < b ==> #[trigger] counts@[k] == (if k < bus_channels@.len() {
                    kept_channels(bus_channels@[k])
                } else {
                    0
                }),
        decreases MAX_AUX_BUSES - b,
    {
        let kept: usize = if b < bus_channels.len() {
            if bus_channels[b] <= MAX_CHANNELS {
                bus_channels[b]
            } else {
                MAX_CHANNELS
            }
        } else {
            0
        };
        counts.push(kept);
        b += 1;
    }
    let n = active_bus_count(counts.as_slice());
    (counts, n)
}

/// The channel count of auxiliary bus `bus` in a kept layout, or `None`
/// when there is no such slot or the bus has no channel.
pub fn aux_bus_channels(channel_counts: &[usize], bus: usize) -> (r: Option<usize>)
    ensures
        r == (if bus < channel_counts@.len() && channel_counts@[bus as int] > 0 {
            Some(channel_counts@[bus as int])
        } else {
            None
        }),
{
    if bus < channel_counts.len() && channel_counts[bus] > 0 {
        Some(channel_counts[bus])
    } else {
        None
    }
}

} // verus!

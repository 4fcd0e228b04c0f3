//! Plugin configuration types: processor configuration markers, bus
//! layouts and bus descriptions, and MIDI controller assignments.

use vstd::prelude::*;
use crate::midi::Midi2Controller;

verus! {

/// Marker trait for processor configuration types.
pub trait ProcessorConfig: Clone + Send + 'static {

}

/// Configuration for plugins that need no audio setup information.
#[derive(Clone, Copy, Debug, Default, PartialEq, Eq, Structural)]
pub struct NoConfig;

impl ProcessorConfig for NoConfig {

}

/// Bus layout information for plugins that need channel configuration.
#[derive(Clone, Copy, Debug, Default, PartialEq, Eq, Structural)]
pub struct BusLayout {
    /// Number of channels on the main input bus.
    pub main_input_channels: u32,
    /// Number of channels on the main output bus.
    pub main_output_channels: u32,
    /// Number of auxiliary input buses.
    pub aux_input_count: usize,
    /// Number of auxiliary output buses.
    pub aux_output_count: usize,
}

impl BusLayout {
    /// A stereo layout (2 in, 2 out) with no auxiliary buses.
    pub fn stereo() -> (l: Self)
        ensures
            l == (BusLayout {
                main_input_channels: 2,
                main_output_channels: 2,
                aux_input_count: 0,
                aux_output_count: 0,
            }),
    {
        BusLayout { main_input_channels: 2, main_output_channels: 2, aux_input_count: 0, aux_output_count: 0 }
    }

    /// A layout from a plugin's bus declarations: the channel counts of the
    /// first input and output buses (2 when a bus is not declared) and the
    /// number of further buses in each direction.
    pub fn from_buses(
        input_bus_count: usize,
        output_bus_count: usize,
        main_input: Option<BusInfo>,
        main_output: Option<BusInfo>,
    ) -> (l: Self)
        ensures
            l.main_input_channels == (match main_input {
                Some(b) => b.channel_count,
                None => 2,
            }),
            l.main_output_channels == (match main_output {
                Some(b) => b.channel_count,
                None => 2,
            }),
            l.aux_input_count == (if input_bus_count >= 1 { input_bus_count - 1 } else { 0 }),
            l.aux_output_count == (if output_bus_count >= 1 { output_bus_count - 1 } else { 0 }),
    {
        BusLayout {
            main_input_channels: match main_input {
                Some(b) => b.channel_count,
                None => 2,
            },
            main_output_channels: match main_output {
                Some(b) => b.channel_count,
                None => 2,
            },
            aux_input_count: input_bus_count.saturating_sub(1),
            aux_output_count: output_bus_count.saturating_sub(1),
        }
    }
}

/// Audio bus type.
#[derive(Debug, Clone, Copy, PartialEq, Eq, Default, Structural)]
pub enum BusType {
    /// Main audio bus.
    #[default]
    Main,
    /// Auxiliary bus (e.g. sidechain).
    Aux,
}

/// Information about an audio bus.
#[derive(Debug, Clone, Copy)]
pub struct BusInfo {
    /// Display name.
    pub name: &'static str,
    /// Bus type.
    pub bus_type: BusType,
    /// Number of channels.
    pub channel_count: u32,
    /// Whether the bus is active by default.
    pub is_default_active: bool,
}

impl BusInfo {
    /// A stereo main bus, active by default.
    pub fn stereo(name: &'static str) -> (b: Self)
        ensures
            b.name == name,
            b.bus_type == BusType::Main,
            b.channel_count == 2,
            b.is_default_active,
    {
        BusInfo { name, bus_type: BusType::Main, channel_count: 2, is_default_active: true }
    }

    /// A mono main bus, active by default.
    pub fn mono(name: &'static str) -> (b: Self)
        ensures
            b.name == name,
            b.bus_type == BusType::Main,
            b.channel_count == 1,
            b.is_default_active,
    {
        BusInfo { name, bus_type: BusType::Main, channel_count: 1, is_default_active: true }
    }

    /// An auxiliary bus (e.g. sidechain), inactive by default.
    pub fn aux(name: &'static str, channel_count: u32) -> (b: Self)
        ensures
            b.name == name,
            b.bus_type == BusType::Aux,
            b.channel_count == channel_count,
            !b.is_default_active,
    {
        BusInfo { name, bus_type: BusType::Aux, channel_count, is_default_active: false }
    }
}

impl Default for BusInfo {
    /// A stereo main bus named "Main", active by default.
    fn default() -> (b: Self)
        ensures
            b.name@ == "Main"@,
            b.bus_type == BusType::Main,
            b.channel_count == 2,
            b.is_default_active,
    {
        BusInfo { name: "Main", bus_type: BusType::Main, channel_count: 2, is_default_active: true }
    }
}

/// Base assignment info for a MIDI controller to parameter mapping.
#[derive(Debug, Clone, Copy, PartialEq, Eq, Structural)]
pub struct MidiControllerAssignment {
    /// Parameter ID this controller maps to.
    pub param_id: u32,
    /// MIDI bus index.
    pub bus_index: i32,
    /// MIDI channel (0-15).
    pub channel: u8,
}

/// MIDI 1.0 CC assignment.
#[derive(Debug, Clone, Copy, PartialEq, Eq, Structural)]
pub struct Midi1Assignment {
    /// Parameter, bus and channel.
    pub assignment: MidiControllerAssignment,
    /// CC number (0-127).
    pub controller: u8,
}

impl Midi1Assignment {
    /// A MIDI 1.0 CC assignment.
    pub fn new(param_id: u32, bus_index: i32, channel: u8, controller: u8) -> (a: Self)
        ensures
            a == (Midi1Assignment {
                assignment: MidiControllerAssignment { param_id, bus_index, channel },
                controller,
            }),
    {
        Midi1Assignment { assignment: MidiControllerAssignment { param_id, bus_index, channel }, controller }
    }

    /// An assignment on bus 0, channel 0.
    pub fn simple(param_id: u32, controller: u8) -> (a: Self)
        ensures
            a == (Midi1Assignment {
                assignment: MidiControllerAssignment { param_id, bus_index: 0, channel: 0 },
                controller,
            }),
    {
        Self::new(param_id, 0, 0, controller)
    }
}

/// MIDI 2.0 controller assignment.
#[derive(Debug, Clone, Copy, PartialEq, Eq, Structural)]
pub struct Midi2Assignment {
    /// Parameter, bus and channel.
    pub assignment: MidiControllerAssignment,
    /// MIDI 2.0 controller.
    pub controller: Midi2Controller,
}

impl Midi2Assignment {
    /// A MIDI 2.0 controller assignment.
    pub fn new(param_id: u32, bus_index: i32, channel: u8, controller: Midi2Controller) -> (a: Self)
        ensures
            a == (Midi2Assignment {
                assignment: MidiControllerAssignment { param_id, bus_index, channel },
                controller,
            }),
    {
        Midi2Assignment { assignment: MidiControllerAssignment { param_id, bus_index, channel }, controller }
    }

    /// An assignment on bus 0, channel 0.
    pub fn simple(param_id: u32, controller: Midi2Controller) -> (a: Self)
        ensures
            a == (Midi2Assignment {
                assignment: MidiControllerAssignment { param_id, bus_index: 0, channel: 0 },
                controller,
            }),
    {
        Self::new(param_id, 0, 0, controller)
    }
}

} // verus!

//! Verified core of a VST3 plugin framework: parameter identifiers and
//! metadata, the unit hierarchy, saved-state encoding, MIDI controller
//! bookkeeping, RPN/NRPN decoding, bypass state handling, MIDI event
//! payloads, host-side helpers and the plugin metadata types shared by
//! every plugin format.

// Identifiers and text.
pub mod hash;
pub mod fnv;
pub mod text;
pub mod chars;
pub mod decimal;

pub use hash::fnv1a_32;

// Parameters, units and saved state.
pub mod parameters;
pub mod parameter_groups;
pub mod parameter_store;
pub mod parameter_format;
pub mod int_range;
pub mod enum_param;
pub mod unit_tree;
pub mod state;
pub mod ir;
pub mod ids;

// MIDI.
pub mod midi;
pub mod midi14;
pub mod controller;
pub mod legacy_cc;
pub mod rpn;
pub mod midi_buffer;
pub mod midi_cc_config;
pub mod midi_cc_state;
pub mod midi_params;

// Processing, configuration and host support.
pub mod bypass;
pub mod types;
pub mod config;
pub mod editor;
pub mod plugin;
pub mod bus_config;
pub mod sysex_pool;
pub mod utf16;

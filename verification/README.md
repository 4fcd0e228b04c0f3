# beamer

The core of a VST3 audio plugin framework, written in Verus.

`src/` is the verified library: parameter identifiers and metadata, the
unit (parameter group) hierarchy, saved-state encoding, MIDI controller
bookkeeping exposed as hidden parameters, RPN/NRPN decoding, the bypass
crossfade state machine, MIDI event payloads with fixed text buffers,
legacy controller output events, the bounded MIDI event buffer, SysEx output slots, UTF-16 to UTF-8 conversion,
bus-limit checks, and the text analysis behind parameter value parsing.
Every public function carries a contract; the laws that span several
functions are public proof functions next to them.

`app/` holds what works on floating-point audio and parameter values or on
atomics shared with the audio thread: sample types, buffers, smoothing,
range mappings, value formatting, the parameter types and the plugin
traits. It calls the library for every decision the library can make.

The framework's derive macros are procedural macros that write Rust
code; they are not part of this crate. What they decide is here:
- `#[derive(EnumParam)]`: only enums of unit variants, at least one
  variant, at most one `#[default]`, display names from `#[name = "..."]`
  (`enum_param::enum_param_layout`);
- the parameters derive: the keys a `#[param(...)]` accepts, the required
  id without '/', and the parameter type from the field's type name
  (`ir::check_parameter_attrs`), kind and smoothing names, the attributes
  each type needs, and the flat groups (`ir`);
- the state that the parameters derive saves and loads: paths joined as
  `group/.../id` (`state::join_state_path`), and a saved path routed to the
  direct parameter with that string ID or to the nested group named before
  its first '/' (`state::route_state_path_by_id`). A collection without the
  derive saves its parameters under decimal IDs, which
  `state::route_state_path` routes.

`tests/` exercises the library from outside.

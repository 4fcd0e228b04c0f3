//! MIDI event payload types that carry no floating-point data: program
//! changes, SysEx, note-expression integers and text, chord and scale
//! information, MIDI 2.0 controllers, note-expression flags, keyswitches,
//! physical UI mappings and MPE zone settings.

use vstd::prelude::*;
use vstd::std_specs::cmp::PartialEqSpecImpl;
use vstd::string::StringSliceAdditionalSpecFns;
use crate::text::{
    copy_str_prefix_into, copy_str_truncated, utf8_prefix_or_empty, utf8_or_empty, truncated_text, lemma_truncated_text,
};

verus! {

/// Maximum SysEx payload size in bytes.
pub const MAX_SYSEX_SIZE: usize = 512;

/// Maximum text size for note-expression text events.
pub const MAX_EXPRESSION_TEXT_SIZE: usize = 64;

/// Maximum chord name size in bytes.
pub const MAX_CHORD_NAME_SIZE: usize = 32;

/// Maximum scale name size in bytes.
pub const MAX_SCALE_NAME_SIZE: usize = 32;

/// Maximum length of keyswitch titles.
pub const MAX_KEYSWITCH_TITLE_SIZE: usize = 64;

/// Maximum length of note-expression titles.
pub const MAX_NOTE_EXPRESSION_TITLE_SIZE: usize = 64;

/// MIDI channel (0-15).
pub type MidiChannel = u8;

/// MIDI note number (0-127).
pub type MidiNote = u8;

/// Note identifier (-1 when not available).
pub type NoteId = i32;

/// The length of a copy of `n` bytes into a buffer of `cap` bytes.
pub open spec fn truncated_len(n: nat, cap: nat) -> nat {
    if n < cap { n } else { cap }
}

/// Whether the first `len` bytes of two buffers agree.
pub open spec fn same_prefix(a: Seq<u8>, b: Seq<u8>, len: int) -> bool {
    forall|i: int| 0 <= i < len ==> a[i] == b[i]
}

/// Compare the first `len` bytes of two buffers.
fn prefix_eq(a: &[u8], b: &[u8], len: usize) -> (r: bool)
    requires
        len <= a@.len(),
        len <= b@.len(),
    ensures
        r == same_prefix(a@, b@, len as int),
{
    let mut i: usize = 0;
    while i < len
        invariant
            i <= len,
            len <= a@.len(),
            len <= b@.len(),
            same_prefix(a@, b@, i as int),
        decreases len - i,
    {
        if a[i] != b[i] {
            return false;
        }
        i += 1;
    }
    true
}

/// Program change message.
#[derive(Debug, Clone, Copy, PartialEq, Eq, Structural)]
pub struct ProgramChange {
    /// MIDI channel (0-15).
    pub channel: MidiChannel,
    /// Program number (0-127).
    pub program: u8,
}

/// System Exclusive message: a fixed buffer and the length of its valid data.
#[derive(Debug, Clone, Copy)]
pub struct SysEx {
    /// Raw SysEx data (excluding the F0/F7 framing bytes).
    pub data: [u8; 512],
    /// Number of valid bytes in `data`.
    pub len: u16,
}

impl SysEx {
    /// An empty SysEx message (zeroed buffer, length 0).
    pub fn new() -> (s: Self)
        ensures
            s.len == 0,
            forall|i: int| 0 <= i < 512 ==> s.data@[i] == 0,
    {
        SysEx { data: [0u8; 512], len: 0 }
    }

    /// A SysEx message holding the first `min(bytes.len(), 512)` bytes.
    pub fn from_bytes(bytes: &[u8]) -> (s: Self)
        ensures
            s.len as nat == truncated_len(bytes@.len(), 512),
            forall|i: int| 0 <= i < s.len ==> s.data@[i] == bytes@[i],
            forall|i: int| s.len <= i < 512 ==> s.data@[i] == 0,
    {
        let len: usize = if bytes.len() < MAX_SYSEX_SIZE {
            bytes.len()
        } else {
            MAX_SYSEX_SIZE
        };
        let mut data: [u8; 512] = [0u8; 512];
        let mut i: usize = 0;
        while i < len
            invariant
                i <= len,
                len <= bytes@.len(),
                len <= 512,
                data@.len() == 512,
                forall|j: int| 0 <= j < i ==> data@[j] == bytes@[j],
                forall|j: int| i <= j < 512 ==> data@[j] == 0,
            decreases len - i,
        {
            data[i] = bytes[i];
            i += 1;
        }
        SysEx { data, len: len as u16 }
    }

    /// The valid data.
    pub fn as_slice(&self) -> (r: &[u8])
        requires
            self.len <= 512,
        ensures
            r@ == self.data@.subrange(0, self.len as int),
    {
        vstd::slice::slice_subrange(self.data.as_slice(), 0, self.len as usize)
    }
}

impl Default for SysEx {
    fn default() -> (s: Self)
        ensures
            s.len == 0,
            forall|i: int| 0 <= i < 512 ==> s.data@[i] == 0,
    {
        SysEx::new()
    }
}

impl PartialEq for SysEx {
    /// Equal lengths and equal valid data.
    fn eq(&self, other: &Self) -> (r: bool) {
        let n: usize = if (self.len as usize) < MAX_SYSEX_SIZE {
            self.len as usize
        } else {
            MAX_SYSEX_SIZE
        };
        self.len == other.len && prefix_eq(self.data.as_slice(), other.data.as_slice(), n)
    }
}

impl PartialEqSpecImpl for SysEx {
    open spec fn obeys_eq_spec() -> bool {
        true
    }

    open spec fn eq_spec(&self, other: &SysEx) -> bool {
        self.len == other.len && same_prefix(self.data@, other.data@, truncated_len(self.len as nat, 512) as int)
    }
}

/// Note-expression integer value event.
#[derive(Debug, Clone, Copy, PartialEq, Eq, Structural)]
pub struct NoteExpressionInt {
    /// Note ID this expression applies to.
    pub note_id: NoteId,
    /// Expression type.
    pub expression_type: u32,
    /// Integer value.
    pub value: u64,
}

/// Note-expression text event (e.g. phonemes for vocal synthesis).
#[derive(Debug, Clone, Copy)]
pub struct NoteExpressionText {
    /// Note ID this expression applies to.
    pub note_id: NoteId,
    /// Expression type.
    pub expression_type: u32,
    /// UTF-8 text data.
    pub text: [u8; 64],
    /// Number of valid text bytes.
    pub text_len: u8,
}

impl NoteExpressionText {
    /// A text event holding the first `min(len, 64)` bytes of `text`.
    pub fn new(note_id: NoteId, expression_type: u32, text: &str) -> (e: Self)
        ensures
            e.note_id == note_id,
            e.expression_type == expression_type,
            e.text_len as nat == truncated_len(text.spec_bytes().len(), 64),
            forall|i: int| 0 <= i < e.text_len ==> e.text@[i] == text.spec_bytes()[i],
            forall|i: int| e.text_len <= i < 64 ==> e.text@[i] == 0,
    {
        let (buf, len) = copy_str_truncated::<64>(text);
        NoteExpressionText { note_id, expression_type, text: buf, text_len: len as u8 }
    }

    /// The text, or "" when its bytes are not valid UTF-8.
    pub fn as_str(&self) -> (r: &str)
        requires
            self.text_len <= 64,
        ensures
            r@ == utf8_or_empty(self.text@.subrange(0, self.text_len as int)),
    {
        utf8_prefix_or_empty(self.text.as_slice(), self.text_len as usize)
    }
}

impl PartialEq for NoteExpressionText {
    /// Same note, type and text length, and equal valid text.
    fn eq(&self, other: &Self) -> (r: bool) {
        let n: usize = if (self.text_len as usize) < MAX_EXPRESSION_TEXT_SIZE {
            self.text_len as usize
        } else {
            MAX_EXPRESSION_TEXT_SIZE
        };
        self.note_id == other.note_id && self.expression_type == other.expression_type && self.text_len
            == other.text_len && prefix_eq(self.text.as_slice(), other.text.as_slice(), n)
    }
}

impl PartialEqSpecImpl for NoteExpressionText {
    open spec fn obeys_eq_spec() -> bool {
        true
    }

    open spec fn eq_spec(&self, other: &NoteExpressionText) -> bool {
        &&& self.note_id == other.note_id
        &&& self.expression_type == other.expression_type
        &&& self.text_len == other.text_len
        &&& same_prefix(self.text@, other.text@, truncated_len(self.text_len as nat, 64) as int)
    }
}

/// Chord information from the DAW's chord track.
#[derive(Debug, Clone, Copy)]
pub struct ChordInfo {
    /// Root pitch class (0 = C ... 11 = B), -1 = unknown.
    pub root: i8,
    /// Bass pitch class for slash chords, -1 = same as root.
    pub bass_note: i8,
    /// Bitmask of chord tones relative to the root.
    pub mask: u16,
    /// Chord name (UTF-8).
    pub name: [u8; 32],
    /// Number of valid name bytes.
    pub name_len: u8,
}

impl ChordInfo {
    /// Chord info with the first `min(len, 32)` bytes of `name`.
    pub fn new(root: i8, bass_note: i8, mask: u16, name: &str) -> (c: Self)
        ensures
            c.root == root,
            c.bass_note == bass_note,
            c.mask == mask,
            c.name_len as nat == truncated_len(name.spec_bytes().len(), 32),
            forall|i: int| 0 <= i < c.name_len ==> c.name@[i] == name.spec_bytes()[i],
            forall|i: int| c.name_len <= i < 32 ==> c.name@[i] == 0,
    {
        let (buf, len) = copy_str_truncated::<32>(name);
        ChordInfo { root, bass_note, mask, name: buf, name_len: len as u8 }
    }

    /// The chord name, or "" when its bytes are not valid UTF-8.
    pub fn name_str(&self) -> (r: &str)
        requires
            self.name_len <= 32,
        ensures
            r@ == utf8_or_empty(self.name@.subrange(0, self.name_len as int)),
    {
        utf8_prefix_or_empty(self.name.as_slice(), self.name_len as usize)
    }

    /// Whether the root is a pitch class (0-11).
    pub fn is_valid(&self) -> (r: bool)
        ensures
            r == (0 <= self.root < 12),
    {
        self.root >= 0 && self.root < 12
    }
}

impl PartialEq for ChordInfo {
    /// Same root, bass note, mask and name length, and equal valid name.
    fn eq(&self, other: &Self) -> (r: bool) {
        let n: usize = if (self.name_len as usize) < MAX_CHORD_NAME_SIZE {
            self.name_len as usize
        } else {
            MAX_CHORD_NAME_SIZE
        };
        self.root == other.root && self.bass_note == other.bass_note && self.mask == other.mask && self.name_len
            == other.name_len && prefix_eq(self.name.as_slice(), other.name.as_slice(), n)
    }
}

impl PartialEqSpecImpl for ChordInfo {
    open spec fn obeys_eq_spec() -> bool {
        true
    }

    open spec fn eq_spec(&self, other: &ChordInfo) -> bool {
        &&& self.root == other.root
        &&& self.bass_note == other.bass_note
        &&& self.mask == other.mask
        &&& self.name_len == other.name_len
        &&& same_prefix(self.name@, other.name@, truncated_len(self.name_len as nat, 32) as int)
    }
}

/// Whether bit `i` of a 16-bit mask is set.
pub open spec fn bit_set(mask: u16, i: int) -> bool {
    0 <= i < 16 && (mask >> (i as u16)) & 1 == 1
}

/// Scale/key information from the DAW.
#[derive(Debug, Clone, Copy)]
pub struct ScaleInfo {
    /// Root pitch class (0 = C ... 11 = B), -1 = unknown.
    pub root: i8,
    /// Bitmask of scale degrees relative to the root (12 bits).
    pub mask: u16,
    /// Scale name (UTF-8).
    pub name: [u8; 32],
    /// Number of valid name bytes.
    pub name_len: u8,
}

impl ScaleInfo {
    /// Scale info with the first `min(len, 32)` bytes of `name`.
    pub fn new(root: i8, mask: u16, name: &str) -> (s: Self)
        ensures
            s.root == root,
            s.mask == mask,
            s.name_len as nat == truncated_len(name.spec_bytes().len(), 32),
            forall|i: int| 0 <= i < s.name_len ==> s.name@[i] == name.spec_bytes()[i],
            forall|i: int| s.name_len <= i < 32 ==> s.name@[i] == 0,
    {
        let (buf, len) = copy_str_truncated::<32>(name);
        ScaleInfo { root, mask, name: buf, name_len: len as u8 }
    }

    /// The scale name, or "" when its bytes are not valid UTF-8.
    pub fn name_str(&self) -> (r: &str)
        requires
            self.name_len <= 32,
        ensures
            r@ == utf8_or_empty(self.name@.subrange(0, self.name_len as int)),
    {
        utf8_prefix_or_empty(self.name.as_slice(), self.name_len as usize)
    }

    /// Whether the root is a pitch class (0-11).
    pub fn is_valid(&self) -> (r: bool)
        ensures
            r == (0 <= self.root < 12),
    {
        self.root >= 0 && self.root < 12
    }

    /// Whether a pitch class (0-11) belongs to the scale.
    ///
    /// The mask is read relative to the root: bit 0 is the root and bit `i`
    /// the degree `i` semitones above it, so pitch class `p` is in the scale
    /// when mask bit `(p - root) mod 12` is set. An unknown root (negative)
    /// reads the mask as is.
    pub fn contains(&self, pitch_class: u8) -> (r: bool)
        requires
            self.root <= 12,
        ensures
            r == (pitch_class < 12 && if self.root >= 0 {
                bit_set(self.mask, (pitch_class + 12 - self.root) % 12)
            } else {
                bit_set(self.mask, pitch_class as int)
            }),
    {
        if pitch_class >= 12 {
            return false;
        }
        let mask = self.mask;
        let pc = pitch_class as u16;
        let degree: u16 = if self.root >= 0 {
            (pc + 12 - self.root as u16) % 12
        } else {
            pc
        };
        (mask >> degree) & 1 == 1
    }
}

impl PartialEq for ScaleInfo {
    /// Same root, mask and name length, and equal valid name.
    fn eq(&self, other: &Self) -> (r: bool) {
        let n: usize = if (self.name_len as usize) < MAX_SCALE_NAME_SIZE {
            self.name_len as usize
        } else {
            MAX_SCALE_NAME_SIZE
        };
        self.root == other.root && self.mask == other.mask && self.name_len == other.name_len && prefix_eq(
            self.name.as_slice(),
            other.name.as_slice(),
            n,
        )
    }
}

impl PartialEqSpecImpl for ScaleInfo {
    open spec fn obeys_eq_spec() -> bool {
        true
    }

    open spec fn eq_spec(&self, other: &ScaleInfo) -> bool {
        &&& self.root == other.root
        &&& self.mask == other.mask
        &&& self.name_len == other.name_len
        &&& same_prefix(self.name@, other.name@, truncated_len(self.name_len as nat, 32) as int)
    }
}

/// MIDI 2.0 controller: a registered parameter or an assignable controller.
#[derive(Debug, Clone, Copy, PartialEq, Eq, Default, Structural)]
pub struct Midi2Controller {
    /// Controller bank (0-127).
    pub bank: u8,
    /// True for a registered parameter, false for an assignable controller.
    pub registered: bool,
    /// Controller index within the bank.
    pub index: u8,
}

impl Midi2Controller {
    /// A MIDI 2.0 controller.
    pub fn new(bank: u8, registered: bool, index: u8) -> (c: Self)
        ensures
            c == (Midi2Controller { bank, registered, index }),
    {
        Midi2Controller { bank, registered, index }
    }

    /// A registered-parameter controller.
    pub fn registered(bank: u8, index: u8) -> (c: Self)
        ensures
            c == (Midi2Controller { bank, registered: true, index }),
    {
        Self::new(bank, true, index)
    }

    /// An assignable controller.
    pub fn assignable(bank: u8, index: u8) -> (c: Self)
        ensures
            c == (Midi2Controller { bank, registered: false, index }),
    {
        Self::new(bank, false, index)
    }
}

/// Flags for note-expression type configuration.
#[derive(Debug, Clone, Copy, PartialEq, Eq, Default, Structural)]
pub struct NoteExpressionTypeFlags(pub i32);

/// Note-expression flag bits: none.
pub const NOTE_EXPRESSION_NONE: i32 = 0;
/// Note-expression flag bit: bipolar expression (centered around 0).
pub const NOTE_EXPRESSION_IS_BIPOLAR: i32 = 1;
/// Note-expression flag bit: occurs only once at note start.
pub const NOTE_EXPRESSION_IS_ONE_SHOT: i32 = 2;
/// Note-expression flag bit: applies an absolute change.
pub const NOTE_EXPRESSION_IS_ABSOLUTE: i32 = 4;
/// Note-expression flag bit: the associated parameter ID is valid.
pub const NOTE_EXPRESSION_ASSOCIATED_PARAMETER_ID_VALID: i32 = 8;

impl NoteExpressionTypeFlags {
    /// Whether any bit of `flag` is set in these flags.
    pub fn contains(&self, flag: Self) -> (r: bool)
        ensures
            r == (self.0 & flag.0 != 0),
    {
        (self.0 & flag.0) != 0
    }

    /// The union of two flag sets.
    pub fn or(self, other: Self) -> (r: Self)
        ensures
            r.0 == self.0 | other.0,
    {
        NoteExpressionTypeFlags(self.0 | other.0)
    }
}

/// Keyswitch type: triggered by a single note.
pub const KEYSWITCH_NOTE_ON_KEY: u32 = 0;
/// Keyswitch type: held while playing.
pub const KEYSWITCH_ON_THE_FLY: u32 = 1;
/// Keyswitch type: toggles on release.
pub const KEYSWITCH_ON_RELEASE: u32 = 2;
/// Keyswitch type: triggered by a key range.
pub const KEYSWITCH_KEY_RANGE: u32 = 3;

/// Information about a keyswitch (articulation).
#[derive(Debug, Clone, Copy)]
pub struct KeyswitchInfo {
    /// Keyswitch type.
    pub type_id: u32,
    /// Display title (UTF-8).
    pub title: [u8; 64],
    /// Number of valid title bytes.
    pub title_len: u8,
    /// Short title (UTF-8).
    pub short_title: [u8; 64],
    /// Number of valid short-title bytes.
    pub short_title_len: u8,
    /// Lowest key of the keyswitch range.
    pub keyswitch_min: i32,
    /// Highest key of the keyswitch range.
    pub keyswitch_max: i32,
    /// Remapped key (-1 if not remapped).
    pub key_remapped: i32,
    /// Unit ID for grouping (-1 for none).
    pub unit_id: i32,
    /// Flags (reserved).
    pub flags: i32,
}

/// A title buffer holds the first bytes of `s`, truncated to the buffer,
/// and zeros after them.
pub open spec fn holds_title(buf: Seq<u8>, len: u8, s: &str) -> bool {
    &&& len as nat == truncated_len(s.spec_bytes().len(), 64)
    &&& forall|i: int| 0 <= i < len ==> buf[i] == s.spec_bytes()[i]
    &&& forall|i: int| len <= i < 64 ==> buf[i] == 0
}

/// The first `len` bytes of a title buffer hold `s` truncated to the
/// buffer (what is left after them is not constrained).
pub open spec fn title_prefix_is(buf: Seq<u8>, len: u8, s: &str) -> bool {
    &&& len as nat == truncated_len(s.spec_bytes().len(), 64)
    &&& forall|i: int| 0 <= i < len ==> buf[i] == s.spec_bytes()[i]
}

/// A title buffer written by `set_title(s)` reads back as the whole title
/// when it fits in 64 bytes, and otherwise as its first 64 bytes when byte
/// 64 starts a character, or the empty string when it does not; no byte
/// past the length is ever read.
pub proof fn lemma_title_reads_back(buf: Seq<u8>, len: u8, s: &str)
    requires
        buf.len() == 64,
        title_prefix_is(buf, len, s),
    ensures
        len <= 64,
        utf8_or_empty(buf.subrange(0, len as int)) == truncated_text(s, 64),
{
    lemma_truncated_text(s, 64);
    assert(buf.subrange(0, len as int) =~= s.spec_bytes().subrange(0, len as int));
}

impl KeyswitchInfo {
    /// A keyswitch on a single key: title from `title`, no short title,
    /// not remapped, no unit, no flags.
    pub fn new(type_id: u32, title: &str, key: i32) -> (k: Self)
        ensures
            k.type_id == type_id,
            holds_title(k.title@, k.title_len, title),
            k.short_title_len == 0,
            forall|i: int| 0 <= i < 64 ==> k.short_title@[i] == 0,
            k.keyswitch_min == key,
            k.keyswitch_max == key,
            k.key_remapped == -1,
            k.unit_id == -1,
            k.flags == 0,
    {
        let (buf, len) = copy_str_truncated::<64>(title);
        KeyswitchInfo {
            type_id,
            title: buf,
            title_len: len as u8,
            short_title: [0u8; 64],
            short_title_len: 0,
            keyswitch_min: key,
            keyswitch_max: key,
            key_remapped: -1,
            unit_id: -1,
            flags: 0,
        }
    }

    /// A keyswitch on a range of keys.
    pub fn key_range(type_id: u32, title: &str, min_key: i32, max_key: i32) -> (k: Self)
        ensures
            k.type_id == type_id,
            holds_title(k.title@, k.title_len, title),
            k.short_title_len == 0,
            forall|i: int| 0 <= i < 64 ==> k.short_title@[i] == 0,
            k.keyswitch_min == min_key,
            k.keyswitch_max == max_key,
            k.key_remapped == -1,
            k.unit_id == -1,
            k.flags == 0,
    {
        let mut info = Self::new(type_id, title, min_key);
        info.keyswitch_max = max_key;
        info
    }

    /// Overwrite the start of the title with `title` (truncated to 64
    /// bytes) and set the title length; bytes past it keep their old values.
    pub fn set_title(&mut self, title: &str)
        ensures
            title_prefix_is(final(self).title@, final(self).title_len, title),
            forall|i: int| final(self).title_len <= i < 64 ==> final(self).title@[i] == old(self).title@[i],
            final(self).short_title == old(self).short_title,
            final(self).short_title_len == old(self).short_title_len,
            final(self).type_id == old(self).type_id,
            final(self).keyswitch_min == old(self).keyswitch_min,
            final(self).keyswitch_max == old(self).keyswitch_max,
            final(self).key_remapped == old(self).key_remapped,
            final(self).unit_id == old(self).unit_id,
            final(self).flags == old(self).flags,
    {
        let len = copy_str_prefix_into(&mut self.title, title);
        self.title_len = len as u8;
    }

    /// Overwrite the start of the short title with `short_title` (truncated
    /// to 64 bytes) and set its length; bytes past it keep their old values.
    pub fn set_short_title(&mut self, short_title: &str)
        ensures
            title_prefix_is(final(self).short_title@, final(self).short_title_len, short_title),
            forall|i: int|
                final(self).short_title_len <= i < 64 ==> final(self).short_title@[i] == old(self).short_title@[i],
            final(self).title == old(self).title,
            final(self).title_len == old(self).title_len,
            final(self).type_id == old(self).type_id,
            final(self).keyswitch_min == old(self).keyswitch_min,
            final(self).keyswitch_max == old(self).keyswitch_max,
            final(self).key_remapped == old(self).key_remapped,
            final(self).unit_id == old(self).unit_id,
            final(self).flags == old(self).flags,
    {
        let len = copy_str_prefix_into(&mut self.short_title, short_title);
        self.short_title_len = len as u8;
    }

    /// The title, or "" when its bytes are not valid UTF-8.
    pub fn title_str(&self) -> (r: &str)
        requires
            self.title_len <= 64,
        ensures
            r@ == utf8_or_empty(self.title@.subrange(0, self.title_len as int)),
    {
        utf8_prefix_or_empty(self.title.as_slice(), self.title_len as usize)
    }

    /// The short title, or "" when its bytes are not valid UTF-8.
    pub fn short_title_str(&self) -> (r: &str)
        requires
            self.short_title_len <= 64,
        ensures
            r@ == utf8_or_empty(self.short_title@.subrange(0, self.short_title_len as int)),
    {
        utf8_prefix_or_empty(self.short_title.as_slice(), self.short_title_len as usize)
    }

    /// Builder: set the short title.
    pub fn with_short_title(self, short_title: &str) -> (k: Self)
        ensures
            title_prefix_is(k.short_title@, k.short_title_len, short_title),
            forall|i: int| k.short_title_len <= i < 64 ==> k.short_title@[i] == self.short_title@[i],
            k.title == self.title,
            k.title_len == self.title_len,
            k.type_id == self.type_id,
            k.keyswitch_min == self.keyswitch_min,
            k.keyswitch_max == self.keyswitch_max,
            k.key_remapped == self.key_remapped,
            k.unit_id == self.unit_id,
            k.flags == self.flags,
    {
        let mut k = self;
        k.set_short_title(short_title);
        k
    }

    /// Builder: set the remapped key.
    pub fn with_key_remapped(self, key: i32) -> (k: Self)
        ensures
            k == (KeyswitchInfo { key_remapped: key, ..self }),
    {
        KeyswitchInfo { key_remapped: key, ..self }
    }
}

impl Default for KeyswitchInfo {
    /// A single-key keyswitch on key 0 with an empty title.
    fn default() -> (k: Self)
        ensures
            k.type_id == KEYSWITCH_NOTE_ON_KEY,
            k.title_len == 0,
            k.short_title_len == 0,
            forall|i: int| 0 <= i < 64 ==> k.title@[i] == 0 && k.short_title@[i] == 0,
            k.keyswitch_min == 0,
            k.keyswitch_max == 0,
            k.key_remapped == -1,
            k.unit_id == -1,
            k.flags == 0,
    {
        proof {
            reveal_strlit("");
        }
        KeyswitchInfo::new(KEYSWITCH_NOTE_ON_KEY, "", 0)
    }
}

/// Physical UI: X-axis movement.
pub const PHYSICAL_UI_X_MOVEMENT: u32 = 0;
/// Physical UI: Y-axis movement.
pub const PHYSICAL_UI_Y_MOVEMENT: u32 = 1;
/// Physical UI: pressure.
pub const PHYSICAL_UI_PRESSURE: u32 = 2;
/// Physical UI: type face.
pub const PHYSICAL_UI_TYPE_FACE: u32 = 3;
/// Physical UI: unassigned.
pub const PHYSICAL_UI_INVALID: u32 = 0xFFFF_FFFF;

/// Maps a physical UI input to a note-expression type.
#[derive(Debug, Clone, Copy, PartialEq, Eq, Default, Structural)]
pub struct PhysicalUIMap {
    /// Physical UI type.
    pub physical_ui_type_id: u32,
    /// Note-expression type it maps to.
    pub note_expression_type_id: u32,
}

impl PhysicalUIMap {
    /// A physical UI mapping.
    pub fn new(physical_ui_type_id: u32, note_expression_type_id: u32) -> (m: Self)
        ensures
            m == (PhysicalUIMap { physical_ui_type_id, note_expression_type_id }),
    {
        PhysicalUIMap { physical_ui_type_id, note_expression_type_id }
    }

    /// Map the X axis to a note expression.
    pub fn x_axis(note_expression_type_id: u32) -> (m: Self)
        ensures
            m == (PhysicalUIMap { physical_ui_type_id: PHYSICAL_UI_X_MOVEMENT, note_expression_type_id }),
    {
        Self::new(PHYSICAL_UI_X_MOVEMENT, note_expression_type_id)
    }

    /// Map the Y axis (slide) to a note expression.
    pub fn y_axis(note_expression_type_id: u32) -> (m: Self)
        ensures
            m == (PhysicalUIMap { physical_ui_type_id: PHYSICAL_UI_Y_MOVEMENT, note_expression_type_id }),
    {
        Self::new(PHYSICAL_UI_Y_MOVEMENT, note_expression_type_id)
    }

    /// Map pressure to a note expression.
    pub fn pressure(note_expression_type_id: u32) -> (m: Self)
        ensures
            m == (PhysicalUIMap { physical_ui_type_id: PHYSICAL_UI_PRESSURE, note_expression_type_id }),
    {
        Self::new(PHYSICAL_UI_PRESSURE, note_expression_type_id)
    }
}

/// MPE (MIDI Polyphonic Expression) zone settings.
#[derive(Debug, Clone, Copy, PartialEq, Eq, Structural)]
pub struct MpeInputDeviceSettings {
    /// Master channel.
    pub master_channel: i32,
    /// First member channel.
    pub member_begin_channel: i32,
    /// Last member channel.
    pub member_end_channel: i32,
}

impl MpeInputDeviceSettings {
    /// The lower zone: master channel 0, members 1 to 14.
    pub fn lower_zone() -> (s: Self)
        ensures
            s == (MpeInputDeviceSettings { master_channel: 0, member_begin_channel: 1, member_end_channel: 14 }),
    {
        MpeInputDeviceSettings { master_channel: 0, member_begin_channel: 1, member_end_channel: 14 }
    }

    /// The upper zone: master channel 15, members 14 down to 1.
    pub fn upper_zone() -> (s: Self)
        ensures
            s == (MpeInputDeviceSettings { master_channel: 15, member_begin_channel: 14, member_end_channel: 1 }),
    {
        MpeInputDeviceSettings { master_channel: 15, member_begin_channel: 14, member_end_channel: 1 }
    }

    /// Custom zone settings.
    pub fn new(master: i32, begin: i32, end: i32) -> (s: Self)
        ensures
            s == (MpeInputDeviceSettings {
                master_channel: master,
                member_begin_channel: begin,
                member_end_channel: end,
            }),
    {
        MpeInputDeviceSettings { master_channel: master, member_begin_channel: begin, member_end_channel: end }
    }
}

impl Default for MpeInputDeviceSettings {
    /// The lower zone.
    fn default() -> (s: Self)
        ensures
            s == (MpeInputDeviceSettings { master_channel: 0, member_begin_channel: 1, member_end_channel: 14 }),
    {
        Self::lower_zone()
    }
}

} // verus!

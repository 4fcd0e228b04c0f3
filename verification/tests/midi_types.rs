use beamer::midi::{
    ChordInfo, KeyswitchInfo, MpeInputDeviceSettings, NoteExpressionText, NoteExpressionTypeFlags,
    PhysicalUIMap, ScaleInfo, SysEx, KEYSWITCH_KEY_RANGE, KEYSWITCH_NOTE_ON_KEY,
    MAX_SYSEX_SIZE, NOTE_EXPRESSION_IS_BIPOLAR, NOTE_EXPRESSION_IS_ONE_SHOT,
    PHYSICAL_UI_PRESSURE, PHYSICAL_UI_X_MOVEMENT, PHYSICAL_UI_Y_MOVEMENT,
};
use beamer::midi_buffer::{MidiBuffer, MAX_MIDI_EVENTS};
use beamer::controller::{is_14bit_lsb, is_14bit_msb, is_rpn_nrpn_related, lsb_pair, msb_pair};

#[test]
fn sysex_keeps_a_truncated_copy() {
    let s = SysEx::from_bytes(&[0x7E, 0x00, 0x06, 0x01]);
    assert_eq!(s.len, 4);
    assert_eq!(s.as_slice(), &[0x7E, 0x00, 0x06, 0x01]);
    let long = vec![0x55u8; MAX_SYSEX_SIZE + 10];
    let t = SysEx::from_bytes(&long);
    assert_eq!(t.len as usize, MAX_SYSEX_SIZE);
    assert_eq!(t.as_slice().len(), MAX_SYSEX_SIZE);
    assert_eq!(SysEx::new().len, 0);
    assert!(SysEx::default().as_slice().is_empty());
    assert!(SysEx::from_bytes(&[1, 2]) == SysEx::from_bytes(&[1, 2]));
    assert!(SysEx::from_bytes(&[1, 2]) != SysEx::from_bytes(&[1, 3]));
}

#[test]
fn note_expression_text() {
    let t = NoteExpressionText::new(3, 9, "vibrato");
    assert_eq!(t.as_str(), "vibrato");
    assert_eq!(t.note_id, 3);
    let long = "x".repeat(100);
    assert_eq!(NoteExpressionText::new(0, 0, &long).as_str().len(), 64);
    assert!(NoteExpressionText::new(1, 2, "a") == NoteExpressionText::new(1, 2, "a"));
    assert!(NoteExpressionText::new(1, 2, "a") != NoteExpressionText::new(1, 2, "b"));
}

#[test]
fn text_cut_inside_a_character_reads_as_empty() {
    let s = format!("{}é", "a".repeat(31));
    let c = ChordInfo::new(0, 0, 0x91, &s);
    assert_eq!(c.name_len, 32);
    assert_eq!(c.name_str(), "");
}

#[test]
fn chord_and_scale_info() {
    let c = ChordInfo::new(0, 4, 0x91, "Cmaj");
    assert_eq!(c.name_str(), "Cmaj");
    assert!(c.is_valid());
    assert!(!ChordInfo::new(-1, 0, 0, "").is_valid());
    assert!(!ChordInfo::new(12, 0, 0, "").is_valid());

    let major = ScaleInfo::new(0, 0xAB5, "Major");
    assert_eq!(major.name_str(), "Major");
    assert!(major.is_valid());
    for pc in [0u8, 2, 4, 5, 7, 9, 11] {
        assert!(major.contains(pc));
    }
    for pc in [1u8, 3, 6, 8, 10, 12, 200] {
        assert!(!major.contains(pc));
    }
    // D major: D E F# G A B C#.
    let d_major = ScaleInfo::new(2, 0xAB5, "D Major");
    for pc in [2u8, 4, 6, 7, 9, 11, 1] {
        assert!(d_major.contains(pc));
    }
    for pc in [0u8, 3, 5, 8, 10] {
        assert!(!d_major.contains(pc));
    }
    let unknown_root = ScaleInfo::new(-1, 0b101, "");
    assert!(unknown_root.contains(0));
    assert!(!unknown_root.contains(1));
    assert!(unknown_root.contains(2));
    assert!(!unknown_root.is_valid());
    let root_twelve = ScaleInfo::new(12, 0xAB5, "");
    assert!(root_twelve.contains(4));
    assert!(!root_twelve.contains(1));
}

#[test]
fn note_expression_flags() {
    let f = NoteExpressionTypeFlags(NOTE_EXPRESSION_IS_BIPOLAR).or(NoteExpressionTypeFlags(NOTE_EXPRESSION_IS_ONE_SHOT));
    assert_eq!(f.0, 3);
    assert!(f.contains(NoteExpressionTypeFlags(NOTE_EXPRESSION_IS_BIPOLAR)));
    assert!(!NoteExpressionTypeFlags(0).contains(NoteExpressionTypeFlags(NOTE_EXPRESSION_IS_BIPOLAR)));
}

#[test]
fn keyswitch_titles() {
    let k = KeyswitchInfo::new(KEYSWITCH_NOTE_ON_KEY, "Legato", 24);
    assert_eq!(k.title_str(), "Legato");
    assert_eq!(k.short_title_str(), "");
    assert_eq!(k.keyswitch_min, 24);
    assert_eq!(k.keyswitch_max, 24);
    assert_eq!(k.key_remapped, -1);
    let r = KeyswitchInfo::key_range(KEYSWITCH_KEY_RANGE, "Range", 24, 36).with_short_title("Rng").with_key_remapped(48);
    assert_eq!(r.keyswitch_max, 36);
    assert_eq!(r.short_title_str(), "Rng");
    assert_eq!(r.key_remapped, 48);
    let mut m = KeyswitchInfo::new(0, "Long title", 0);
    m.set_title("Hi");
    assert_eq!(m.title_str(), "Hi");
    m.set_short_title("S");
    assert_eq!(m.short_title_str(), "S");
}

#[test]
fn physical_ui_and_mpe_settings() {
    assert_eq!(PhysicalUIMap::x_axis(5), PhysicalUIMap::new(PHYSICAL_UI_X_MOVEMENT, 5));
    assert_eq!(PhysicalUIMap::y_axis(6).physical_ui_type_id, PHYSICAL_UI_Y_MOVEMENT);
    assert_eq!(PhysicalUIMap::pressure(7).physical_ui_type_id, PHYSICAL_UI_PRESSURE);
    let lower = MpeInputDeviceSettings::lower_zone();
    assert_eq!((lower.master_channel, lower.member_begin_channel, lower.member_end_channel), (0, 1, 14));
    let upper = MpeInputDeviceSettings::upper_zone();
    assert_eq!((upper.master_channel, upper.member_begin_channel, upper.member_end_channel), (15, 14, 1));
    assert_eq!(MpeInputDeviceSettings::default(), lower);
    assert_eq!(MpeInputDeviceSettings::new(1, 2, 3).member_end_channel, 3);
}

#[test]
fn midi_buffer_is_bounded() {
    let mut b: MidiBuffer<u32> = MidiBuffer::new();
    assert!(b.is_empty());
    for i in 0..MAX_MIDI_EVENTS as u32 {
        assert!(b.push(i));
    }
    assert_eq!(b.len(), MAX_MIDI_EVENTS);
    assert!(!b.has_overflowed());
    assert!(!b.push(9999));
    assert!(b.has_overflowed());
    assert_eq!(b.len(), MAX_MIDI_EVENTS);
    assert_eq!(b.as_slice()[5], 5);
    assert_eq!(*b.as_slice().last().unwrap(), MAX_MIDI_EVENTS as u32 - 1);
    b.clear();
    assert!(b.is_empty());
    assert!(!b.has_overflowed());
    assert!(b.push(1));
    assert_eq!(b.as_slice(), &[1]);
    let d: MidiBuffer<u8> = MidiBuffer::default();
    assert_eq!(d.len(), 0);
}

#[test]
fn controller_classification() {
    assert!(is_14bit_msb(0) && is_14bit_msb(31) && !is_14bit_msb(32));
    assert!(is_14bit_lsb(32) && is_14bit_lsb(63) && !is_14bit_lsb(64) && !is_14bit_lsb(31));
    assert_eq!(lsb_pair(1), Some(33));
    assert_eq!(lsb_pair(32), None);
    assert_eq!(msb_pair(33), Some(1));
    assert_eq!(msb_pair(64), None);
    assert_eq!(msb_pair(7), None);
    for cc in [6u8, 38, 96, 97, 98, 99, 100, 101] {
        assert!(is_rpn_nrpn_related(cc));
    }
    for cc in [0u8, 7, 37, 39, 95, 102, 127] {
        assert!(!is_rpn_nrpn_related(cc));
    }
}

#[test]
fn long_keyswitch_titles_are_cut_at_64_bytes() {
    let mut k = KeyswitchInfo::key_range(3, "Legato", 24, 30);
    let long = "x".repeat(70);
    k.set_title(&long);
    assert_eq!(k.title_str(), &long[..64]);
    // A two-byte character across byte 64 leaves no valid prefix.
    let split = format!("{}é", "y".repeat(63));
    k.set_title(&split);
    assert_eq!(k.title_str(), "");
    k.set_title("Short");
    assert_eq!(k.title_str(), "Short");
    assert_eq!(k.keyswitch_min, 24);
    assert_eq!(k.keyswitch_max, 30);
}

use beamer::bus_config::{
    active_bus_count, aux_bus_channels, aux_layout, speaker_count, validate_bus_limits_from_config, validate_speaker_arrangement, BusLimitError,
    CachedBusConfig,
};
use beamer::plugin::BusInfo;
use beamer::sysex_pool::SysExOutputPool;
use beamer::utf16::utf16_to_utf8;

#[test]
fn sysex_pool_allocates_until_full() {
    let mut pool = SysExOutputPool::with_capacity(2, 4);
    assert_eq!(pool.capacity(), 2);
    assert!(!pool.has_overflowed());
    assert_eq!(pool.allocate(&[1, 2, 3]), Some((0, 3)));
    assert_eq!(pool.allocate(&[9, 8, 7, 6, 5, 4]), Some((1, 4)));
    assert_eq!(pool.slot_bytes(0), &[1, 2, 3]);
    assert_eq!(pool.slot_bytes(1), &[9, 8, 7, 6]);
    assert_eq!(pool.allocate(&[1]), None);
    assert!(pool.has_overflowed());
    pool.clear();
    assert!(!pool.has_overflowed());
    assert_eq!(pool.allocate(&[]), Some((0, 0)));
    assert_eq!(pool.slot_bytes(0), &[] as &[u8]);
    assert_eq!(pool.allocate(&[42]), Some((1, 1)));
    assert_eq!(pool.slot_bytes(1), &[42]);
}

#[test]
fn empty_sysex_pool_always_overflows() {
    let mut pool = SysExOutputPool::with_capacity(0, 16);
    assert_eq!(pool.allocate(&[1]), None);
    assert!(pool.has_overflowed());
}

#[test]
fn utf16_conversion() {
    let units: Vec<u16> = "Gain é €".encode_utf16().collect();
    let mut buf = [0xAAu8; 32];
    let n = utf16_to_utf8(&units, &mut buf);
    assert_eq!(&buf[..n], "Gain é €".as_bytes());
    assert_eq!(buf[n], 0xAA);
}

#[test]
fn utf16_stops_at_nul_and_at_full_buffer() {
    let units = [0x41u16, 0x42, 0, 0x43];
    let mut buf = [0u8; 8];
    assert_eq!(utf16_to_utf8(&units, &mut buf), 2);
    assert_eq!(&buf[..2], b"AB");

    let euro: Vec<u16> = "a€".encode_utf16().collect();
    let mut small = [0u8; 3];
    assert_eq!(utf16_to_utf8(&euro, &mut small), 1);
    assert_eq!(small[0], b'a');
}

#[test]
fn utf16_surrogates_become_replacement_characters() {
    let units: Vec<u16> = "😀".encode_utf16().collect();
    assert_eq!(units.len(), 2);
    let mut buf = [0u8; 16];
    let n = utf16_to_utf8(&units, &mut buf);
    assert_eq!(&buf[..n], "\u{FFFD}\u{FFFD}".as_bytes());
}

#[test]
fn bus_config_from_answers() {
    let config = CachedBusConfig::from_bus_infos(
        3,
        1,
        &[Some(BusInfo::stereo("In")), None, Some(BusInfo::aux("Side", 1))],
        &[Some(BusInfo::stereo("Out"))],
    );
    assert_eq!(config.input_buses.len(), 2);
    assert_eq!(config.input_bus_info(1).map(|b| b.channel_count), Some(1));
    assert!(config.input_bus_info(2).is_none());
    assert_eq!(config.output_bus_info(0).map(|b| b.name), Some("Out"));
    assert_eq!(validate_bus_limits_from_config(&config), Ok(()));
}

#[test]
fn bus_limit_errors_in_order() {
    let wide = BusInfo::aux("Wide", 33);
    let too_many = CachedBusConfig::from_bus_infos(17, 20, &[Some(wide)], &[]);
    assert_eq!(validate_bus_limits_from_config(&too_many), Err(BusLimitError::TooManyInputBuses { count: 17 }));
    let outputs = CachedBusConfig::from_bus_infos(1, 17, &[Some(wide)], &[]);
    assert_eq!(validate_bus_limits_from_config(&outputs), Err(BusLimitError::TooManyOutputBuses { count: 17 }));
    let channels = CachedBusConfig::from_bus_infos(
        2,
        1,
        &[Some(BusInfo::stereo("In")), Some(wide)],
        &[Some(BusInfo::aux("Out", 40))],
    );
    assert_eq!(
        validate_bus_limits_from_config(&channels),
        Err(BusLimitError::TooManyInputChannels { bus: 1, channels: 33 })
    );
    let out_channels = CachedBusConfig::from_bus_infos(0, 2, &[], &[Some(BusInfo::stereo("A")), Some(BusInfo::aux("B", 40))]);
    assert_eq!(
        validate_bus_limits_from_config(&out_channels),
        Err(BusLimitError::TooManyOutputChannels { bus: 1, channels: 40 })
    );
    let edge = CachedBusConfig::from_bus_infos(16, 16, &[Some(BusInfo::aux("Max", 32))], &[]);
    assert_eq!(validate_bus_limits_from_config(&edge), Ok(()));
}

#[test]
fn speaker_arrangements() {
    assert_eq!(speaker_count(0), 0);
    assert_eq!(speaker_count(0b11), 2);
    assert_eq!(speaker_count(u64::MAX), 64);
    assert_eq!(speaker_count(1 << 19), 1);
    assert_eq!(validate_speaker_arrangement((1u64 << 32) - 1), Ok(()));
    assert_eq!(
        validate_speaker_arrangement((1u64 << 33) - 1),
        Err(BusLimitError::TooManySpeakers { channels: 33 })
    );
}

#[test]
fn active_buses_run_to_the_last_with_a_channel() {
    assert_eq!(active_bus_count(&[0, 0, 0]), 0);
    assert_eq!(active_bus_count(&[2, 0, 1, 0]), 3);
    assert_eq!(active_bus_count(&[0, 2]), 2);
    assert_eq!(active_bus_count(&[]), 0);
}

#[test]
fn auxiliary_bus_layout() {
    // A sidechain of two channels, an empty bus, and a bus of 40 channels.
    let (counts, buses) = aux_layout(&[2, 0, 40]);
    assert_eq!(counts.len(), 15);
    assert_eq!(&counts[..4], &[2, 0, 32, 0]);
    assert!(counts[3..].iter().all(|&c| c == 0));
    assert_eq!(buses, 3);
    // Buses beyond the fifteenth are ignored.
    let mut many = vec![0usize; 20];
    many[17] = 2;
    let (counts, buses) = aux_layout(&many);
    assert!(counts.iter().all(|&c| c == 0));
    assert_eq!(buses, 0);
    assert_eq!(aux_layout(&[]).1, 0);
}

#[test]
fn auxiliary_bus_lookup() {
    let (counts, _) = aux_layout(&[2, 0, 40]);
    assert_eq!(aux_bus_channels(&counts, 0), Some(2));
    assert_eq!(aux_bus_channels(&counts, 1), None);
    assert_eq!(aux_bus_channels(&counts, 2), Some(32));
    assert_eq!(aux_bus_channels(&counts, 14), None);
    assert_eq!(aux_bus_channels(&counts, 15), None);
}

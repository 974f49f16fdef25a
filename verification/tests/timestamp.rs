use pico_gnss::timestamp::{NtpShort, NtpTimestamp, NTP_UNIX_OFFSET_SECS};


#[test]
fn unix_epoch_is_the_ntp_prime_epoch_offset() {
    assert_eq!(NTP_UNIX_OFFSET_SECS, 2_208_988_800);
    let t = NtpTimestamp::from_unix_ns(0);
    assert_eq!(t.seconds(), 2_208_988_800);
    assert_eq!(t.fraction(), 0);
}

#[test]
fn known_anchor_matches_hand_computed_value() {
    let t = NtpTimestamp::from_unix_ns(1_787_020_967 * 1_000_000_000);
    assert_eq!(t.seconds(), 1_787_020_967 + 2_208_988_800);
    assert_eq!(t.fraction(), 0);
}

#[test]
fn half_a_second_is_the_top_fraction_bit() {
    let t = NtpTimestamp::from_unix_ns(500_000_000);
    assert_eq!(t.seconds(), 2_208_988_800);
    assert_eq!(t.fraction(), 0x8000_0000);
}

#[test]
fn fraction_resolution_is_finer_than_a_nanosecond() {
    let a = NtpTimestamp::from_unix_ns(1);
    let b = NtpTimestamp::from_unix_ns(2);
    assert_ne!(a.fraction(), b.fraction());
    assert!(a.fraction() > 0);
}

#[test]
fn nanosecond_round_trip_is_exact_within_a_second() {
    for ns in [0i64, 1, 999, 1_000_000, 123_456_789, 999_999_998, 999_999_999] {
        let t = NtpTimestamp::from_unix_ns(ns);
        assert_eq!(t.to_unix_ns_in_era(0), ns, "ns={ns}");
    }
}

#[test]
fn negative_unix_times_floor_toward_the_past() {
    let t = NtpTimestamp::from_unix_ns(-1);
    assert_eq!(t.seconds(), 2_208_988_799);
    assert_eq!(t.to_unix_ns_in_era(0), -1);
}

#[test]
fn era_wraps_at_2036_02_07() {
    const ERA1_START_UNIX: i64 = 2_085_978_496;
    assert_eq!(NtpTimestamp::era_of_unix_ns(0), 0);
    assert_eq!(
        NtpTimestamp::era_of_unix_ns((ERA1_START_UNIX - 1) * 1_000_000_000),
        0
    );
    assert_eq!(
        NtpTimestamp::era_of_unix_ns(ERA1_START_UNIX * 1_000_000_000),
        1
    );
    let t = NtpTimestamp::from_unix_ns(ERA1_START_UNIX * 1_000_000_000);
    assert_eq!(t.seconds(), 0);
    assert_eq!(t.to_unix_ns_in_era(1), ERA1_START_UNIX * 1_000_000_000);
}

#[test]
fn decoding_picks_the_era_nearest_a_reference_instant() {
    const NOW: i64 = 1_787_020_967;
    const ONE_ERA_LATER: i64 = NOW + 4_294_967_296;
    let wire = NtpTimestamp::from_unix_ns(NOW * 1_000_000_000);
    assert_eq!(wire.to_unix_ns_near(NOW * 1_000_000_000), NOW * 1_000_000_000);
    assert_eq!(
        wire.to_unix_ns_near(ONE_ERA_LATER * 1_000_000_000),
        ONE_ERA_LATER * 1_000_000_000
    );
}

#[test]
fn raw_wire_encoding_is_seconds_then_fraction_big_endian() {
    let t = NtpTimestamp::from_unix_ns(500_000_000);
    assert_eq!(t.to_bits(), 0x83AA_7E80_8000_0000);
    assert_eq!(NtpTimestamp::from_bits(t.to_bits()), t);
}

#[test]
fn short_one_second_is_the_integer_bit() {
    assert_eq!(NtpShort::from_nanos(1_000_000_000).to_bits(), 0x0001_0000);
    assert_eq!(NtpShort::from_nanos(0).to_bits(), 0);
}

#[test]
fn short_resolution_is_about_15_microseconds() {
    assert_eq!(NtpShort::from_nanos(7_000).to_bits(), 0);
    assert_eq!(NtpShort::from_nanos(15_259).to_bits(), 1);
    assert_eq!(NtpShort::from_nanos(15_259).to_nanos(), 15_259);
}

#[test]
fn short_saturates_instead_of_wrapping() {
    let huge = NtpShort::from_nanos(u64::MAX);
    assert_eq!(huge.to_bits(), u32::MAX);
    assert_eq!(NtpShort::from_nanos(65_536 * 1_000_000_000).to_bits(), u32::MAX);
    assert!(NtpShort::from_nanos(65_535 * 1_000_000_000).to_bits() < u32::MAX);
}

#[test]
fn short_round_trip_is_exact_at_representable_values() {
    for bits in [0u32, 1, 0x0001_0000, 0x1234_5678, 0xFFFF_0000] {
        let s = NtpShort::from_bits(bits);
        assert_eq!(NtpShort::from_nanos(s.to_nanos()).to_bits(), bits, "bits={bits:#x}");
    }
}

#[test]
fn far_eras_saturate() {
    let t = NtpTimestamp::zero();
    assert_eq!(t.to_unix_ns_in_era(0), -2_208_988_800_000_000_000);
    assert_eq!(t.to_unix_ns_in_era(1), 2_085_978_496_000_000_000);
    assert_eq!(t.to_unix_ns_in_era(3), i64::MAX);
    assert_eq!(t.to_unix_ns_in_era(i64::MAX), i64::MAX);
    assert_eq!(t.to_unix_ns_in_era(-3), i64::MIN);
    assert_eq!(NtpTimestamp::from_bits(u64::MAX).to_unix_ns_in_era(i64::MIN), i64::MIN);
}

#[test]
fn the_first_and_the_last_instant_round_trip() {
    for unix_ns in [i64::MIN, i64::MIN + 1, -9_223_372_036_000_000_000, i64::MAX - 1, i64::MAX] {
        let t = NtpTimestamp::from_unix_ns(unix_ns);
        assert_eq!(t.to_unix_ns_in_era(NtpTimestamp::era_of_unix_ns(unix_ns)), unix_ns);
        assert_eq!(t.to_unix_ns_near(unix_ns), unix_ns);
    }
}

#[test]
fn the_nearest_era_is_chosen_by_the_nanosecond() {
    let t = NtpTimestamp::from_bits(0x03AA_7E80_0000_0000);
    // Half an era either way from the Unix epoch: the earlier of the two at a tie, and the later
    // one as soon as the reference moves toward it.
    assert_eq!(t.to_unix_ns_near(0), -2_147_483_648_000_000_000);
    assert_eq!(t.to_unix_ns_near(1), 2_147_483_648_000_000_000);
    assert_eq!(t.to_unix_ns_near(999_999_999), 2_147_483_648_000_000_000);
    assert_eq!(t.to_unix_ns_near(-1), -2_147_483_648_000_000_000);
}

use pico_gnss::packet::{LeapIndicator, Mode, NtpPacket};
use pico_gnss::server::{broadcast, root_dispersion_ns, ClockState, ServeDecision, ServerConfig, SilentReason};
use pico_gnss::timestamp::{NtpShort, NtpTimestamp};


const REF_UNIX_NS: i64 = 1_787_020_967 * 1_000_000_000;

fn cfg() -> ServerConfig {
    ServerConfig {
        precision: -20,
        poll: 4,
        reference_id: *b"GPS\0",
        base_dispersion_ns: 1_000_000,
        holdover_drift_ppb: 100,
        max_holdover_ns: 3_600 * 1_000_000_000,
    }
}

fn disciplined() -> ClockState {
    ClockState {
        last_update_unix_ns: Some(REF_UNIX_NS),
        holdover_ns: 0,
        frequency_locked: true,
    }
}

fn served(d: ServeDecision) -> NtpPacket {
    match d {
        ServeDecision::Serve(p) => p,
        ServeDecision::Silent(r) => panic!("expected a served packet, got Silent({r:?})"),
    }
}

#[test]
fn a_disciplined_clock_serves_stratum_1_broadcast() {
    let p = served(broadcast(&cfg(), &disciplined(), REF_UNIX_NS + 500_000_000));
    assert_eq!(p.mode, Mode::Broadcast);
    assert_eq!(p.stratum, 1);
    assert_eq!(p.version, 4);
    assert_eq!(p.leap, LeapIndicator::NoWarning);
    assert_eq!(p.reference_id, *b"GPS\0");
    assert_eq!(p.poll, 4);
    assert_eq!(p.precision, -20);
}

#[test]
fn root_delay_is_zero_for_a_primary_reference() {
    let p = served(broadcast(&cfg(), &disciplined(), REF_UNIX_NS));
    assert_eq!(p.root_delay, NtpShort::zero());
}

#[test]
fn transmit_timestamp_is_the_scheduled_time_not_the_reference_time() {
    let tx = REF_UNIX_NS + 250_000_000;
    let p = served(broadcast(&cfg(), &disciplined(), tx));
    assert_eq!(p.transmit_timestamp, NtpTimestamp::from_unix_ns(tx));
    assert_eq!(
        p.reference_timestamp,
        NtpTimestamp::from_unix_ns(REF_UNIX_NS)
    );
}

#[test]
fn origin_and_receive_timestamps_are_unused_in_broadcast() {
    let p = served(broadcast(&cfg(), &disciplined(), REF_UNIX_NS));
    assert_eq!(p.origin_timestamp, NtpTimestamp::zero());
    assert_eq!(p.receive_timestamp, NtpTimestamp::zero());
}

#[test]
fn without_a_utc_epoch_we_say_nothing() {
    let st = ClockState {
        last_update_unix_ns: None,
        ..disciplined()
    };
    assert_eq!(
        broadcast(&cfg(), &st, REF_UNIX_NS),
        ServeDecision::Silent(SilentReason::NoEpoch)
    );
}

#[test]
fn without_a_locked_frequency_we_say_nothing() {
    let st = ClockState {
        frequency_locked: false,
        ..disciplined()
    };
    assert_eq!(
        broadcast(&cfg(), &st, REF_UNIX_NS),
        ServeDecision::Silent(SilentReason::FrequencyUnlocked)
    );
}

#[test]
fn a_short_holdover_still_serves_because_that_is_what_holdover_is_for() {
    let st = ClockState {
        holdover_ns: 60 * 1_000_000_000,
        ..disciplined()
    };
    let p = served(broadcast(&cfg(), &st, REF_UNIX_NS + 60_000_000_000));
    assert_eq!(p.stratum, 1);
}

#[test]
fn holdover_past_the_limit_goes_silent() {
    let st = ClockState {
        holdover_ns: 3_601 * 1_000_000_000,
        ..disciplined()
    };
    assert_eq!(
        broadcast(&cfg(), &st, REF_UNIX_NS),
        ServeDecision::Silent(SilentReason::HoldoverExceeded)
    );
}

#[test]
fn dispersion_starts_at_the_configured_floor() {
    assert_eq!(root_dispersion_ns(&cfg(), 0), 1_000_000);
}

#[test]
fn dispersion_grows_with_the_frequency_bound_over_holdover() {
    let ns = root_dispersion_ns(&cfg(), 1_000 * 1_000_000_000);
    assert_eq!(ns, 1_000_000 + 100_000);
}

#[test]
fn dispersion_reaches_the_packet_as_a_saturating_short() {
    let st = ClockState {
        holdover_ns: 600 * 1_000_000_000,
        ..disciplined()
    };
    let p = served(broadcast(&cfg(), &st, REF_UNIX_NS));
    let expected = NtpShort::from_nanos(root_dispersion_ns(&cfg(), st.holdover_ns));
    assert_eq!(p.root_dispersion, expected);
    assert!(
        p.root_dispersion.to_bits() > 0,
        "a real holdover is not zero"
    );
}

#[test]
fn absurd_holdover_does_not_overflow_the_dispersion_arithmetic() {
    let big = ServerConfig {
        max_holdover_ns: u64::MAX,
        holdover_drift_ppb: 1_000_000_000,
        ..cfg()
    };
    let ns = root_dispersion_ns(&big, u64::MAX);
    assert!(
        ns >= big.base_dispersion_ns,
        "must not wrap below the floor"
    );
    assert_eq!(NtpShort::from_nanos(ns).to_bits(), u32::MAX);
}

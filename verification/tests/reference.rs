use pico_gnss::gpsdo::FreqUpdate;
use pico_gnss::pps::PpsEvent;
use pico_gnss::reference::{
    describe, freq_label, subsecond_ns, PhaseOperands, ReferenceFeed, Snapshot, SoftInput,
    SoftOutput,
};

const LOCKED: PpsEvent = PpsEvent::Locked { interval_us: 1_000_000 };

#[test]
fn events_are_described() {
    assert_eq!(describe(&PpsEvent::First), ("First", 0));
    assert_eq!(describe(&LOCKED), ("Locked", 0));
    assert_eq!(
        describe(&PpsEvent::Irregular { interval_us: 3_000_000, missed: 2 }),
        ("Irregular", 2)
    );
    assert_eq!(describe(&PpsEvent::NonMonotonic { backwards_us: 5 }), ("NonMono", 0));
}

#[test]
fn frequency_updates_are_labelled() {
    assert_eq!(freq_label(None), "none");
    assert_eq!(freq_label(Some(FreqUpdate::Applied)), "ok");
    assert_eq!(freq_label(Some(FreqUpdate::GatedSane)), "sane");
    assert_eq!(freq_label(Some(FreqUpdate::GatedQuality)), "gate");
    assert_eq!(freq_label(Some(FreqUpdate::Quarantined)), "quar");
}

#[test]
fn locked_edges_are_handed_on() {
    let mut f = ReferenceFeed::new();
    let r = f.on_edge(&LOCKED, 42, 1_000_000_000, Some(7), 1);
    assert!(r.published);
    assert_eq!(r.count, 1);
    assert_eq!(r.reception, None);
    assert_eq!(f.snapshot(), Snapshot { generation: 1, c0: 42, c3: 7, c3n: 1 });
}

#[test]
fn other_edges_leave_the_snapshot_alone() {
    let mut f = ReferenceFeed::new();
    let _ = f.on_edge(&LOCKED, 42, 1_000_000_000, Some(7), 1);
    let before = f.snapshot();
    for event in [
        PpsEvent::First,
        PpsEvent::Irregular { interval_us: 5, missed: 0 },
        PpsEvent::NonMonotonic { backwards_us: 1 },
    ] {
        let r = f.on_edge(&event, 99, 5_000, Some(8), 1);
        assert!(!r.published);
        assert_eq!(f.snapshot(), before);
    }
}

#[test]
fn a_missing_observation_keeps_the_last_one() {
    let mut f = ReferenceFeed::new();
    let _ = f.on_edge(&LOCKED, 42, 1_000_000_000, Some(7), 1);
    let _ = f.on_edge(&LOCKED, 43, 1_000_000_000, None, 0);
    assert_eq!(f.snapshot(), Snapshot { generation: 2, c0: 43, c3: 7, c3n: 0 });
}

#[test]
fn reception_is_judged_on_locked_edges() {
    let mut f = ReferenceFeed::new();
    let mut last = None;
    for i in 0..8u64 {
        let _ = f.on_edge(&PpsEvent::First, 0, 0, None, 0);
        last = f.on_edge(&LOCKED, 1, 1_000_000_000 + 30 * i, None, 0).reception;
    }
    let v = last.unwrap();
    assert_eq!(v.jitter_ns, 210);
    assert!(v.bad);
}

#[test]
fn soft_edges_measure_their_interval() {
    let mut s = SoftInput::new();
    let e = s.on_edge(5_000_000_123, 0, 0);
    assert_eq!((e.count, e.interval_ns, e.phase_of, e.dev_ns), (1, 0, None, None));
    let e = s.on_edge(6_000_002_123, 3, 999_999_000);
    assert_eq!(e.interval_ns, 1_000_002_000);
    assert_eq!(e.dev_ns, Some(2_000));
    assert_eq!(
        e.phase_of,
        Some(PhaseOperands { output_ns: 999_999_000, reference_ns: 2_123 })
    );
    let e = s.on_edge(6_000_000_000, 3, 0);
    assert_eq!((e.count, e.interval_ns, e.dev_ns), (3, 0, None));
}

#[test]
fn subsecond_folds_whole_seconds_away() {
    assert_eq!(subsecond_ns(0), 0);
    assert_eq!(subsecond_ns(7_999_999_999), 999_999_999);
    assert_eq!(subsecond_ns(u64::MAX), 709_551_615);
}

#[test]
fn soft_output_deadlines_are_absolute() {
    let mut o = SoftOutput::new(500);
    let periods = [1_000_003u32, 1_000_002, 1_000_003, 1_000_003];
    for (i, p) in periods.iter().enumerate() {
        // Acted on late, by a different amount each time.
        o.on_rise(o.next_rise * 1_000 + 7_000 * i as u64);
        o.schedule(*p);
        assert_eq!(o.period_ticks, *p);
    }
    assert_eq!(o.next_rise, 500 + 4_000_011);
    assert_eq!(o.generation, 4);
}

#[test]
fn soft_frequency_is_applied_from_stage_one() {
    assert_eq!(SoftOutput::frequency(0, 2_900_000), 0);
    assert_eq!(SoftOutput::frequency(1, 2_900_000), 2_900_000);
}

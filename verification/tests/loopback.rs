use pico_gnss::loopback::{
    extremes, BootAction, BootCalibration, BootVerdict, Extremes, OffsetTracker, RecalAction,
    RecalRejection, Recalibration, SampleBuffer, RECAL_SAMPLES, SAMPLE_CAPACITY,
};

fn run(k: u32, pairs: &[(u32, u32)]) -> Recalibration {
    let mut r = Recalibration::start(k);
    for (i, (c0, c2)) in pairs.iter().enumerate() {
        assert_eq!(r.on_poll(Some(*c2), false), RecalAction::AwaitReference);
        let expected = if i as u32 + 1 < RECAL_SAMPLES {
            RecalAction::Sample
        } else {
            RecalAction::Finish
        };
        assert_eq!(r.on_reference(true, *c0), expected);
    }
    r
}

#[test]
fn sample_buffer_keeps_what_fits() {
    let mut b = SampleBuffer::new();
    for i in 0..SAMPLE_CAPACITY as u32 + 3 {
        b.keep(i, 100 + i);
    }
    assert_eq!(b.as_slice().len(), SAMPLE_CAPACITY);
    assert_eq!(b.as_slice()[0], (0, 100));
    assert_eq!(b.as_slice()[7], (7, 107));
}

#[test]
fn extremes_are_of_wrapped_differences() {
    assert_eq!(
        extremes(&[(10, 3), (2, u32::MAX), (5, 9)]),
        Extremes { lo: -4, hi: 7 }
    );
    assert_eq!(extremes(&[(10, 3), (5, 9)]).spread(), 11);
    assert_eq!(extremes(&[]), Extremes { lo: i32::MAX, hi: i32::MIN });
}

#[test]
fn first_pair_carries_the_transient_and_is_dropped() {
    let r = run(100, &[(1_100, 1_000); 6]);
    assert_eq!(r.samples().len(), 5);
    assert_eq!(r.screen(), None);
    assert_eq!(r.conclude(Some(100)), Ok(100));
}

#[test]
fn agreeing_samples_move_the_offset() {
    let r = run(
        100,
        &[(0, 0), (1_106, 1_000), (2_106, 2_000), (3_107, 3_000), (4_106, 4_000), (5_105, 5_000)],
    );
    assert_eq!(r.samples().len(), 5);
    let verdict = r.conclude(Some(106));
    assert_eq!(verdict, Ok(106));
    assert_eq!(r.offset_after(&verdict), 106);
}

#[test]
fn samples_far_from_the_offset_do_not_count() {
    // A second is 62.5 million ticks; 65 ticks is just too far, 64 is not.
    let r = run(
        0,
        &[(9, 9), (62_500_000, 0), (65, 0), (64, 0), (100, 164), (100, 165)],
    );
    assert_eq!(r.samples(), &[(64, 0), (100, 164)]);
}

#[test]
fn too_few_samples_keep_the_offset() {
    let r = run(100, &[(1, 1), (1_100, 1_000), (2_100, 2_000)]);
    assert_eq!(r.screen(), Some(RecalRejection::TooFew { n: 2 }));
    let verdict = r.conclude(Some(100));
    assert_eq!(verdict, Err(RecalRejection::TooFew { n: 2 }));
    assert_eq!(r.offset_after(&verdict), 100);
}

#[test]
fn disagreeing_samples_keep_the_offset() {
    let r = run(100, &[(1, 1), (1_100, 1_000), (2_103, 2_000), (3_100, 3_000)]);
    assert_eq!(r.screen(), Some(RecalRejection::Spread { spread: 3, n: 3 }));
    let r = run(100, &[(1, 1), (1_100, 1_000), (2_102, 2_000), (3_100, 3_000)]);
    assert_eq!(r.screen(), None);
}

#[test]
fn a_missing_mean_or_a_large_step_keeps_the_offset() {
    let r = run(100, &[(1_100, 1_000); 6]);
    assert_eq!(r.conclude(None), Err(RecalRejection::NoMean));
    assert_eq!(r.conclude(Some(600)), Ok(600));
    assert_eq!(r.conclude(Some(601)), Err(RecalRejection::Step { dk: 501, measured: 601 }));
    let low = 100u32.wrapping_sub(501);
    assert_eq!(r.conclude(Some(low)), Err(RecalRejection::Step { dk: -501, measured: low }));
    assert_eq!(
        r.conclude(Some(100u32.wrapping_add(0x8000_0000))),
        Err(RecalRejection::Step { dk: i32::MIN, measured: 0x8000_0064 })
    );
}

#[test]
fn unpublished_and_blank_references_do_not_count() {
    let mut r = Recalibration::start(0);
    for i in 0..RECAL_SAMPLES {
        let _ = r.on_poll(Some(5), false);
        let _ = r.on_reference(i % 2 == 0, 5);
    }
    assert_eq!(r.samples().len(), 2);
    let mut r = Recalibration::start(0);
    for _ in 0..RECAL_SAMPLES {
        let _ = r.on_poll(Some(0), false);
        let _ = r.on_reference(true, 0);
    }
    assert_eq!(r.samples().len(), 0);
}

#[test]
fn a_lost_reference_ends_the_recalibration() {
    let mut r = Recalibration::start(7);
    assert_eq!(r.on_poll(None, false), RecalAction::Poll);
    assert_eq!(r.on_poll(None, false), RecalAction::Poll);
    assert_eq!(r.on_poll(None, true), RecalAction::Finish);
    assert_eq!(r.conclude(None), Err(RecalRejection::TooFew { n: 0 }));
}

#[test]
fn boot_calibration_stops_on_agreement() {
    let mut b = BootCalibration::new();
    assert_eq!(b.on_attempt(&[(10, 5), (20, 15), (31, 25)], Some(5)), BootAction::Stop);
    assert_eq!(b.k, 5);
    assert_eq!(b.n, 3);
    assert_eq!(b.verdict(), BootVerdict::Clean);
}

#[test]
fn boot_calibration_retries_and_keeps_the_last_mean() {
    let mut b = BootCalibration::new();
    let bad = [(10u32, 5u32), (20, 15), (35, 25)];
    assert_eq!(b.on_attempt(&bad, Some(6)), BootAction::Retry);
    assert_eq!(b.on_attempt(&bad, Some(7)), BootAction::Retry);
    assert_eq!(b.on_attempt(&bad, None), BootAction::Retry);
    assert_eq!(b.on_attempt(&bad, Some(8)), BootAction::Stop);
    assert_eq!(b.k, 8);
    assert_eq!(b.verdict(), BootVerdict::NotClean);
}

#[test]
fn boot_calibration_gives_up_without_pulses() {
    let mut b = BootCalibration::new();
    assert_eq!(b.on_attempt(&[], None), BootAction::Stop);
    assert_eq!(b.verdict(), BootVerdict::Failed);
    assert_eq!(b.k, 0);
}

#[test]
fn two_agreeing_samples_are_not_enough_at_boot() {
    let mut b = BootCalibration::new();
    assert_eq!(b.on_attempt(&[(10, 5), (20, 15)], Some(5)), BootAction::Retry);
    assert!(!b.clean);
    assert_eq!(b.n, 2);
}

#[test]
fn offset_slews_two_ticks_per_edge() {
    let mut t = OffsetTracker::new(100);
    t.target = 105;
    let mut seen = Vec::new();
    for _ in 0..4 {
        t.slew();
        seen.push(t.k);
    }
    assert_eq!(seen, vec![102, 104, 105, 105]);
}

#[test]
fn offset_slews_across_the_wrap() {
    let mut t = OffsetTracker { k: 1, target: u32::MAX - 1 };
    t.slew();
    assert_eq!(t.k, u32::MAX);
    t.slew();
    assert_eq!(t.k, u32::MAX - 1);
    t.slew();
    assert_eq!(t.k, u32::MAX - 1);
}

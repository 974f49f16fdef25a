use pico_gnss::ticks::{as_pattern, as_signed, tick_delta, tick_magnitude};

#[test]
fn tick_delta_is_signed_and_wraps() {
    assert_eq!(tick_delta(10, 3), 7);
    assert_eq!(tick_delta(3, 10), -7);
    assert_eq!(tick_delta(2, u32::MAX - 1), 4);
    assert_eq!(tick_delta(u32::MAX - 1, 2), -4);
    assert_eq!(tick_delta(0x8000_0000, 0), i32::MIN);
    assert_eq!(tick_delta(0x7fff_ffff, 0), i32::MAX);
}

#[test]
fn signed_and_pattern_agree_with_casts() {
    for w in [0u32, 1, 0x7fff_ffff, 0x8000_0000, 0xffff_fffe, u32::MAX] {
        assert_eq!(as_signed(w), w as i32);
        assert_eq!(as_pattern(w as i32), w);
    }
}

#[test]
fn tick_magnitude_covers_the_most_negative() {
    assert_eq!(tick_magnitude(-5), 5);
    assert_eq!(tick_magnitude(5), 5);
    assert_eq!(tick_magnitude(0), 0);
    assert_eq!(tick_magnitude(i32::MIN), 0x8000_0000);
}

#[test]
fn differences_ignore_a_common_shift() {
    let (a, b) = (1_000u32, 4_000_000_000u32);
    for shift in [0u32, 1, 500_000_000, 3_000_000_000, u32::MAX] {
        assert_eq!(
            tick_delta(a.wrapping_add(shift), b.wrapping_add(shift)),
            tick_delta(a, b)
        );
    }
    assert_eq!(b.wrapping_add(tick_delta(a, b) as u32), a);
}

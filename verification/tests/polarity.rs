use pico_gnss::polarity::{conclude_probe, pps_polarity, PpsPolarity};

#[test]
fn configured_pulse_is_active_low() {
    assert_eq!(pps_polarity(), PpsPolarity::ActiveLow);
    assert!(pps_polarity().inverts());
    assert!(!PpsPolarity::ActiveHigh.inverts());
    assert_eq!(
        PpsPolarity::ActiveLow.capture_note(),
        "active low, capturing the falling edge"
    );
    assert_eq!(
        PpsPolarity::ActiveHigh.capture_note(),
        "active high, capturing the rising edge"
    );
}

#[test]
fn a_resting_pin_concludes_nothing() {
    let v = conclude_probe(false, Some(100), Some(PpsPolarity::ActiveLow));
    assert_eq!(v.polarity, None);
    assert_eq!(v.duty_percent, 100);
    let v = conclude_probe(true, Some(90), Some(PpsPolarity::ActiveLow));
    assert_eq!(v.polarity, Some(PpsPolarity::ActiveLow));
    assert_eq!(conclude_probe(true, None, None).duty_percent, 0);
}

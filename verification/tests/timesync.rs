use pico_gnss::external_nmea;
use pico_gnss::timesync::{civil_to_unix, parse_ddmmyy, parse_hhmmss, parse_rmc_time_date, PpsNmeaAssociation, PpsTimeSync};


#[test]
fn civil_to_unix_known_anchors() {
    assert_eq!(civil_to_unix(1970, 1, 1, 0, 0, 0), 0);
    assert_eq!(civil_to_unix(2000, 1, 1, 0, 0, 0), 946_684_800);
    assert_eq!(civil_to_unix(2026, 6, 7, 17, 6, 59), 1_780_852_019);
}

#[test]
fn parse_time_ok() {
    assert_eq!(parse_hhmmss("170658.000"), Some((17, 6, 58)));
    assert_eq!(parse_hhmmss("000000.00"), Some((0, 0, 0)));
    assert_eq!(parse_hhmmss("235959"), Some((23, 59, 59)));
}

#[test]
fn parse_time_rejects_garbage() {
    assert_eq!(parse_hhmmss(""), None);
    assert_eq!(parse_hhmmss("12345"), None);
    assert_eq!(parse_hhmmss("99xxss"), None);
    assert_eq!(parse_hhmmss("250000"), None);
}

#[test]
fn parse_rmc_time_date_extracts_time() {
    let s = "$GPRMC,123519,A,4807.038,N,01131.000,E,022.4,084.4,230394,003.1,W*6A";
    let r = parse_rmc_time_date(s).unwrap();
    assert_eq!(r.0, (12, 35, 19));
    assert_eq!(r.1, (23, 3, 2094));
    assert_eq!(external_nmea::parse_rmc_time_date(s).unwrap().1, (23, 3, 1994));
}

#[test]
fn parse_rmc_time_date_rejects_non_rmc() {
    let s = "$GPGGA,123519,4807.038,N,01131.000,E,1,08,0.9,545.4,M,46.9,M,,*47";
    assert_eq!(parse_rmc_time_date(s), None);
}

#[test]
fn parse_rmc_time_date_checksum_behavior() {
    let bad = "$GPRMC,123519,A,4807.038,N,01131.000,E,022.4,084.4,230394,003.1,W*00";
    assert!(parse_rmc_time_date(bad).is_some());
    assert!(external_nmea::parse_rmc_time_date(bad).is_none());
}

#[test]
fn parse_date_ok() {
    assert_eq!(parse_ddmmyy("070626"), Some((7, 6, 2026)));
    assert_eq!(parse_ddmmyy("311299"), Some((31, 12, 2099)));
}

#[test]
fn parse_date_rejects_garbage() {
    assert_eq!(parse_ddmmyy("00xx26"), None);
    assert_eq!(parse_ddmmyy("001326"), None);
    assert_eq!(parse_ddmmyy("12"), None);
}

#[test]
fn drift_is_none_then_interval_error() {
    let mut ts = PpsTimeSync::new();
    assert_eq!(ts.on_pps(1_000_000), None);
    assert_eq!(ts.on_pps(2_000_050), Some(50));
    assert_eq!(ts.on_pps(2_999_940), Some(-110));
}

#[test]
fn sync_requires_both_date_and_pps() {
    let mut ts = PpsTimeSync::new();
    assert!(ts.on_time(17, 6, 58).is_none());
    ts.on_pps(1_000_000);
    assert!(ts.on_time(17, 6, 58).is_none());
    ts.set_date(2026, 6, 7);
    let sp = ts.on_time(17, 6, 58).unwrap();
    assert_eq!(sp.pps_local_us, 1_000_000);
    assert_eq!(sp.unix_s, civil_to_unix(2026, 6, 7, 17, 6, 58));
    assert!(ts.is_locked());
}

#[test]
fn now_micros_interpolates_from_epoch() {
    let mut ts = PpsTimeSync::new();
    ts.set_date(2026, 6, 7);
    ts.on_pps(1_000_000);
    let sp = ts.on_time(17, 6, 58).unwrap();
    let base = sp.unix_s * 1_000_000;
    assert_eq!(ts.now_unix_micros(1_000_000), Some(base));
    assert_eq!(ts.now_unix_micros(1_500_000), Some(base + 500_000));
    assert_eq!(ts.now_unix_micros(999_000), Some(base - 1_000));
}

#[test]
fn association_nmea_next_second_shifts_epoch_back() {
    let mut ts = PpsTimeSync::with_association(PpsNmeaAssociation::NmeaIsNextSecond);
    ts.set_date(2026, 6, 7);
    ts.on_pps(1_000_000);
    let sp = ts.on_time(17, 6, 58).unwrap();
    assert_eq!(sp.unix_s, civil_to_unix(2026, 6, 7, 17, 6, 57));
    assert_eq!(
        ts.now_unix_micros(1_000_000),
        Some(civil_to_unix(2026, 6, 7, 17, 6, 57) * 1_000_000)
    );
}

#[test]
fn association_nmea_previous_second_shifts_epoch_forward() {
    let mut ts = PpsTimeSync::with_association(PpsNmeaAssociation::NmeaIsPreviousSecond);
    ts.set_date(2026, 6, 7);
    ts.on_pps(1_000_000);
    let sp = ts.on_time(17, 6, 58).unwrap();
    assert_eq!(sp.unix_s, civil_to_unix(2026, 6, 7, 17, 6, 59));
}

#[test]
fn association_handles_day_rollover() {
    let mut ts = PpsTimeSync::with_association(PpsNmeaAssociation::NmeaIsNextSecond);
    ts.set_date(2026, 6, 7);
    ts.on_pps(5_000_000);
    let sp = ts.on_time(0, 0, 0).unwrap();
    assert_eq!(sp.unix_s, civil_to_unix(2026, 6, 6, 23, 59, 59));
}

#[test]
fn association_handles_year_rollover() {
    let mut ts = PpsTimeSync::with_association(PpsNmeaAssociation::NmeaIsPreviousSecond);
    ts.set_date(2026, 12, 31);
    ts.on_pps(1_000_000);
    let sp = ts.on_time(23, 59, 59).unwrap();
    assert_eq!(sp.unix_s, civil_to_unix(2027, 1, 1, 0, 0, 0));
}

#[test]
fn association_offset_does_not_accumulate() {
    let mut ts = PpsTimeSync::with_association(PpsNmeaAssociation::NmeaIsNextSecond);
    ts.set_date(2026, 6, 7);
    ts.on_pps(1_000_000);
    let s1 = ts.on_time(17, 6, 58).unwrap();
    ts.on_pps(2_000_000);
    let s2 = ts.on_time(17, 6, 59).unwrap();
    assert_eq!(s2.unix_s - s1.unix_s, 1);
    assert_eq!(s1.unix_s, civil_to_unix(2026, 6, 7, 17, 6, 57));
    assert_eq!(s2.unix_s, civil_to_unix(2026, 6, 7, 17, 6, 58));
}

#[test]
fn sync_advances_each_second() {
    let mut ts = PpsTimeSync::new();
    ts.set_date(2026, 6, 7);
    ts.on_pps(1_000_000);
    let s1 = ts.on_time(17, 6, 58).unwrap();
    ts.on_pps(2_000_000);
    let s2 = ts.on_time(17, 6, 59).unwrap();
    assert_eq!(s2.unix_s - s1.unix_s, 1);
    assert_eq!(s2.pps_local_us, 2_000_000);
    assert_eq!(s2.drift_us, 0);
}

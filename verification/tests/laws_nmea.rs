use pico_gnss::assembler::{nmea_checksum, nmea_checksum_valid, NmeaLineAssembler};
use pico_gnss::external_nmea;
use pico_gnss::external_nmea::{fix_time_date, RmcFix};
use pico_gnss::text::{find_byte, find_field, parse_decimal_pair, parse_hex_pair};
use pico_gnss::timesync::{
    civil_to_unix, days_from_civil, parse_rmc_time_date, PpsNmeaAssociation, PpsTimeSync,
};

fn sentences(bytes: &[u8]) -> Vec<Vec<u8>> {
    let mut a = NmeaLineAssembler::new();
    let mut out = Vec::new();
    for &b in bytes {
        if let Some(s) = a.push(b) {
            out.push(s.to_vec());
        }
    }
    out
}

fn with_checksum(payload: &str) -> String {
    format!("${}*{:02X}", payload, nmea_checksum(payload.as_bytes()))
}

#[test]
fn longest_sentence_fits_and_one_more_byte_does_not() {
    let mut line = vec![b'$'];
    line.extend(vec![b'A'; 81]);
    let mut whole = line.clone();
    whole.extend(b"\r\n");
    assert_eq!(sentences(&whole), vec![line.clone()]);
    let mut over = line.clone();
    over.extend(b"B\r\n$GP\r");
    assert_eq!(sentences(&over), vec![b"$GP".to_vec()]);
}

#[test]
fn emitted_sentences_hold_one_dollar_and_no_terminator() {
    let noisy = b"xx$GPRM$GPGGA,1*00\r\n\n$\r$$A\n\x00\xff$B\n";
    let got = sentences(noisy);
    assert_eq!(got, vec![b"$GPGGA,1*00".to_vec(), b"$A".to_vec(), b"$B".to_vec()]);
    for s in got {
        assert_eq!(s[0], b'$');
        assert!(s[1..].iter().all(|b| *b != b'$' && *b != b'\r' && *b != b'\n'));
    }
}

#[test]
fn a_changed_byte_breaks_the_checksum() {
    let good = with_checksum("GPRMC,123519,A");
    assert!(nmea_checksum_valid(&good));
    assert!(nmea_checksum_valid(&format!("{}\r\n", good)));
    for i in 1..15 {
        let mut bytes = good.clone().into_bytes();
        bytes[i] ^= 1;
        assert!(!nmea_checksum_valid(core::str::from_utf8(&bytes).unwrap()));
    }
}

#[test]
fn fields_are_found_by_their_separator() {
    let b = b"a,,bcd,e";
    assert_eq!(find_byte(b, b',', 0), 1);
    assert_eq!(find_byte(b, b'x', 0), 8);
    assert_eq!(find_field(b, b',', 0), Some((0, 1)));
    assert_eq!(find_field(b, b',', 1), Some((2, 2)));
    assert_eq!(find_field(b, b',', 2), Some((3, 6)));
    assert_eq!(find_field(b, b',', 3), Some((7, 8)));
    assert_eq!(find_field(b, b',', 4), None);
}

#[test]
fn digit_pairs_are_read_like_integers() {
    assert_eq!(parse_decimal_pair(b'4', b'2'), Some(42));
    assert_eq!(parse_decimal_pair(b'+', b'7'), Some(7));
    assert_eq!(parse_decimal_pair(b'-', b'7'), None);
    assert_eq!(parse_decimal_pair(b'4', b'a'), None);
    assert_eq!(parse_hex_pair(b'F', b'f'), Some(255));
    assert_eq!(parse_hex_pair(b'+', b'A'), None);
    assert_eq!(parse_hex_pair(b'G', b'0'), None);
}

#[test]
fn days_follow_each_other_over_leap_years() {
    for (y, m, d, y2, m2, d2) in [
        (2024, 2, 28, 2024, 2, 29),
        (2024, 2, 29, 2024, 3, 1),
        (2023, 2, 28, 2023, 3, 1),
        (1900, 2, 28, 1900, 3, 1),
        (2000, 2, 29, 2000, 3, 1),
        (2026, 12, 31, 2027, 1, 1),
        (-1, 12, 31, 0, 1, 1),
    ] {
        assert_eq!(days_from_civil(y2, m2, d2), days_from_civil(y, m, d) + 1);
        assert_eq!(
            civil_to_unix(y2, m2, d2, 0, 0, 0),
            civil_to_unix(y, m, d, 23, 59, 59) + 1
        );
    }
}

#[test]
fn association_shifts_once_and_not_again() {
    for (association, shift) in [
        (PpsNmeaAssociation::SameSecond, 0),
        (PpsNmeaAssociation::NmeaIsNextSecond, -1),
        (PpsNmeaAssociation::NmeaIsPreviousSecond, 1),
    ] {
        let mut s = PpsTimeSync::with_association(association);
        s.set_date(2026, 8, 18);
        let mut seconds = Vec::new();
        for i in 0..5u8 {
            let _ = s.on_pps(1_000_000 * (i as u64 + 1));
            seconds.push(s.on_time(12, 0, i).unwrap().unix_s);
        }
        let first = civil_to_unix(2026, 8, 18, 12, 0, 0) + shift;
        let expected: Vec<i64> = (0..5).map(|i| first + i).collect();
        assert_eq!(seconds, expected);
    }
}

#[test]
fn a_pulse_is_paired_once() {
    let mut s = PpsTimeSync::new();
    s.set_date(2026, 8, 18);
    let _ = s.on_pps(1);
    assert!(s.on_time(1, 2, 3).is_some());
    assert!(s.on_time(1, 2, 4).is_none());
}

#[test]
fn parser_crate_reads_a_good_rmc() {
    let s = with_checksum("GPRMC,123519,A,4807.038,N,01131.000,E,022.4,084.4,230394,003.1,W");
    assert_eq!(
        external_nmea::parse_rmc_time_date(&s),
        Some(((12, 35, 19), (23, 3, 1994)))
    );
    // The built-in reader takes every year as 20xx.
    assert_eq!(parse_rmc_time_date(&s), Some(((12, 35, 19), (23, 3, 2094))));
}

#[test]
fn parser_crate_refuses_what_is_wrong() {
    let good = with_checksum("GPRMC,123519,A,4807.038,N,01131.000,E,022.4,084.4,230326,003.1,W");
    assert!(external_nmea::parse_rmc_time_date(&good).is_some());
    let bad = good.replace("123519", "123518");
    assert_eq!(external_nmea::parse_rmc_time_date(&bad), None);
    assert_eq!(external_nmea::parse_rmc_time_date("$GPGGA,123519"), None);
    assert_eq!(external_nmea::parse_rmc_time_date(""), None);
    let leap = with_checksum("GPRMC,235960,A,4807.038,N,01131.000,E,022.4,084.4,311216,003.1,W");
    assert_eq!(external_nmea::parse_rmc_time_date(&leap), None);
    assert_eq!(parse_rmc_time_date(&leap), Some(((23, 59, 60), (31, 12, 2016))));
}

#[test]
fn a_fix_needs_both_time_and_date() {
    let fix = |time, date| Some(RmcFix { time, date });
    assert_eq!(fix_time_date(None), None);
    assert_eq!(fix_time_date(fix(Some((1, 2, 3)), None)), None);
    assert_eq!(fix_time_date(fix(None, Some((4, 5, 2026)))), None);
    assert_eq!(
        fix_time_date(fix(Some((1, 2, 3)), Some((4, 5, 2026)))),
        Some(((1, 2, 3), (4, 5, 2026)))
    );
}

#[test]
fn checksum_takes_two_hex_digits_and_nothing_else() {
    // The payload AD has the checksum 05.
    assert!(nmea_checksum_valid("$AD*05"));
    assert!(nmea_checksum_valid("AD*05\r\n"));
    assert!(!nmea_checksum_valid("$AD*+5"));
    assert!(!nmea_checksum_valid("$AD*-5"));
    assert!(!nmea_checksum_valid("$AD* 5"));
    assert!(!nmea_checksum_valid("$AD*5"));
    assert!(!nmea_checksum_valid("$AD*0g"));
    // The payload AK has the checksum 0A, in either case.
    assert!(nmea_checksum_valid("$AK*0A"));
    assert!(nmea_checksum_valid("$AK*0a"));
}

use pico_gnss::assembler::{nmea_checksum, nmea_checksum_valid, NmeaLineAssembler, MAX_SENTENCE_LEN};


fn feed_all(input: &[u8]) -> std::vec::Vec<std::string::String> {
    let mut assembler = NmeaLineAssembler::new();
    let mut out = std::vec::Vec::new();
    for &b in input {
        if let Some(sentence) = assembler.push(b) {
            out.push(std::string::String::from_utf8(sentence.to_vec()).unwrap());
        }
    }
    out
}

#[test]
fn single_sentence_crlf() {
    let got = feed_all(b"$GPGGA,123519,4807.038,N*47\r\n");
    assert_eq!(got, ["$GPGGA,123519,4807.038,N*47"]);
}

#[test]
fn lf_only_terminator() {
    let got = feed_all(b"$GPGLL,4916.45,N*7C\n");
    assert_eq!(got, ["$GPGLL,4916.45,N*7C"]);
}

#[test]
fn two_sentences() {
    let got = feed_all(b"$GPGGA,1*00\r\n$GPRMC,2*00\r\n");
    assert_eq!(got, ["$GPGGA,1*00", "$GPRMC,2*00"]);
}

#[test]
fn garbage_before_dollar_ignored() {
    let got = feed_all(b"\x00\xffxyz$GPVTG,054.7,T*10\r\n");
    assert_eq!(got, ["$GPVTG,054.7,T*10"]);
}

#[test]
fn resync_on_new_dollar() {
    let got = feed_all(b"$GPGGA,partial-no-term$GPRMC,full*00\r\n");
    assert_eq!(got, ["$GPRMC,full*00"]);
}

#[test]
fn buffer_overflow_dropped_then_resync() {
    let mut input = std::vec::Vec::new();
    input.extend_from_slice(b"$");
    input.extend(core::iter::repeat(b'A').take(MAX_SENTENCE_LEN + 10));
    input.extend_from_slice(b"$GPGGA,ok*00\r\n");
    let got = feed_all(&input);
    assert_eq!(got, ["$GPGGA,ok*00"]);
}

#[test]
fn bare_dollar_then_terminator_emits_nothing() {
    let got = feed_all(b"$\r\n");
    assert!(got.is_empty());
}

#[test]
fn checksum_roundtrips() {
    let payload = b"GPRMC,123519,A,4807.038,N";
    let cs = nmea_checksum(payload);
    let s = format!("${}*{:02X}", std::str::from_utf8(payload).unwrap(), cs);
    assert!(nmea_checksum_valid(&s));
    assert!(!nmea_checksum_valid(&s.replace("GPRMC", "GPRMD")));
}

#[test]
fn checksum_known_example() {
    assert!(nmea_checksum_valid(
        "$GPRMC,123519,A,4807.038,N,01131.000,E,022.4,084.4,230394,003.1,W*6A"
    ));
    assert!(nmea_checksum_valid(
        "$GPRMC,123519,A,4807.038,N,01131.000,E,022.4,084.4,230394,003.1,W*6A\r\n"
    ));
}

#[test]
fn checksum_valid_rejects_bad_and_malformed() {
    assert!(!nmea_checksum_valid(
        "$GPRMC,123519,A,4807.038,N,01131.000,E,022.4,084.4,230394,003.1,W*6B"
    ));
    assert!(!nmea_checksum_valid("$GPGGA,no-star"));
    assert!(!nmea_checksum_valid("$GPRMC,x*ZZ"));
}

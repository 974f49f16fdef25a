use pico_gnss::phy::{encode_frame, encoded_words, manchester_word, pio_clock_divider_bits, NLP_WORD, PIO_CLOCK_HZ, PREAMBLE_SFD, SYMBOL_HIGH, SYMBOL_IDLE, SYMBOL_LOW, TP_IDL_WORD};


fn symbol(word: u32, n: usize) -> u32 {
    (word >> (2 * n)) & 0b11
}

#[test]
fn a_zero_bit_is_high_then_low() {
    let w = manchester_word(0x00);
    assert_eq!(w, 0x6666_6666);
    assert_eq!(symbol(w, 0), SYMBOL_HIGH);
    assert_eq!(symbol(w, 1), SYMBOL_LOW);
}

#[test]
fn a_one_bit_is_low_then_high() {
    let w = manchester_word(0xFF);
    assert_eq!(w, 0x9999_9999);
    assert_eq!(symbol(w, 0), SYMBOL_LOW);
    assert_eq!(symbol(w, 1), SYMBOL_HIGH);
}

#[test]
fn bits_leave_a_byte_least_significant_first() {
    assert_eq!(manchester_word(0x01), 0x6666_6669);
    assert_eq!(manchester_word(0x02), 0x6666_6696);
    assert_eq!(manchester_word(0x03), 0x6666_6699);
}

#[test]
fn matches_upstream_for_the_preamble_and_sfd_bytes() {
    assert_eq!(manchester_word(0x55), 0x6969_6969, "preamble byte");
    assert_eq!(manchester_word(0xD5), 0x9969_6969, "SFD");
}

#[test]
fn never_emits_the_unused_symbol() {
    for b in 0..=255u8 {
        let w = manchester_word(b);
        for n in 0..16 {
            assert_ne!(symbol(w, n), 0b11, "byte {b:#04x} symbol {n}");
        }
    }
}

#[test]
fn every_bit_period_has_a_mid_bit_transition() {
    for b in 0..=255u8 {
        let w = manchester_word(b);
        for bit in 0..8 {
            let first = symbol(w, bit * 2);
            let second = symbol(w, bit * 2 + 1);
            assert_ne!(first, second, "byte {b:#04x} bit {bit} has no transition");
            assert!(first == SYMBOL_HIGH || first == SYMBOL_LOW);
            assert!(second == SYMBOL_HIGH || second == SYMBOL_LOW);
        }
    }
}

#[test]
fn tp_idl_is_a_300ns_high_pulse_then_idle() {
    for n in 0..6 {
        assert_eq!(symbol(TP_IDL_WORD, n), SYMBOL_HIGH, "symbol {n}");
    }
    for n in 6..16 {
        assert_eq!(symbol(TP_IDL_WORD, n), SYMBOL_IDLE, "symbol {n}");
    }
}

#[test]
fn nlp_is_a_100ns_high_pulse_then_idle() {
    assert_eq!(symbol(NLP_WORD, 0), SYMBOL_HIGH);
    assert_eq!(symbol(NLP_WORD, 1), SYMBOL_HIGH);
    for n in 2..16 {
        assert_eq!(symbol(NLP_WORD, n), SYMBOL_IDLE, "symbol {n}");
    }
}

#[test]
fn divider_at_125mhz_is_exactly_six_and_a_quarter() {
    assert_eq!(pio_clock_divider_bits(125_000_000), 1600);
    assert_eq!(pio_clock_divider_bits(125_000_000) as f64 / 256.0, 6.25);
}

#[test]
fn divider_tracks_other_system_clocks() {
    assert_eq!(pio_clock_divider_bits(150_000_000), 1920);
    assert_eq!(pio_clock_divider_bits(PIO_CLOCK_HZ), 256);
}




#[test]
fn encoded_length_is_preamble_plus_frame_plus_tp_idl() {
    assert_eq!(encoded_words(94), 8 + 94 + 1);
}

#[test]
fn encode_frame_writes_preamble_then_frame_then_tp_idl() {
    let frame = [0x01u8, 0x02, 0x03];
    let mut out = [0u32; 16];
    let n = encode_frame(&frame, &mut out).expect("buffer is big enough");
    assert_eq!(n, encoded_words(frame.len()));

    for (i, b) in PREAMBLE_SFD.iter().enumerate() {
        assert_eq!(out[i], manchester_word(*b), "preamble word {i}");
    }
    for (i, b) in frame.iter().enumerate() {
        assert_eq!(
            out[PREAMBLE_SFD.len() + i],
            manchester_word(*b),
            "frame {i}"
        );
    }
    assert_eq!(out[n - 1], TP_IDL_WORD, "TP_IDL closes the transmission");
}

#[test]
fn encode_frame_refuses_a_buffer_that_is_too_small() {
    let mut out = [0u32; 11];
    assert_eq!(encode_frame(&[0u8; 3], &mut out), None);
}

#[test]
fn a_frame_starts_low_because_the_preamble_starts_with_a_one_bit() {
    let mut out = [0u32; 16];
    encode_frame(&[0u8; 3], &mut out).unwrap();
    assert_eq!(symbol(out[0], 0), SYMBOL_LOW);
    assert_eq!(symbol(out[0], 1), SYMBOL_HIGH);
}

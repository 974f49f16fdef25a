use pico_gnss::temperature::{average_code, TEMP_DMA_N, TEMP_RAW_SCALE};

#[test]
fn constant_reading_is_exact() {
    for code in [0u16, 1, 877, 4095] {
        assert_eq!(average_code(&vec![code; TEMP_DMA_N]), code as u32 * TEMP_RAW_SCALE);
    }
}

#[test]
fn flag_bits_of_a_reading_are_ignored() {
    assert_eq!(average_code(&vec![0xF000 | 877; TEMP_DMA_N]), 877 * 256);
}

#[test]
fn dither_resolves_below_one_code() {
    let mut block = vec![876u16; TEMP_DMA_N];
    for s in block.iter_mut().take(TEMP_DMA_N / 4) {
        *s = 877;
    }
    assert_eq!(average_code(&block), 876 * 256 + 64);
}

#[test]
fn full_scale_does_not_overflow() {
    assert_eq!(average_code(&vec![0xffff; TEMP_DMA_N]), 1_048_320);
}

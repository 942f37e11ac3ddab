use ina3221::{convert_from_12bit_signed, convert_to_12bit_signed};

#[test]
fn decode_raw_200_gives_25() {
    assert_eq!(convert_from_12bit_signed(0x00C8), 25);
}

#[test]
fn decode_is_total_over_the_word_domain() {
    assert_eq!(convert_from_12bit_signed(0x0000), 0);
    assert_eq!(convert_from_12bit_signed(0x0007), 0);
    assert_eq!(convert_from_12bit_signed(0x0008), 1);
    assert_eq!(convert_from_12bit_signed(0x7FF8), 4095);
    assert_eq!(convert_from_12bit_signed(0x7FFF), 4095);
    assert_eq!(convert_from_12bit_signed(0x8000), 4096);
    assert_eq!(convert_from_12bit_signed(0xFFFF), 0);
    assert_eq!(convert_from_12bit_signed(0xFFF8), 1);
}

#[test]
fn encode_shifts_left_by_three() {
    assert_eq!(convert_to_12bit_signed(0), 0x0000);
    assert_eq!(convert_to_12bit_signed(1), 0x0008);
    assert_eq!(convert_to_12bit_signed(25), 0x00C8);
    assert_eq!(convert_to_12bit_signed(4095), 0x7FF8);
    assert_eq!(convert_to_12bit_signed(4096), 0x8000);
}

#[test]
fn encode_clears_the_low_three_bits() {
    for value in [
        0, 1, -1, 25, -25, 4095, -4095, 4096, -4096, 8191, -8191, 123456, -123456, i32::MAX,
    ] {
        assert_eq!(convert_to_12bit_signed(value) & 0x7, 0);
    }
}

#[test]
fn round_trip_is_exact_up_to_4096() {
    for value in 0..=4096 {
        assert_eq!(convert_from_12bit_signed(convert_to_12bit_signed(value)), value);
    }
}

#[test]
fn round_trip_discards_the_sign() {
    assert_eq!(convert_from_12bit_signed(convert_to_12bit_signed(-5)), 5);
    assert_eq!(convert_from_12bit_signed(convert_to_12bit_signed(-25)), 25);
    assert_eq!(convert_from_12bit_signed(convert_to_12bit_signed(-4096)), 4096);
}

#[test]
fn round_trip_collapses_past_4096() {
    // 8191 still fits the 13-bit field pre-shift, but its encoding carries
    // bit 15, which decode treats as a sign to normalize away.
    assert_eq!(convert_to_12bit_signed(8191), 0xFFF8);
    assert_eq!(convert_from_12bit_signed(convert_to_12bit_signed(8191)), 1);
    assert_eq!(convert_from_12bit_signed(convert_to_12bit_signed(5000)), 3192);
}

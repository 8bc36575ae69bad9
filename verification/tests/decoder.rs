use spectrometer::decoder::{decode_magnitudes, word_exponent, word_magnitude, word_mantissa};

#[test]
fn exponent_is_top_byte() {
    assert_eq!(word_exponent(0x0000_0000_0000_0000), 0);
    assert_eq!(word_exponent(0x0200_0000_0000_0001), 2);
    assert_eq!(word_exponent(0x3f00_0000_0000_0000), 63);
    assert_eq!(word_exponent(u64::MAX), 255);
}

#[test]
fn mantissa_is_low_56_bits() {
    assert_eq!(word_mantissa(0x0000_0000_0000_0001), 1);
    assert_eq!(word_mantissa(0x0200_0000_0000_0001), 1);
    assert_eq!(word_mantissa(u64::MAX), 0x00ff_ffff_ffff_ffff);
    assert_eq!(word_mantissa(0xab12_3456_789a_bcde), 0x0012_3456_789a_bcde);
}

#[test]
fn magnitude_exponent_zero_is_mantissa() {
    assert_eq!(word_magnitude(0x0000_0000_0000_0001), 1);
    assert_eq!(word_magnitude(0x0000_0000_0000_abcd), 0xabcd);
}

#[test]
fn magnitude_shifts_by_twice_the_exponent() {
    // Exponent 2: mantissa 1 shifted left by 4.
    assert_eq!(word_magnitude(0x0200_0000_0000_0001), 16);
    // Exponent 1: mantissa 3 shifted left by 2.
    assert_eq!(word_magnitude(0x0100_0000_0000_0003), 12);
    // Exponent 28: mantissa 1 shifted left by 56.
    assert_eq!(word_magnitude(0x1c00_0000_0000_0001), 1u64 << 56);
}

#[test]
fn magnitude_truncates_high_bits() {
    // Exponent 31: only the low two mantissa bits survive the shift by 62.
    assert_eq!(
        word_magnitude(0x1f00_0000_0000_0007),
        0xc000_0000_0000_0000
    );
    // A shift distance of 64 or more yields zero.
    assert_eq!(word_magnitude(0x2000_0000_0000_0001), 0);
    assert_eq!(word_magnitude(0x3f00_ffff_ffff_ffff), 0);
    assert_eq!(word_magnitude(u64::MAX), 0);
}

#[test]
fn word_scaled_by_two_decodes_to_two() {
    // Exponent 0, mantissa 1, scale 2.0: the published value is 2.0.
    let mags = decode_magnitudes(&vec![0x0000_0000_0000_0001]);
    assert_eq!(mags, vec![1]);
    let value = mags[0] as f32 * 2.0f32;
    assert_eq!(value, 2.0f32);
}

#[test]
fn word_with_exponent_two_decodes_to_sixteen() {
    // Exponent 2, mantissa 1, scale 1.0: mantissa shifted left by 4 gives 16.0.
    let mags = decode_magnitudes(&vec![0x0200_0000_0000_0001]);
    assert_eq!(mags, vec![16]);
    let value = mags[0] as f32 * 1.0f32;
    assert_eq!(value, 16.0f32);
}

#[test]
fn decode_magnitudes_keeps_length_and_order() {
    assert_eq!(decode_magnitudes(&Vec::new()), Vec::<u64>::new());
    let buffer = vec![
        0x0000_0000_0000_0005,
        0x0100_0000_0000_0005,
        0x0200_0000_0000_0005,
    ];
    assert_eq!(decode_magnitudes(&buffer), vec![5, 20, 80]);
}

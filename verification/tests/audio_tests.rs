use papajbadge::audio::get_char_for_t;

#[test]
fn sample_at_tick_twenty() {
    // step 0 has factor 3: 60 / 12 = 5, bit 7 clear; the rhythm voice gives
    // (-2 * 20) / 4 = -10, whose low seven bits are 118.
    assert_eq!(get_char_for_t(20), 118);
}

#[test]
fn sample_at_tick_zero() {
    assert_eq!(get_char_for_t(0), 0);
}

#[test]
fn sample_in_second_step() {
    // t = 8192: step 1, factor 6; 49152 / 12 = 4096, bit 7 clear.
    // a = 2, a ^ (a - 2) = 2, 2 * 8192 / 4 = 4096, | 1 = 4097, & 127 = 1.
    assert_eq!(get_char_for_t(8192), 1);
}

#[test]
fn sample_with_melody_bit_set() {
    // t = 512: 512 * 3 / 12 = 128, bit 7 set; rhythm: (-2 * 512) / 4 = -256, & 127 = 0.
    assert_eq!(get_char_for_t(512), 128);
}

#[test]
fn sample_of_negative_tick() {
    // t = -20: t >> 13 = -1, step 7, factor 9; -180 / 12 = -15, & 128 = 128.
    // a = -1, a ^ (a - 2) = -1 ^ -3 = 2; 2 * -20 / 4 = -10; | -1 = -1; & 127 = 127.
    assert_eq!(get_char_for_t(-20), 255);
}

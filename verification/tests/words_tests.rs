use solar_modbus::words::{byte_to_char, idm_bytes_to_words, modbus_to_str, word_as_i16, words_to_i32};

#[test]
fn single_register_as_signed() {
    assert_eq!(word_as_i16(0), 0);
    assert_eq!(word_as_i16(0x7FFF), 32767);
    assert_eq!(word_as_i16(0x8000), -32768);
    assert_eq!(word_as_i16(0xFFFF), -1);
    assert_eq!(word_as_i16(0xFF38), -200);
}

#[test]
fn register_pair_low_word_first() {
    assert_eq!(words_to_i32(0x5678, 0x1234), 0x1234_5678);
    assert_eq!(words_to_i32(0xFFFE, 0xFFFF), -2);
    assert_eq!(words_to_i32(0x0000, 0x8000), i32::MIN);
    assert_eq!(words_to_i32(0xFFFF, 0x7FFF), i32::MAX);
    assert_eq!(words_to_i32(1500, 0), 1500);
}

#[test]
fn heatpump_words_of_a_float() {
    // 10.0f32 is 0x4120_0000
    assert_eq!(idm_bytes_to_words(10.0f32.to_be_bytes()), [0x0000, 0x4120]);
    assert_eq!(idm_bytes_to_words([0x12, 0x34, 0x56, 0x78]), [0x5678, 0x1234]);
    assert_eq!(idm_bytes_to_words(1.5f32.to_be_bytes()), [0x0000, 0x3FC0]);
}

#[test]
fn heatpump_words_read_back_as_the_written_bits() {
    for v in [0.0f32, -0.0, 1.0, -2.5, 1234.567, f32::MAX, f32::MIN_POSITIVE] {
        let w = idm_bytes_to_words(v.to_be_bytes());
        assert_eq!(words_to_i32(w[0], w[1]) as u32, v.to_bits());
    }
}

#[test]
fn registers_as_text() {
    assert_eq!(modbus_to_str(&vec![0x4142, 0x4344]), "ABCD");
    assert_eq!(modbus_to_str(&vec![]), "");
    assert_eq!(modbus_to_str(&vec![0x4800, 0xE941]), "H\u{0}\u{e9}A");
    assert_eq!(byte_to_char(0xE9), '\u{e9}');
}

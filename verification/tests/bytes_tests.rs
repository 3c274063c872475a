use grib2::bytes::{i16_be, i32_be, i8_be, u16_be, u32_be, u64_be, u8_be};

#[test]
fn unsigned_reads_are_big_endian() {
    let buf = vec![0x01, 0x02, 0x03, 0x04, 0x05, 0x06, 0x07, 0x08];
    assert_eq!(u8_be(&buf, 2), 0x03);
    assert_eq!(u16_be(&buf, 1), 0x0203);
    assert_eq!(u32_be(&buf, 0), 0x0102_0304);
    assert_eq!(u64_be(&buf, 0), 0x0102_0304_0506_0708);
}

#[test]
fn sign_magnitude_missing_sentinel_is_reinterpreted_unchanged() {
    // All bits set is the missing sentinel; it is not negated but kept as
    // the same bit pattern, which reads back as -1.
    let buf = vec![0xFF, 0xFF, 0xFF, 0xFF];
    assert_eq!(i32_be(&buf, 0), -1);
    assert_eq!(i16_be(&buf, 0), -1);
    assert_eq!(i8_be(&buf, 0), -1);
}

#[test]
fn sign_magnitude_negates_magnitude_under_set_sign_bit() {
    // A 32-bit value with the sign bit set and low bits 5 decodes to -5.
    let buf = vec![0x80, 0x00, 0x00, 0x05];
    assert_eq!(i32_be(&buf, 0), -5);
    let buf16 = vec![0x80, 0x07];
    assert_eq!(i16_be(&buf16, 0), -7);
    let buf8 = vec![0x83];
    assert_eq!(i8_be(&buf8, 0), -3);
}

#[test]
fn sign_magnitude_positive_values_pass_through() {
    let buf = vec![0x00, 0x00, 0x00, 0x2A];
    assert_eq!(i32_be(&buf, 0), 42);
    let buf16 = vec![0x12, 0x34];
    assert_eq!(i16_be(&buf16, 0), 0x1234);
}

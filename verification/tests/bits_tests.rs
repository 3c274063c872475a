use grib2::bits::unpack;

#[test]
fn unpack_count_matches_floor_of_available_bits() {
    // For widths 1..=15 and several buffer lengths, the unpacker yields
    // exactly floor(8 L / w) values, each below 2^w.
    for w in 1..16usize {
        for len in 0..6usize {
            let buf = vec![0xFFu8; len];
            let values = unpack(&buf, w);
            assert_eq!(values.len(), 8 * len / w);
            for v in values {
                assert!((v as u32) < (1u32 << w));
            }
        }
    }
}

#[test]
fn unpack_reads_msb_first_within_bytes() {
    // 0xAB 0xCD 0xEF at width 12 is 0xABC then 0xDEF.
    let buf = vec![0xAB, 0xCD, 0xEF];
    let values = unpack(&buf, 12);
    assert_eq!(values, vec![0xABC, 0xDEF]);
}

#[test]
fn unpack_values_straddle_byte_boundaries() {
    // Width 3 over 0b00110101 0b01110000: 001 101 010 111 000 = 1 5 2 7 0.
    let buf = vec![0x35, 0x70];
    let values = unpack(&buf, 3);
    assert_eq!(values, vec![1, 5, 2, 7, 0]);
}

#[test]
fn unpack_round_trip_of_packed_sequence() {
    // A known sequence packed bit-exactly at width 3 comes back exactly,
    // with the zero padding decoding to trailing zero values.
    let original = [1u16, 5, 2, 7];
    // 001 101 010 111 -> 0b00110101 0b01110000
    let packed = vec![0b0011_0101u8, 0b0111_0000];
    let values = unpack(&packed, 3);
    assert_eq!(&values[..4], &original[..]);
    for v in &values[4..] {
        assert_eq!(*v, 0);
    }
}

#[test]
fn unpack_discards_trailing_partial_group() {
    // 16 bits at width 5: three full groups, one discarded bit.
    let buf = vec![0xFF, 0xFF];
    let values = unpack(&buf, 5);
    assert_eq!(values.len(), 3);
    assert_eq!(values, vec![31, 31, 31]);
}

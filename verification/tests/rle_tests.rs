use grib2::rle::unpack_run_length_packing;
use grib2::Grib2Error;

#[test]
fn rle_levels_expand_to_single_runs() {
    // At width 8 with levels up to 10, three level tokens are three runs
    // of length one.
    let buf = vec![3u8, 5, 5];
    let out = unpack_run_length_packing(&buf, 8, 10).unwrap();
    assert_eq!(out, vec![3, 5, 5]);
}

#[test]
fn rle_digit_extends_current_run() {
    // Base is 2^8 - 1 - 10 = 245. Token 12 adds 245^0 * (12 - 11) = 1 to
    // the pending run of level 2.
    let buf = vec![2u8, 12];
    let out = unpack_run_length_packing(&buf, 8, 10).unwrap();
    assert_eq!(out, vec![2, 2]);
}

#[test]
fn rle_multi_digit_run_length_uses_positional_base() {
    // Two digits: 1 + 245^0 * 1 + 245^1 * 1 = 247 copies of level 2.
    let buf = vec![2u8, 12, 12];
    let out = unpack_run_length_packing(&buf, 8, 10).unwrap();
    assert_eq!(out.len(), 247);
    assert!(out.iter().all(|v| *v == 2));
}

#[test]
fn rle_rejects_empty_stream() {
    let buf: Vec<u8> = Vec::new();
    assert_eq!(unpack_run_length_packing(&buf, 8, 10), Err(Grib2Error::DecodeMismatch));
}

#[test]
fn rle_rejects_leading_run_length_digit() {
    // A stream opening with a digit continues no run and is malformed.
    let buf = vec![0xFFu8];
    assert_eq!(unpack_run_length_packing(&buf, 8, 10), Err(Grib2Error::DecodeMismatch));
}

#[test]
fn rle_narrow_width_tokens() {
    // Width 4, max level 2, base 2^4 - 1 - 2 = 13: tokens 1, 4, 2 are
    // level 1 extended by 4 - 3 = 1, then level 2.
    // Packed at width 4: 0001 0100 0010 -> bytes 0x14, 0x20; the trailing
    // 0 token is one more run of level 0.
    let buf = vec![0x14u8, 0x20];
    let out = unpack_run_length_packing(&buf, 4, 2).unwrap();
    assert_eq!(out, vec![1, 1, 2, 0]);
}

use grib2::bitmap::{apply_bit_map_u16, apply_bit_map_u8, count_bits};
use grib2::section::{pixel_bounds_u16, pixel_bounds_u8};

#[test]
fn count_bits_counts_msb_first_prefixes() {
    let bm = vec![0b1010_0001u8, 0xFF];
    assert_eq!(count_bits(&bm, 0), 0);
    assert_eq!(count_bits(&bm, 1), 1);
    assert_eq!(count_bits(&bm, 4), 2);
    assert_eq!(count_bits(&bm, 8), 3);
    assert_eq!(count_bits(&bm, 16), 11);
}

#[test]
fn all_ones_bitmap_reproduces_the_input() {
    let bm = vec![0xF0u8];
    let src = vec![10u16, 20, 30, 40];
    let out = apply_bit_map_u16(&src, &bm, 2, 2);
    assert_eq!(out, src);
}

#[test]
fn all_zeros_bitmap_is_all_sentinel_and_consumes_nothing() {
    let bm = vec![0x00u8];
    let src: Vec<u16> = Vec::new();
    let out = apply_bit_map_u16(&src, &bm, 2, 2);
    assert_eq!(out, vec![u16::MAX; 4]);
}

#[test]
fn mixed_bitmap_interleaves_values_and_sentinels() {
    // Bits 1 0 1 0 over a 2 by 2 grid.
    let bm = vec![0b1010_0000u8];
    let src = vec![9u16, 8];
    let out = apply_bit_map_u16(&src, &bm, 2, 2);
    assert_eq!(out, vec![9, u16::MAX, 8, u16::MAX]);
}

#[test]
fn eight_bit_masking_uses_the_eight_bit_sentinel() {
    let bm = vec![0b0110_0000u8];
    let src = vec![3u8, 4];
    let out = apply_bit_map_u8(&src, &bm, 4, 1);
    assert_eq!(out, vec![u8::MAX, 3, 4, u8::MAX]);
}

#[test]
fn output_length_is_always_width_times_height() {
    let bm = vec![0xFFu8, 0xFF];
    let src = vec![1u16; 15];
    let out = apply_bit_map_u16(&src, &bm, 5, 3);
    assert_eq!(out.len(), 15);
}

#[test]
fn observed_range_skips_the_sentinel() {
    let (min, max) = pixel_bounds_u16(&[7, u16::MAX, 3, 9]);
    assert_eq!((min, max), (3, 9));
    let (min, max) = pixel_bounds_u16(&[u16::MAX, u16::MAX]);
    assert_eq!((min, max), (0xFFFE, 0));
    let (min, max) = pixel_bounds_u8(&[5, 2, 9]);
    assert_eq!((min, max), (2, 9));
}

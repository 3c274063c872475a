use grib2::framer::parse;
use grib2::section::PackingType;
use grib2::sectionset::SectionSet;
use grib2::Grib2Error;

fn put_u16(buf: &mut Vec<u8>, at: usize, v: u16) {
    buf[at] = (v >> 8) as u8;
    buf[at + 1] = v as u8;
}

fn put_u32(buf: &mut Vec<u8>, at: usize, v: u32) {
    buf[at] = (v >> 24) as u8;
    buf[at + 1] = (v >> 16) as u8;
    buf[at + 2] = (v >> 8) as u8;
    buf[at + 3] = v as u8;
}

fn section0() -> Vec<u8> {
    let mut s = vec![0u8; 16];
    s[0] = 0x47;
    s[1] = 0x52;
    s[2] = 0x49;
    s[3] = 0x42;
    s
}

fn section1() -> Vec<u8> {
    let mut s = vec![0u8; 21];
    put_u32(&mut s, 0, 21);
    s[4] = 1;
    put_u16(&mut s, 12, 2021);
    s[14] = 6;
    s[15] = 15;
    s
}

fn section3() -> Vec<u8> {
    let mut s = vec![0u8; 71];
    put_u32(&mut s, 0, 71);
    s[4] = 3;
    put_u32(&mut s, 6, 4);
    put_u32(&mut s, 30, 2);
    put_u32(&mut s, 34, 2);
    s
}

fn section4_statistical() -> Vec<u8> {
    let mut s = vec![0u8; 53];
    put_u32(&mut s, 0, 53);
    s[4] = 4;
    put_u16(&mut s, 7, 8); // template 4.8
    s[9] = 1;
    s[10] = 200;
    s[17] = 13;
    // end of the overall time interval at offset 34
    put_u16(&mut s, 34, 2022);
    s[36] = 3;
    s[37] = 4;
    s[38] = 5;
    s[39] = 6;
    s[40] = 7;
    s[46] = 1; // statistical process
    s[48] = 13; // statistics span unit: seconds
    put_u32(&mut s, 49, 60);
    s
}

fn section5_rle(point_count: u32) -> Vec<u8> {
    // Template 5.200 with MV = 5, MVL = 2, levels 10 and 20.
    let mut s = vec![0u8; 21];
    put_u32(&mut s, 0, 21);
    s[4] = 5;
    put_u32(&mut s, 5, point_count);
    put_u16(&mut s, 9, 200);
    s[11] = 8; // bits per token
    put_u16(&mut s, 12, 5); // MV
    put_u16(&mut s, 14, 2); // MVL
    s[16] = 1; // decimal scale factor of the levels
    put_u16(&mut s, 17, 10);
    put_u16(&mut s, 19, 20);
    s
}

fn section5_complex(point_count: u32) -> Vec<u8> {
    let mut s = vec![0u8; 49];
    put_u32(&mut s, 0, 49);
    s[4] = 5;
    put_u32(&mut s, 5, point_count);
    put_u16(&mut s, 9, 3);
    s[19] = 8; // bits per group reference
    put_u32(&mut s, 31, 1); // NG
    s[35] = 0; // group width reference
    s[36] = 8; // group width bits
    put_u32(&mut s, 37, 0); // group length reference
    s[41] = 0; // group length increment
    put_u32(&mut s, 42, 4); // last group length
    s[46] = 8; // group length bits
    s[47] = 2; // order
    s[48] = 2; // octets
    s
}

fn section6_none() -> Vec<u8> {
    let mut s = vec![0u8; 6];
    put_u32(&mut s, 0, 6);
    s[4] = 6;
    s[5] = 255;
    s
}

fn section7(payload: &[u8]) -> Vec<u8> {
    let mut s = vec![0u8; 5 + payload.len()];
    put_u32(&mut s, 0, (5 + payload.len()) as u32);
    s[4] = 7;
    s[5..].copy_from_slice(payload);
    s
}

fn trailer() -> Vec<u8> {
    vec![0x37, 0x37, 0x37, 0x37]
}

#[test]
fn decode_without_sections_reports_the_missing_one() {
    let empty = SectionSet::new();
    assert_eq!(empty.unpack_simple().err(), Some(Grib2Error::MissingSection(3)));
    assert_eq!(empty.unpack_run_length().err(), Some(Grib2Error::MissingSection(3)));
    assert_eq!(
        empty.unpack_complex_packing_and_spatial_differencing().err(),
        Some(Grib2Error::MissingSection(3))
    );
    assert_eq!(empty.point_count(), None);
    assert_eq!(empty.bpp(), None);
    assert_eq!(empty.datetime(), None);
}

#[test]
fn run_length_field_end_to_end() {
    let mut buf = Vec::new();
    buf.extend(section0());
    buf.extend(section1());
    buf.extend(section3());
    buf.extend(section4_statistical());
    buf.extend(section5_rle(4));
    buf.extend(section6_none());
    buf.extend(section7(&[1, 2, 2, 1]));
    buf.extend(trailer());

    let sets = parse(&buf);
    assert_eq!(sets.len(), 1);
    let s = sets.get(0);
    assert_eq!(s.packing_type(), Some(PackingType::RunLength));
    assert_eq!(s.bpp(), Some(8));
    let img = s.unpack_run_length().unwrap();
    assert_eq!(img.pixels, vec![1, 2, 2, 1]);
    assert_eq!(img.levels, vec![10, 20]);
    assert_eq!(img.bits, 8);
    assert_eq!(img.factor, 1);
    assert_eq!(img.width, 2);
    assert_eq!(img.height, 2);
}

#[test]
fn complex_field_end_to_end() {
    let payload = [
        0x00u8, 0x05, // h1
        0x00, 0x07, // h2
        0x00, 0x00, // minimum
        0x00, // group references
        0x00, // group widths
        0x00, // group lengths
    ];
    let mut buf = Vec::new();
    buf.extend(section0());
    buf.extend(section1());
    buf.extend(section3());
    buf.extend(section4_statistical());
    buf.extend(section5_complex(4));
    buf.extend(section6_none());
    buf.extend(section7(&payload));
    buf.extend(trailer());

    let sets = parse(&buf);
    let s = sets.get(0);
    assert_eq!(s.packing_type(), Some(PackingType::ComplexPackingAndSpatialDifferencing));
    let img = s.unpack_complex_packing_and_spatial_differencing().unwrap();
    assert_eq!(img.pixels, vec![5, 7, 9, 11]);
    // A simple-packing decode of the same set is a template mismatch.
    assert_eq!(s.unpack_simple().err(), Some(Grib2Error::UnsupportedTemplate));
}

#[test]
fn statistical_template_takes_the_interval_end_as_valid_time() {
    let mut buf = Vec::new();
    buf.extend(section0());
    buf.extend(section1());
    buf.extend(section3());
    buf.extend(section4_statistical());
    buf.extend(section5_rle(4));
    buf.extend(section6_none());
    buf.extend(section7(&[1, 2, 2, 1]));
    buf.extend(trailer());

    let sets = parse(&buf);
    let s = sets.get(0);
    let valid = s.datetime().unwrap();
    assert_eq!(valid.year, 2022);
    assert_eq!(valid.month, 3);
    assert_eq!(valid.day, 4);
    assert_eq!(valid.hour, 5);
    assert_eq!(valid.minute, 6);
    assert_eq!(valid.second, 7);
    assert_eq!(s.parameter_category(), Some(1));
    assert_eq!(s.parameter_number(), Some(200));
}

#[test]
fn point_count_mismatch_is_corrupt_input() {
    let mut buf = Vec::new();
    buf.extend(section0());
    buf.extend(section1());
    buf.extend(section3());
    buf.extend(section4_statistical());
    buf.extend(section5_rle(9)); // declares more points than the data has
    buf.extend(section6_none());
    buf.extend(section7(&[1, 2, 2, 1]));
    buf.extend(trailer());

    let sets = parse(&buf);
    let s = sets.get(0);
    assert_eq!(s.unpack_run_length().err(), Some(Grib2Error::DecodeMismatch));
}

#[test]
fn zero_bit_width_is_a_precondition_violation() {
    let mut s5 = section5_rle(4);
    s5[11] = 0;
    let mut buf = Vec::new();
    buf.extend(section0());
    buf.extend(section1());
    buf.extend(section3());
    buf.extend(section4_statistical());
    buf.extend(s5);
    buf.extend(section6_none());
    buf.extend(section7(&[1, 2, 2, 1]));
    buf.extend(trailer());

    let sets = parse(&buf);
    let s = sets.get(0);
    assert_eq!(s.unpack_run_length().err(), Some(Grib2Error::PreconditionViolation));
}

#[test]
fn decoded_values_order_as_their_raw_pixels_do() {
    // With positive scale factors the affine simple-packing transform
    // preserves the raw ordering; spot-check the physical values.
    let r = 100.0f32;
    let e = -1i32;
    let d = 1i32;
    let decode = |v: u16| (r + (v as f32) * 2.0f32.powi(e)) / 10.0f32.powi(d);
    let raw = [0u16, 1, 5, 100, 30000];
    for w in raw.windows(2) {
        assert!(decode(w[0]) < decode(w[1]));
    }
}

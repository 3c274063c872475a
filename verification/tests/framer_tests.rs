use grib2::datetime::GribDateTime;
use grib2::framer::parse;
use grib2::section::PackingType;

fn put_u16(buf: &mut Vec<u8>, at: usize, v: u16) {
    buf[at] = (v >> 8) as u8;
    buf[at + 1] = v as u8;
}

fn put_u32(buf: &mut Vec<u8>, at: usize, v: u32) {
    buf[at] = (v >> 24) as u8;
    buf[at + 1] = (v >> 16) as u8;
    buf[at + 2] = (v >> 8) as u8;
    buf[at + 3] = v as u8;
}

fn section0() -> Vec<u8> {
    let mut s = vec![0u8; 16];
    s[0] = 0x47;
    s[1] = 0x52;
    s[2] = 0x49;
    s[3] = 0x42;
    s[6] = 0; // discipline
    s
}

fn section1() -> Vec<u8> {
    let mut s = vec![0u8; 21];
    put_u32(&mut s, 0, 21);
    s[4] = 1;
    put_u16(&mut s, 12, 2021);
    s[14] = 1;
    s[15] = 2;
    s[16] = 3;
    s[17] = 4;
    s[18] = 5;
    s
}

fn section2() -> Vec<u8> {
    let mut s = vec![0u8; 5];
    put_u32(&mut s, 0, 5);
    s[4] = 2;
    s
}

fn section3() -> Vec<u8> {
    let mut s = vec![0u8; 71];
    put_u32(&mut s, 0, 71);
    s[4] = 3;
    put_u32(&mut s, 6, 4); // point count
    put_u32(&mut s, 30, 2); // Ni
    put_u32(&mut s, 34, 2); // Nj
    put_u32(&mut s, 46, 0x8000_0005); // La1 = -5
    put_u32(&mut s, 50, 20); // Lo1
    put_u32(&mut s, 55, 30); // La2
    put_u32(&mut s, 59, 40); // Lo2
    put_u32(&mut s, 63, 1); // Di
    put_u32(&mut s, 67, 2); // Dj
    s
}

fn section4() -> Vec<u8> {
    let mut s = vec![0u8; 34];
    put_u32(&mut s, 0, 34);
    s[4] = 4;
    put_u16(&mut s, 7, 0); // template 4.0
    s[9] = 1; // parameter category
    s[10] = 2; // parameter number
    s[17] = 13; // forecast span unit: seconds
    put_u32(&mut s, 18, 3600);
    s[22] = 1; // first plane type
    s
}

fn section5_simple(point_count: u32) -> Vec<u8> {
    let mut s = vec![0u8; 21];
    put_u32(&mut s, 0, 21);
    s[4] = 5;
    put_u32(&mut s, 5, point_count);
    put_u16(&mut s, 9, 0); // template 5.0
    s[19] = 8; // bits per value
    s
}

fn section6_none() -> Vec<u8> {
    let mut s = vec![0u8; 6];
    put_u32(&mut s, 0, 6);
    s[4] = 6;
    s[5] = 255;
    s
}

fn section7(payload: &[u8]) -> Vec<u8> {
    let mut s = vec![0u8; 5 + payload.len()];
    put_u32(&mut s, 0, (5 + payload.len()) as u32);
    s[4] = 7;
    s[5..].copy_from_slice(payload);
    s
}

fn trailer() -> Vec<u8> {
    vec![0x37, 0x37, 0x37, 0x37]
}

#[test]
fn header_and_trailer_alone_emit_nothing() {
    // "GRIB" + discipline 0 + total length 16, then "7777": section 0 is
    // seen but no section 7 ever is, so no section set is emitted.
    let buf = vec![
        0x47, 0x52, 0x49, 0x42, 0x00, 0x00, 0x00, 0x00, 0x00, 0x00, 0x00, 0x00, 0x00, 0x00, 0x00,
        0x10, 0x37, 0x37, 0x37, 0x37,
    ];
    let sets = parse(&buf);
    assert_eq!(sets.len(), 0);
}

#[test]
fn two_data_groups_share_the_leading_sections() {
    // One section 0/1/2/3 group, then two independent section 4/5/6/7
    // groups, then the trailer: exactly two section sets come out, with
    // identical section 1/2/3 content.
    let mut buf = Vec::new();
    buf.extend(section0());
    buf.extend(section1());
    buf.extend(section2());
    buf.extend(section3());
    for payload in [[1u8, 2, 3, 4], [5u8, 6, 7, 8]] {
        buf.extend(section4());
        buf.extend(section5_simple(4));
        buf.extend(section6_none());
        buf.extend(section7(&payload));
    }
    buf.extend(trailer());

    let sets = parse(&buf);
    assert_eq!(sets.len(), 2);
    let a = sets.get(0);
    let b = sets.get(1);
    assert_eq!(a.point_count(), Some(4));
    assert_eq!(b.point_count(), Some(4));
    assert_eq!(a.di(), Some(1));
    assert_eq!(b.di(), Some(1));
    assert_eq!(a.dj(), Some(2));
    assert_eq!(b.dj(), Some(2));
    let expected_ref = GribDateTime { year: 2021, month: 1, day: 2, hour: 3, minute: 4, second: 5 };
    assert_eq!(a.reference_datetime(), Some(expected_ref));
    assert_eq!(b.reference_datetime(), Some(expected_ref));
    assert_eq!(a.master_table_number(), Some(0));

    let ia = a.unpack_simple().unwrap();
    let ib = b.unpack_simple().unwrap();
    assert_eq!(ia.pixels, vec![1, 2, 3, 4]);
    assert_eq!(ib.pixels, vec![5, 6, 7, 8]);
    assert_eq!(ia.width, 2);
    assert_eq!(ia.height, 2);
    assert_eq!(ia.bits, 8);
}

#[test]
fn metadata_of_a_parsed_set() {
    let mut buf = Vec::new();
    buf.extend(section0());
    buf.extend(section1());
    buf.extend(section2());
    buf.extend(section3());
    buf.extend(section4());
    buf.extend(section5_simple(4));
    buf.extend(section6_none());
    buf.extend(section7(&[1, 2, 3, 4]));
    buf.extend(trailer());

    let sets = parse(&buf);
    assert_eq!(sets.len(), 1);
    let s = sets.get(0);
    assert_eq!(s.parameter_category(), Some(1));
    assert_eq!(s.parameter_number(), Some(2));
    assert_eq!(s.first_plane_type(), Some(1));
    assert_eq!(s.first_plane_factor(), Some(0));
    assert_eq!(s.first_plane_value(), Some(0));
    assert_eq!(s.bpp(), Some(8));
    assert_eq!(s.packing_type(), Some(PackingType::Simple));
    let bounds = s.bounds().unwrap();
    assert_eq!(bounds.top, -5);
    assert_eq!(bounds.left, 20);
    assert_eq!(bounds.bottom, 30);
    assert_eq!(bounds.right, 40);
    // Valid time: reference plus a forecast span of 3600 seconds.
    let valid = s.datetime().unwrap();
    assert_eq!(
        valid,
        GribDateTime { year: 2021, month: 1, day: 2, hour: 4, minute: 4, second: 5 }
    );
}

#[test]
fn bitmap_reuse_keeps_the_previous_bitmap() {
    // The first group embeds a bitmap (indicator 0); the second asks to
    // reuse it (indicator 254). Both emitted sets see the embedded one.
    let mut s6_embedded = vec![0u8; 7];
    put_u32(&mut s6_embedded, 0, 7);
    s6_embedded[4] = 6;
    s6_embedded[5] = 0;
    s6_embedded[6] = 0b1010_0000;
    let mut s6_reuse = vec![0u8; 6];
    put_u32(&mut s6_reuse, 0, 6);
    s6_reuse[4] = 6;
    s6_reuse[5] = 254;

    let mut buf = Vec::new();
    buf.extend(section0());
    buf.extend(section1());
    buf.extend(section3());
    buf.extend(section4());
    buf.extend(section5_simple(2));
    buf.extend(s6_embedded);
    buf.extend(section7(&[9, 8]));
    buf.extend(section4());
    buf.extend(section5_simple(2));
    buf.extend(s6_reuse);
    buf.extend(section7(&[7, 6]));
    buf.extend(trailer());

    let sets = parse(&buf);
    assert_eq!(sets.len(), 2);
    let first = sets.get(0).unpack_simple().unwrap();
    assert_eq!(first.pixels, vec![9, u16::MAX, 8, u16::MAX]);
    let second = sets.get(1).unpack_simple().unwrap();
    assert_eq!(second.pixels, vec![7, u16::MAX, 6, u16::MAX]);
}

#[test]
fn iterator_walks_the_emitted_sets_in_order() {
    let mut buf = Vec::new();
    buf.extend(section0());
    buf.extend(section1());
    buf.extend(section3());
    for payload in [[1u8, 2, 3, 4], [5u8, 6, 7, 8]] {
        buf.extend(section4());
        buf.extend(section5_simple(4));
        buf.extend(section6_none());
        buf.extend(section7(&payload));
    }
    buf.extend(trailer());
    let sets = parse(&buf);
    let mut iter = sets.iter();
    let mut seen = 0;
    while let Some(s) = iter.next() {
        assert_eq!(s.point_count(), Some(4));
        seen += 1;
    }
    assert_eq!(seen, 2);
}

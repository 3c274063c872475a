use grib2::datetime::GribDateTime;
use grib2::section4::Section4;
use grib2::section5::Section5;
use grib2::section7::Section7;
use grib2::section7_template::TemplateNumber;

fn put_u16(buf: &mut Vec<u8>, at: usize, v: u16) {
    buf[at] = (v >> 8) as u8;
    buf[at + 1] = v as u8;
}

fn reference() -> GribDateTime {
    GribDateTime { year: 2021, month: 1, day: 1, hour: 0, minute: 0, second: 0 }
}

fn section4_with(template: u16, len: usize) -> Vec<u8> {
    let mut s = vec![0u8; len];
    s[3] = len as u8;
    s[4] = 4;
    put_u16(&mut s, 7, template);
    s
}

fn stamp(buf: &mut Vec<u8>, at: usize, year: u16, month: u8, day: u8) {
    put_u16(buf, at, year);
    buf[at + 2] = month;
    buf[at + 3] = day;
}

#[test]
fn template_9_reads_its_interval_end_where_its_layout_puts_it() {
    let mut b = section4_with(9, 66);
    stamp(&mut b, 47, 2023, 8, 9);
    let s4 = Section4::create(b).unwrap();
    let t = s4.template().unwrap();
    let valid = t.datetime(&reference()).unwrap();
    assert_eq!((valid.year, valid.month, valid.day), (2023, 8, 9));
}

#[test]
fn template_11_reads_its_interval_end_where_its_layout_puts_it() {
    let mut b = section4_with(11, 56);
    stamp(&mut b, 37, 2024, 11, 30);
    let s4 = Section4::create(b).unwrap();
    let t = s4.template().unwrap();
    let valid = t.datetime(&reference()).unwrap();
    assert_eq!((valid.year, valid.month, valid.day), (2024, 11, 30));
}

#[test]
fn local_statistical_templates_share_the_common_layout() {
    for number in [50008u16, 50009, 50011, 50012] {
        let mut b = section4_with(number, 53);
        stamp(&mut b, 34, 2022, 6, 1);
        b[46] = 0; // statistical process: average
        let s4 = Section4::create(b).unwrap();
        let t = s4.template().unwrap();
        let valid = t.datetime(&reference()).unwrap();
        assert_eq!((valid.year, valid.month, valid.day), (2022, 6, 1));
    }
}

#[test]
fn forecast_templates_shift_the_reference_time() {
    for number in [0u16, 1, 50000] {
        let mut b = section4_with(number, 34);
        b[17] = 1; // span unit: hours
        b[21] = 2; // magnitude
        let s4 = Section4::create(b).unwrap();
        let t = s4.template().unwrap();
        let valid = t.datetime(&reference()).unwrap();
        assert_eq!((valid.hour, valid.day), (2, 1));
    }
}

#[test]
fn unknown_template_numbers_are_unsupported() {
    let s4 = Section4::create(section4_with(2, 34)).unwrap();
    assert!(s4.template().is_none());
    // A known number with a section too short for its layout is equally
    // unsupported.
    let s4 = Section4::create(section4_with(8, 40)).unwrap();
    assert!(s4.template().is_none());
}

#[test]
fn data_representation_template_too_short_is_unsupported() {
    let mut b = vec![0u8; 19];
    b[4] = 5;
    put_u16(&mut b, 9, 0);
    let s5 = Section5::create(b).unwrap();
    assert!(s5.template().is_none());
    assert!(s5.bpp().is_none());
    assert!(s5.packing_type().is_none());
}

#[test]
fn data_template_variant_follows_the_paired_template_number() {
    let header = |number: u16, len: u8| {
        let mut b = vec![0u8; len as usize];
        b[3] = len;
        b[4] = 5;
        b[9] = (number >> 8) as u8;
        b[10] = number as u8;
        b
    };
    let data = vec![0u8, 0, 0, 9, 7, 1, 2, 3, 4];

    let s5 = Section5::create(header(0, 20)).unwrap();
    let s7 = Section7::create(data.clone(), &s5).unwrap();
    assert!(matches!(s7.template(), Some(TemplateNumber::T0(_))));

    let mut complex = header(3, 49);
    complex[47] = 2;
    complex[48] = 2;
    let s5 = Section5::create(complex).unwrap();
    let s7 = Section7::create(data.clone(), &s5).unwrap();
    assert!(matches!(s7.template(), Some(TemplateNumber::T3(_))));

    let s5 = Section5::create(header(200, 17)).unwrap();
    let s7 = Section7::create(data.clone(), &s5).unwrap();
    assert!(matches!(s7.template(), Some(TemplateNumber::T200(_))));

    let s5 = Section5::create(header(4, 20)).unwrap();
    let s7 = Section7::create(data, &s5).unwrap();
    assert!(s7.template().is_none());
}

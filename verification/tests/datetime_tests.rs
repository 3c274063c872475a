use grib2::datetime::{advance_datetime, datetime_be, time_span_be, GribDateTime};

fn dt(year: u16, month: u8, day: u8, hour: u8, minute: u8, second: u8) -> GribDateTime {
    GribDateTime { year, month, day, hour, minute, second }
}

#[test]
fn datetime_reads_the_seven_byte_field() {
    let buf = vec![0x07, 0xE5, 3, 14, 15, 9, 26];
    assert_eq!(datetime_be(&buf, 0), dt(2021, 3, 14, 15, 9, 26));
}

#[test]
fn time_span_units_convert_to_seconds() {
    // Unit code, then a 4-byte magnitude of 2.
    let span = |unit: u8| {
        let buf = vec![unit, 0, 0, 0, 2];
        time_span_be(&buf, 0)
    };
    assert_eq!(span(0), Some(120)); // minutes
    assert_eq!(span(1), Some(7200)); // hours
    assert_eq!(span(2), Some(172800)); // days, the seconds-based formula
    assert_eq!(span(10), Some(21600)); // 3-hour units
    assert_eq!(span(11), Some(43200)); // 6-hour units
    assert_eq!(span(12), Some(86400)); // 12-hour units
    assert_eq!(span(13), Some(2)); // seconds
}

#[test]
fn unrecognized_time_span_unit_has_no_value() {
    let buf = vec![3u8, 0, 0, 0, 2];
    assert_eq!(time_span_be(&buf, 0), None);
}

#[test]
fn advancing_by_an_hour_moves_the_clock() {
    let t = dt(2021, 1, 1, 0, 0, 0);
    assert_eq!(advance_datetime(&t, 3600), Some(dt(2021, 1, 1, 1, 0, 0)));
}

#[test]
fn advancing_across_a_leap_day() {
    let t = dt(2020, 2, 28, 12, 0, 0);
    assert_eq!(advance_datetime(&t, 86400), Some(dt(2020, 2, 29, 12, 0, 0)));
}

#[test]
fn advancing_across_a_year_boundary() {
    let t = dt(2020, 12, 31, 23, 59, 59);
    assert_eq!(advance_datetime(&t, 1), Some(dt(2021, 1, 1, 0, 0, 0)));
}

#[test]
fn advancing_an_invalid_date_yields_nothing() {
    let t = dt(2021, 13, 1, 0, 0, 0);
    assert_eq!(advance_datetime(&t, 60), None);
}

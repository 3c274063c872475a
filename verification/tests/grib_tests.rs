use grib2::grib::{Grib2, ParameterDescription, ParameterInfo};

fn info(discipline: usize, category: usize, number: usize, name: &str, unit: &str) -> ParameterInfo {
    ParameterInfo {
        discipline,
        category,
        number,
        description: ParameterDescription { name: String::from(name), unit: String::from(unit) },
    }
}

#[test]
fn parameter_lookup_finds_registered_entries() {
    let mut g = Grib2::new();
    g.add_parameter_description(info(0, 1, 8, "Total precipitation", "kg m-2"));
    g.add_parameter_description(info(0, 3, 5, "Geopotential height", "gpm"));
    let d = g.parameter_description(0, 1, 8).unwrap();
    assert_eq!(d.name, "Total precipitation");
    assert_eq!(d.unit, "kg m-2");
    let d2 = g.parameter_description(0, 3, 5).unwrap();
    assert_eq!(d2.name, "Geopotential height");
}

#[test]
fn parameter_lookup_misses_unregistered_codes() {
    let mut g = Grib2::new();
    g.add_parameter_description(info(0, 1, 8, "Total precipitation", "kg m-2"));
    assert!(g.parameter_description(0, 1, 9).is_none());
    assert!(g.parameter_description(1, 1, 8).is_none());
    assert!(Grib2::new().parameter_description(0, 1, 8).is_none());
}

#[test]
fn parameter_lookup_returns_the_earliest_match() {
    let mut g = Grib2::new();
    g.add_parameter_description(info(0, 1, 8, "First", "a"));
    g.add_parameter_description(info(0, 1, 8, "Second", "b"));
    assert_eq!(g.parameter_description(0, 1, 8).unwrap().name, "First");
}

#[test]
fn parsing_accumulates_section_sets() {
    // An indicator section and trailer alone emit nothing; parsing twice
    // keeps accumulating into the same handle.
    let buf = vec![
        0x47, 0x52, 0x49, 0x42, 0x00, 0x00, 0x00, 0x00, 0x00, 0x00, 0x00, 0x00, 0x00, 0x00, 0x00,
        0x10, 0x37, 0x37, 0x37, 0x37,
    ];
    let mut g = Grib2::new();
    g.parse(&buf);
    assert_eq!(g.sectionsets().len(), 0);
    g.parse(&buf);
    assert_eq!(g.sectionsets().len(), 0);
}

#[test]
fn empty_buffer_parses_to_nothing() {
    let mut g = Grib2::new();
    g.parse(&[]);
    assert_eq!(g.sectionsets().len(), 0);
}

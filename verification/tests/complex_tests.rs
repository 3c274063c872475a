use grib2::complex::{unpack_complex_packing_and_spatial_differencing, ComplexParams};
use grib2::Grib2Error;

fn params() -> ComplexParams {
    ComplexParams {
        bits: 8,
        ng: 1,
        group_width_reference: 0,
        group_width_bits: 8,
        group_length_reference: 0,
        group_length_increment: 0,
        last_group_length: 4,
        group_length_bits: 8,
        order: 2,
        octets: 2,
    }
}

// Seeds 5 and 7, an all-zero group of four second differences.
fn payload() -> Vec<u8> {
    vec![
        0x00, 0x05, // h1
        0x00, 0x07, // h2
        0x00, 0x00, // overall minimum
        0x00, // group reference values
        0x00, // group widths
        0x00, // group lengths
    ]
}

#[test]
fn zero_second_differences_extrapolate_linearly() {
    // With seeds g[0] = 5, g[1] = 7 and all-zero second differences the
    // recurrence walks the line 5, 7, 9, 11.
    let out = unpack_complex_packing_and_spatial_differencing(&payload(), params()).unwrap();
    assert_eq!(out, vec![5, 7, 9, 11]);
}

#[test]
fn unsupported_differencing_order_is_fatal() {
    let mut p = params();
    p.order = 1;
    assert_eq!(
        unpack_complex_packing_and_spatial_differencing(&payload(), p),
        Err(Grib2Error::PreconditionViolation)
    );
}

#[test]
fn unsupported_descriptor_width_is_fatal() {
    let mut p = params();
    p.octets = 1;
    assert_eq!(
        unpack_complex_packing_and_spatial_differencing(&payload(), p),
        Err(Grib2Error::PreconditionViolation)
    );
}

#[test]
fn truncated_payload_is_corrupt_input() {
    let p = params();
    let short = vec![0u8; 7];
    assert_eq!(
        unpack_complex_packing_and_spatial_differencing(&short, p),
        Err(Grib2Error::DecodeMismatch)
    );
}

#[test]
fn nonzero_differences_and_references_shift_values() {
    // One group of four values packed at width 8 with reference 1 and
    // minimum 0: h = [_, _, 1+1, 2+1]; seeds 0 and 1.
    let p = ComplexParams {
        bits: 8,
        ng: 1,
        group_width_reference: 8,
        group_width_bits: 8,
        group_length_reference: 0,
        group_length_increment: 0,
        last_group_length: 4,
        group_length_bits: 8,
        order: 2,
        octets: 2,
    };
    let buf = vec![
        0x00, 0x00, // h1 = 0
        0x00, 0x01, // h2 = 1
        0x00, 0x00, // minimum
        0x01, // group reference = 1
        0x00, // group width = 8 + 0
        0x00, // group lengths
        0x00, 0x00, 0x01, 0x02, // the group's packed values
    ];
    let out = unpack_complex_packing_and_spatial_differencing(&buf, p).unwrap();
    // h = [0, 1, 2, 3]; g[2] = 2 + 2*1 - 0 = 4; g[3] = 3 + 2*4 - 1 = 10.
    assert_eq!(out, vec![0, 1, 4, 10]);
}

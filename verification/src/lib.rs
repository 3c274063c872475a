//! Decoder for GRIB2, the WMO binary interchange format for gridded
//! meteorological data.
//!
//! A raw byte buffer holding one or more concatenated GRIB2 messages is
//! split into length-prefixed sections, grouped into section sets, and the
//! packed data section of each set can be decoded into a numeric grid
//! (simple packing, run-length packing with a level table, or complex
//! packing with second-order spatial differencing, with optional bitmap
//! masking).

pub mod bitmap;
pub mod bits;
pub mod bytes;
pub mod complex;
pub mod datetime;
pub mod framer;
pub mod grib;
pub mod rle;
pub mod section;
pub mod section0;
pub mod section1;
pub mod section2;
pub mod section3;
pub mod section4;
pub mod section4_template;
pub mod section5;
pub mod section5_template;
pub mod section6;
pub mod section7;
pub mod section7_template;
pub mod sectionset;

use vstd::prelude::*;

verus! {

/// How a decode request can fail, following the format's error taxonomy.
#[derive(Clone, Copy, Debug, PartialEq, Eq, Structural)]
pub enum Grib2Error {
    /// A section 4/5/7 template number outside the supported set.
    UnsupportedTemplate,
    /// A parameter combination the decoder does not work around
    /// (bit width out of range, spatial differencing order other than 2,
    /// descriptor octet width other than 2, unknown time-span unit).
    PreconditionViolation,
    /// Unpacked or expanded value count does not match the declared
    /// point count, or the stream is malformed: corrupt input or a
    /// misidentified template.
    DecodeMismatch,
    /// The decode needs a section this section set does not hold;
    /// the argument is the missing section's number.
    MissingSection(u8),
}

} // verus!

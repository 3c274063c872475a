//! The carried-forward bundle of sections for one message subset, with
//! the decode entry points: simple packing, run-length packing and
//! complex packing with spatial differencing, each with optional bitmap
//! masking.

use crate::bitmap::{apply_bit_map_u16, apply_bit_map_u8, count_bits, count_set};
use crate::bits::{bit_at, unpack, unpack_seq};
use crate::bytes::{be_u16, be_u32, sign_magnitude16, sign_magnitude32, sign_magnitude8};
use crate::complex::{
    complex_of, complex_params_ok, complex_flat, unpack_complex_packing_and_spatial_differencing,
};
use crate::datetime::{datetime_of, shifted, time_span_of, valid_datetime, GribDateTime};
use crate::rle::{rle_of, rle_ok, unpack_run_length_packing};
use crate::section::{
    Bounds, PackingType, RawRunLengthPackingImage, RawSimplePackingImage, RunLengthImageView,
    SimpleImageView,
};
use crate::section0::Section0;
use crate::section1::Section1;
use crate::section2::Section2;
use crate::section3::Section3;
use crate::section4::{s4_end_offset, s4_is_statistical, s4_template_supported, Section4};
use crate::section5::{s5_template_supported, Section5};
use crate::section5_template::{
    s5_bpp_of, s5_packing_type_of, template200_level_count, template3_params,
    TemplateNumber as Section5TemplateNumber,
};
use crate::section6::{bitmap_bytes, Section6};
use crate::section7::{s7_payload, Section7};
use crate::Grib2Error;
use vstd::prelude::*;

verus! {

/// The byte content of a section set: the most recent bytes of each
/// section, where one has been seen.
#[verifier::ext_equal]
pub struct SectionSetView {
    pub section0: Option<Seq<u8>>,
    pub section1: Option<Seq<u8>>,
    pub section2: Option<Seq<u8>>,
    pub section3: Option<Seq<u8>>,
    pub section4: Option<Seq<u8>>,
    pub section5: Option<Seq<u8>>,
    pub section6: Option<Seq<u8>>,
    pub section7: Option<Seq<u8>>,
}

/// The bundle of the most recent instance of each section seen so far.
pub struct SectionSet {
    pub section0: Option<Section0>,
    pub section1: Option<Section1>,
    pub section2: Option<Section2>,
    pub section3: Option<Section3>,
    pub section4: Option<Section4>,
    pub section5: Option<Section5>,
    pub section6: Option<Section6>,
    pub section7: Option<Section7>,
}

impl View for SectionSet {
    type V = SectionSetView;

    open spec fn view(&self) -> SectionSetView {
        SectionSetView {
            section0: match self.section0 {
                Some(s) => Some(s@),
                None => None,
            },
            section1: match self.section1 {
                Some(s) => Some(s@),
                None => None,
            },
            section2: match self.section2 {
                Some(s) => Some(s@),
                None => None,
            },
            section3: match self.section3 {
                Some(s) => Some(s@),
                None => None,
            },
            section4: match self.section4 {
                Some(s) => Some(s@),
                None => None,
            },
            section5: match self.section5 {
                Some(s) => Some(s@),
                None => None,
            },
            section6: match self.section6 {
                Some(s) => Some(s@),
                None => None,
            },
            section7: match self.section7 {
                Some(s) => Some(s@),
                None => None,
            },
        }
    }
}

/// Whether the heavy buffers are small enough for bit counting: a machine
/// limit, not a format one.
pub open spec fn small_view(v: SectionSetView) -> bool {
    &&& (v.section6 matches Some(b) ==> 8 * b.len() + 16 <= usize::MAX)
    &&& (v.section7 matches Some(b) ==> 8 * b.len() + 16 <= usize::MAX)
}

/// Bitmap masking of a 16-bit pixel sequence over `total` grid points.
pub open spec fn masked16(bm: Seq<u8>, pix: Seq<int>, total: int) -> Seq<int> {
    Seq::new(
        total as nat,
        |i: int|
            if bit_at(bm, i) == 1 {
                pix[count_set(bm, i)]
            } else {
                0xFFFF
            },
    )
}

/// Bitmap masking of an 8-bit pixel sequence over `total` grid points.
pub open spec fn masked8(bm: Seq<u8>, pix: Seq<int>, total: int) -> Seq<int> {
    Seq::new(
        total as nat,
        |i: int|
            if bit_at(bm, i) == 1 {
                pix[count_set(bm, i)]
            } else {
                0xFF
            },
    )
}

/// What decoding a section set as a simple-packing field yields: the
/// decision tree over missing sections, the selected template, the bit
/// width, the unpacked count against the declared point count, and the
/// bitmap, ending in the image or the error.
pub open spec fn simple_spec(v: SectionSetView) -> Result<SimpleImageView, Grib2Error> {
    if v.section3 is None {
        Err(Grib2Error::MissingSection(3))
    } else if v.section5 is None {
        Err(Grib2Error::MissingSection(5))
    } else if v.section6 is None {
        Err(Grib2Error::MissingSection(6))
    } else if v.section7 is None {
        Err(Grib2Error::MissingSection(7))
    } else {
        let s3 = v.section3.unwrap();
        let s5 = v.section5.unwrap();
        let s6 = v.section6.unwrap();
        let s7 = v.section7.unwrap();
        let w = be_u32(s3, 30);
        let h = be_u32(s3, 34);
        if !(be_u16(s5, 9) == 0 && s5.len() >= 20) {
            Err(Grib2Error::UnsupportedTemplate)
        } else if !(1 <= s5[19] < 16) {
            Err(Grib2Error::PreconditionViolation)
        } else {
            let pix = unpack_seq(s7_payload(s7), s5[19] as nat);
            if pix.len() != be_u32(s5, 5) {
                Err(Grib2Error::DecodeMismatch)
            } else if s6[5] == 0 {
                let bm = bitmap_bytes(s6);
                if w * h > 8 * bm.len() {
                    Err(Grib2Error::DecodeMismatch)
                } else if count_set(bm, w * h) != pix.len() {
                    Err(Grib2Error::DecodeMismatch)
                } else {
                    Ok(
                        SimpleImageView {
                            width: w,
                            height: h,
                            r: be_u32(s5, 11),
                            e: sign_magnitude16(be_u16(s5, 15)),
                            d: sign_magnitude16(be_u16(s5, 17)),
                            bits: s5[19] as int,
                            pixels: masked16(bm, pix, w * h),
                        },
                    )
                }
            } else {
                Ok(
                    SimpleImageView {
                        width: w,
                        height: h,
                        r: be_u32(s5, 11),
                        e: sign_magnitude16(be_u16(s5, 15)),
                        d: sign_magnitude16(be_u16(s5, 17)),
                        bits: s5[19] as int,
                        pixels: pix,
                    },
                )
            }
        }
    }
}

/// What decoding a section set as a run-length field yields.
pub open spec fn run_length_spec(v: SectionSetView) -> Result<RunLengthImageView, Grib2Error> {
    if v.section3 is None {
        Err(Grib2Error::MissingSection(3))
    } else if v.section5 is None {
        Err(Grib2Error::MissingSection(5))
    } else if v.section6 is None {
        Err(Grib2Error::MissingSection(6))
    } else if v.section7 is None {
        Err(Grib2Error::MissingSection(7))
    } else {
        let s3 = v.section3.unwrap();
        let s5 = v.section5.unwrap();
        let s6 = v.section6.unwrap();
        let s7 = v.section7.unwrap();
        let w = be_u32(s3, 30);
        let h = be_u32(s3, 34);
        if !(be_u16(s5, 9) == 200 && s5.len() >= 16 && s5.len() >= 17 + 2
            * template200_level_count(s5)) {
            Err(Grib2Error::UnsupportedTemplate)
        } else if !(1 <= s5[11] < 16) {
            Err(Grib2Error::PreconditionViolation)
        } else {
            let payload = s7_payload(s7);
            if !rle_ok(payload, s5[11] as nat, be_u16(s5, 12)) {
                Err(Grib2Error::DecodeMismatch)
            } else {
                let lv = rle_of(payload, s5[11] as nat, be_u16(s5, 12));
                let pix = Seq::new(lv.len(), |i: int| lv[i] % 256);
                if pix.len() != be_u32(s5, 5) {
                    Err(Grib2Error::DecodeMismatch)
                } else if s6[5] == 0 {
                    let bm = bitmap_bytes(s6);
                    if w * h > 8 * bm.len() {
                        Err(Grib2Error::DecodeMismatch)
                    } else if count_set(bm, w * h) != pix.len() {
                        Err(Grib2Error::DecodeMismatch)
                    } else {
                        Ok(
                            RunLengthImageView {
                                width: w,
                                height: h,
                                bits: s5[11] as int,
                                factor: sign_magnitude8(s5[16] as int),
                                levels: Seq::new(
                                    template200_level_count(s5) as nat,
                                    |i: int| be_u16(s5, 17 + 2 * i),
                                ),
                                pixels: masked8(bm, pix, w * h),
                            },
                        )
                    }
                } else {
                    Ok(
                        RunLengthImageView {
                            width: w,
                            height: h,
                            bits: s5[11] as int,
                            factor: sign_magnitude8(s5[16] as int),
                            levels: Seq::new(
                                template200_level_count(s5) as nat,
                                |i: int| be_u16(s5, 17 + 2 * i),
                            ),
                            pixels: pix,
                        },
                    )
                }
            }
        }
    }
}

/// What decoding a section set as a complex-packing field yields.
pub open spec fn complex_spec(v: SectionSetView) -> Result<SimpleImageView, Grib2Error> {
    if v.section3 is None {
        Err(Grib2Error::MissingSection(3))
    } else if v.section5 is None {
        Err(Grib2Error::MissingSection(5))
    } else if v.section6 is None {
        Err(Grib2Error::MissingSection(6))
    } else if v.section7 is None {
        Err(Grib2Error::MissingSection(7))
    } else {
        let s3 = v.section3.unwrap();
        let s5 = v.section5.unwrap();
        let s6 = v.section6.unwrap();
        let s7 = v.section7.unwrap();
        let w = be_u32(s3, 30);
        let h = be_u32(s3, 34);
        if !(be_u16(s5, 9) == 3 && s5.len() >= 49) {
            Err(Grib2Error::UnsupportedTemplate)
        } else {
            let p = template3_params(s5);
            let payload = s7_payload(s7);
            if !complex_params_ok(p) {
                Err(Grib2Error::PreconditionViolation)
            } else if complex_flat(payload, p) is None {
                Err(Grib2Error::DecodeMismatch)
            } else {
                let pix = complex_of(payload, p);
                if pix.len() != be_u32(s5, 5) {
                    Err(Grib2Error::DecodeMismatch)
                } else if s6[5] == 0 {
                    let bm = bitmap_bytes(s6);
                    if w * h > 8 * bm.len() {
                        Err(Grib2Error::DecodeMismatch)
                    } else if count_set(bm, w * h) != pix.len() {
                        Err(Grib2Error::DecodeMismatch)
                    } else {
                        Ok(
                            SimpleImageView {
                                width: w,
                                height: h,
                                r: be_u32(s5, 11),
                                e: sign_magnitude16(be_u16(s5, 15)),
                                d: sign_magnitude16(be_u16(s5, 17)),
                                bits: s5[19] as int,
                                pixels: masked16(bm, pix, w * h),
                            },
                        )
                    }
                } else {
                    Ok(
                        SimpleImageView {
                            width: w,
                            height: h,
                            r: be_u32(s5, 11),
                            e: sign_magnitude16(be_u16(s5, 15)),
                            d: sign_magnitude16(be_u16(s5, 17)),
                            bits: s5[19] as int,
                            pixels: pix,
                        },
                    )
                }
            }
        }
    }
}

impl SectionSet {
    /// A bundle with no section seen yet.
    pub fn new() -> (r: SectionSet)
        ensures
            r@.section0 is None,
            r@.section1 is None,
            r@.section2 is None,
            r@.section3 is None,
            r@.section4 is None,
            r@.section5 is None,
            r@.section6 is None,
            r@.section7 is None,
            r.wf(),
    {
        SectionSet {
            section0: None,
            section1: None,
            section2: None,
            section3: None,
            section4: None,
            section5: None,
            section6: None,
            section7: None,
        }
    }

    /// Every section that is present is usable.
    pub open spec fn wf(&self) -> bool {
        &&& (self.section0 matches Some(s) ==> s.wf())
        &&& (self.section1 matches Some(s) ==> s.wf())
        &&& (self.section2 matches Some(s) ==> s.wf())
        &&& (self.section3 matches Some(s) ==> s.wf())
        &&& (self.section4 matches Some(s) ==> s.wf())
        &&& (self.section5 matches Some(s) ==> s.wf())
        &&& (self.section6 matches Some(s) ==> s.wf())
        &&& (self.section7 matches Some(s) ==> s.wf())
    }

    /// An owned copy backed by its own buffers.
    pub fn snapshot(&self) -> (r: SectionSet)
        ensures
            r@ == self@,
            self.wf() ==> r.wf(),
    {
        SectionSet {
            section0: match &self.section0 {
                Some(s) => Some(s.duplicate()),
                None => None,
            },
            section1: match &self.section1 {
                Some(s) => Some(s.duplicate()),
                None => None,
            },
            section2: match &self.section2 {
                Some(s) => Some(s.duplicate()),
                None => None,
            },
            section3: match &self.section3 {
                Some(s) => Some(s.duplicate()),
                None => None,
            },
            section4: match &self.section4 {
                Some(s) => Some(s.duplicate()),
                None => None,
            },
            section5: match &self.section5 {
                Some(s) => Some(s.duplicate()),
                None => None,
            },
            section6: match &self.section6 {
                Some(s) => Some(s.duplicate()),
                None => None,
            },
            section7: match &self.section7 {
                Some(s) => Some(s.duplicate()),
                None => None,
            },
        }
    }

    /// Discipline: the GRIB master table number.
    pub fn master_table_number(&self) -> (r: Option<usize>)
        requires
            self.wf(),
        ensures
            r is Some <==> self@.section0 is Some,
            r matches Some(x) ==> x == self@.section0.unwrap()[6],
    {
        match &self.section0 {
            Some(s) => Some(s.master_table_number()),
            None => None,
        }
    }

    /// Effective bits per pixel of the selected packing template.
    pub fn bpp(&self) -> (r: Option<usize>)
        requires
            self.wf(),
        ensures
            r is Some <==> (self@.section5 matches Some(b) && s5_template_supported(b)),
            r matches Some(x) ==> x == s5_bpp_of(self@.section5.unwrap()),
    {
        match &self.section5 {
            Some(s) => s.bpp(),
            None => None,
        }
    }

    /// The packing algorithm of the selected template.
    pub fn packing_type(&self) -> (r: Option<PackingType>)
        requires
            self.wf(),
        ensures
            r is Some <==> (self@.section5 matches Some(b) && s5_template_supported(b)),
            r matches Some(x) ==> x == s5_packing_type_of(self@.section5.unwrap()),
    {
        match &self.section5 {
            Some(s) => s.packing_type(),
            None => None,
        }
    }

    /// Number of data points the grid declares.
    pub fn point_count(&self) -> (r: Option<usize>)
        requires
            self.wf(),
        ensures
            r is Some <==> self@.section3 is Some,
            r matches Some(x) ==> x == be_u32(self@.section3.unwrap(), 6),
    {
        match &self.section3 {
            Some(s) => Some(s.point_count()),
            None => None,
        }
    }

    /// Reference time of the data.
    pub fn reference_datetime(&self) -> (r: Option<GribDateTime>)
        requires
            self.wf(),
        ensures
            r is Some <==> self@.section1 is Some,
            r matches Some(x) ==> x == datetime_of(self@.section1.unwrap(), 12),
    {
        match &self.section1 {
            Some(s) => Some(s.reference_time()),
            None => None,
        }
    }

    /// Valid time of the data: the explicit interval end of a statistical
    /// template, otherwise the reference time moved by the forecast
    /// offset. Nothing when a needed section is missing, the template is
    /// unknown, the time unit is unrecognized, or the calendar shift is
    /// declined.
    pub fn datetime(&self) -> (r: Option<GribDateTime>)
        requires
            self.wf(),
        ensures
            r is Some ==> (self@.section1 is Some && (self@.section4 matches Some(b)
                && s4_template_supported(b))),
            r matches Some(x) ==> ({
                let b = self@.section4.unwrap();
                if s4_is_statistical(b) {
                    x == datetime_of(b, s4_end_offset(b))
                } else {
                    time_span_of(b, 17) is Some && x == shifted(
                        datetime_of(self@.section1.unwrap(), 12),
                        time_span_of(b, 17).unwrap(),
                    )
                }
            }),
            (self@.section1 is Some && (self@.section4 matches Some(b) && s4_template_supported(b)
                && (s4_is_statistical(b) || (time_span_of(b, 17) matches Some(sp) && valid_datetime(
                datetime_of(self@.section1.unwrap(), 12),
            ) && datetime_of(self@.section1.unwrap(), 12).year <= 9999 && sp
                <= u32::MAX)))) ==> r is Some,
    {
        let s1 = match &self.section1 {
            Some(s) => s,
            None => {
                return None;
            },
        };
        let s4 = match &self.section4 {
            Some(s) => s,
            None => {
                return None;
            },
        };
        let reference = s1.reference_time();
        match s4.template() {
            Some(t) => t.datetime(&reference),
            None => None,
        }
    }

    /// Category of the parameter.
    pub fn parameter_category(&self) -> (r: Option<usize>)
        requires
            self.wf(),
        ensures
            r is Some <==> (self@.section4 matches Some(b) && s4_template_supported(b)),
            r matches Some(x) ==> x == self@.section4.unwrap()[9],
    {
        match &self.section4 {
            Some(s) => match s.template() {
                Some(t) => Some(t.parameter_category()),
                None => None,
            },
            None => None,
        }
    }

    /// Number of the parameter within its category.
    pub fn parameter_number(&self) -> (r: Option<usize>)
        requires
            self.wf(),
        ensures
            r is Some <==> (self@.section4 matches Some(b) && s4_template_supported(b)),
            r matches Some(x) ==> x == self@.section4.unwrap()[10],
    {
        match &self.section4 {
            Some(s) => match s.template() {
                Some(t) => Some(t.parameter_number()),
                None => None,
            },
            None => None,
        }
    }

    /// Type of the first fixed surface.
    pub fn first_plane_type(&self) -> (r: Option<usize>)
        requires
            self.wf(),
        ensures
            r is Some <==> (self@.section4 matches Some(b) && s4_template_supported(b)),
            r matches Some(x) ==> x == self@.section4.unwrap()[22],
    {
        match &self.section4 {
            Some(s) => match s.template() {
                Some(t) => t.first_plane_type(),
                None => None,
            },
            None => None,
        }
    }

    /// Scale factor of the first fixed surface.
    pub fn first_plane_factor(&self) -> (r: Option<isize>)
        requires
            self.wf(),
        ensures
            r is Some <==> (self@.section4 matches Some(b) && s4_template_supported(b)),
            r matches Some(x) ==> x == sign_magnitude8(self@.section4.unwrap()[23] as int),
    {
        match &self.section4 {
            Some(s) => match s.template() {
                Some(t) => t.first_plane_factor(),
                None => None,
            },
            None => None,
        }
    }

    /// Scaled value of the first fixed surface.
    pub fn first_plane_value(&self) -> (r: Option<isize>)
        requires
            self.wf(),
        ensures
            r is Some <==> (self@.section4 matches Some(b) && s4_template_supported(b)),
            r matches Some(x) ==> x == sign_magnitude32(be_u32(self@.section4.unwrap(), 24)),
    {
        match &self.section4 {
            Some(s) => match s.template() {
                Some(t) => t.first_plane_value(),
                None => None,
            },
            None => None,
        }
    }

    /// Grid bounds: first/last latitude and longitude.
    pub fn bounds(&self) -> (r: Option<Bounds>)
        requires
            self.wf(),
        ensures
            r is Some <==> self@.section3 is Some,
            r matches Some(b) ==> ({
                let s3 = self@.section3.unwrap();
                &&& b.left == sign_magnitude32(be_u32(s3, 50))
                &&& b.bottom == sign_magnitude32(be_u32(s3, 55))
                &&& b.right == sign_magnitude32(be_u32(s3, 59))
                &&& b.top == sign_magnitude32(be_u32(s3, 46))
            }),
    {
        match &self.section3 {
            Some(s) => Some(
                Bounds { left: s.lo1(), bottom: s.la2(), right: s.lo2(), top: s.la1() },
            ),
            None => None,
        }
    }

    /// Di: increment along a parallel.
    pub fn di(&self) -> (r: Option<usize>)
        requires
            self.wf(),
        ensures
            r is Some <==> self@.section3 is Some,
            r matches Some(x) ==> x == be_u32(self@.section3.unwrap(), 63),
    {
        match &self.section3 {
            Some(s) => Some(s.di()),
            None => None,
        }
    }

    /// Dj: increment along a meridian.
    pub fn dj(&self) -> (r: Option<usize>)
        requires
            self.wf(),
        ensures
            r is Some <==> self@.section3 is Some,
            r matches Some(x) ==> x == be_u32(self@.section3.unwrap(), 67),
    {
        match &self.section3 {
            Some(s) => Some(s.dj()),
            None => None,
        }
    }

    /// Decodes the data section as a simple-packing field, masking with
    /// the bitmap when one is embedded.
    pub fn unpack_simple(&self) -> (r: Result<RawSimplePackingImage, Grib2Error>)
        requires
            self.wf(),
            small_view(self@),
        ensures
            r is Ok <==> simple_spec(self@) is Ok,
            r matches Ok(img) ==> simple_spec(self@) matches Ok(iv) && img@ == iv,
            r matches Err(e) ==> simple_spec(self@) == Err::<SimpleImageView, Grib2Error>(e),
    {
        let s3 = match &self.section3 {
            Some(s) => s,
            None => {
                return Err(Grib2Error::MissingSection(3));
            },
        };
        let s5 = match &self.section5 {
            Some(s) => s,
            None => {
                return Err(Grib2Error::MissingSection(5));
            },
        };
        let s6 = match &self.section6 {
            Some(s) => s,
            None => {
                return Err(Grib2Error::MissingSection(6));
            },
        };
        let s7 = match &self.section7 {
            Some(s) => s,
            None => {
                return Err(Grib2Error::MissingSection(7));
            },
        };
        proof {
            assert(self@.section3 == Some(s3@));
            assert(self@.section5 == Some(s5@));
            assert(self@.section6 == Some(s6@));
            assert(self@.section7 == Some(s7@));
            assert(8 * s7@.len() + 16 <= usize::MAX);
            assert(8 * s6@.len() + 16 <= usize::MAX);
        }
        let width = s3.ni();
        let height = s3.nj();
        let t = match s5.template() {
            Some(Section5TemplateNumber::T0(t)) => t,
            _ => {
                return Err(Grib2Error::UnsupportedTemplate);
            },
        };
        let bits = t.bits();
        if !(1 <= bits && bits < 16) {
            return Err(Grib2Error::PreconditionViolation);
        }
        let payload = s7.data();
        let pixels = unpack(payload, bits);
        if pixels.len() != s5.point_count() {
            return Err(Grib2Error::DecodeMismatch);
        }
        if s6.bit_map_indicator() == 0 {
            let bm = s6.bit_map();
            let total = match width.checked_mul(height) {
                Some(x) => x,
                None => {
                    return Err(Grib2Error::DecodeMismatch);
                },
            };
            if total > bm.len() * 8 {
                return Err(Grib2Error::DecodeMismatch);
            }
            if count_bits(bm, total) != pixels.len() {
                return Err(Grib2Error::DecodeMismatch);
            }
            let masked = apply_bit_map_u16(pixels.as_slice(), bm, width, height);
            let img = RawSimplePackingImage {
                width,
                height,
                r: t.r(),
                e: t.e(),
                d: t.d(),
                bits,
                pixels: masked,
            };
            proof {
                let iv = simple_spec(self@).unwrap();
                let pixspec = unpack_seq(s7_payload(s7@), s5@[19] as nat);
                let bmspec = bitmap_bytes(s6@);
                let totalspec = be_u32(s3@, 30) * be_u32(s3@, 34);
                assert(total == totalspec);
                assert(iv.pixels == masked16(bmspec, pixspec, totalspec));
                assert forall|i: int| 0 <= i < totalspec implies img@.pixels[i] == iv.pixels[i] by {
                    assert(masked@[i] == if bit_at(bmspec, i) == 1 {
                        pixels@[count_set(bmspec, i)]
                    } else {
                        u16::MAX
                    });
                    if bit_at(bmspec, i) == 1 {
                        crate::bitmap::lemma_count_set_monotonic(bmspec, 0, i);
                        crate::bitmap::lemma_count_set_monotonic(bmspec, i + 1, totalspec);
                        assert(count_set(bmspec, i) < pixels@.len());
                        assert(pixels@[count_set(bmspec, i)] as int == pixspec[count_set(
                            bmspec,
                            i,
                        )]);
                    }
                }
                assert(img@.pixels =~= iv.pixels);
            }
            Ok(img)
        } else {
            let img = RawSimplePackingImage {
                width,
                height,
                r: t.r(),
                e: t.e(),
                d: t.d(),
                bits,
                pixels,
            };
            proof {
                let iv = simple_spec(self@).unwrap();
                let pixspec = unpack_seq(s7_payload(s7@), s5@[19] as nat);
                assert(iv.pixels == pixspec);
                assert forall|i: int| 0 <= i < pixspec.len() implies img@.pixels[i]
                    == iv.pixels[i] by {
                    assert(pixels@[i] as int == pixspec[i]);
                }
                assert(img@.pixels =~= iv.pixels);
            }
            Ok(img)
        }
    }

    /// Decodes the data section as a run-length field, masking with the
    /// bitmap when one is embedded.
    pub fn unpack_run_length(&self) -> (r: Result<RawRunLengthPackingImage, Grib2Error>)
        requires
            self.wf(),
            small_view(self@),
        ensures
            r is Ok <==> run_length_spec(self@) is Ok,
            r matches Ok(img) ==> run_length_spec(self@) matches Ok(iv) && img@ == iv,
            r matches Err(e) ==> run_length_spec(self@) == Err::<RunLengthImageView, Grib2Error>(e),
    {
        let s3 = match &self.section3 {
            Some(s) => s,
            None => {
                return Err(Grib2Error::MissingSection(3));
            },
        };
        let s5 = match &self.section5 {
            Some(s) => s,
            None => {
                return Err(Grib2Error::MissingSection(5));
            },
        };
        let s6 = match &self.section6 {
            Some(s) => s,
            None => {
                return Err(Grib2Error::MissingSection(6));
            },
        };
        let s7 = match &self.section7 {
            Some(s) => s,
            None => {
                return Err(Grib2Error::MissingSection(7));
            },
        };
        proof {
            assert(self@.section3 == Some(s3@));
            assert(self@.section5 == Some(s5@));
            assert(self@.section6 == Some(s6@));
            assert(self@.section7 == Some(s7@));
            assert(8 * s7@.len() + 16 <= usize::MAX);
            assert(8 * s6@.len() + 16 <= usize::MAX);
        }
        let width = s3.ni();
        let height = s3.nj();
        let t = match s5.template() {
            Some(Section5TemplateNumber::T200(t)) => t,
            _ => {
                return Err(Grib2Error::UnsupportedTemplate);
            },
        };
        let bits = t.bits();
        if !(1 <= bits && bits < 16) {
            return Err(Grib2Error::PreconditionViolation);
        }
        let payload = s7.data();
        let pixels = match unpack_run_length_packing(payload, bits, t.v()) {
            Ok(p) => p,
            Err(e) => {
                return Err(e);
            },
        };
        if pixels.len() != s5.point_count() {
            return Err(Grib2Error::DecodeMismatch);
        }
        if s6.bit_map_indicator() == 0 {
            let bm = s6.bit_map();
            let total = match width.checked_mul(height) {
                Some(x) => x,
                None => {
                    return Err(Grib2Error::DecodeMismatch);
                },
            };
            if total > bm.len() * 8 {
                return Err(Grib2Error::DecodeMismatch);
            }
            if count_bits(bm, total) != pixels.len() {
                return Err(Grib2Error::DecodeMismatch);
            }
            let masked = apply_bit_map_u8(pixels.as_slice(), bm, width, height);
            let img = RawRunLengthPackingImage {
                width,
                height,
                bits,
                factor: t.factor(),
                levels: t.levels(),
                pixels: masked,
            };
            proof {
                let iv = run_length_spec(self@).unwrap();
                let lv = rle_of(s7_payload(s7@), s5@[11] as nat, be_u16(s5@, 12));
                let pixspec = Seq::new(lv.len(), |i: int| lv[i] % 256);
                let bmspec = bitmap_bytes(s6@);
                let totalspec = be_u32(s3@, 30) * be_u32(s3@, 34);
                assert(total == totalspec);
                assert(iv.pixels == masked8(bmspec, pixspec, totalspec));
                assert forall|i: int| 0 <= i < totalspec implies img@.pixels[i] == iv.pixels[i] by {
                    assert(masked@[i] == if bit_at(bmspec, i) == 1 {
                        pixels@[count_set(bmspec, i)]
                    } else {
                        u8::MAX
                    });
                    if bit_at(bmspec, i) == 1 {
                        crate::bitmap::lemma_count_set_monotonic(bmspec, 0, i);
                        crate::bitmap::lemma_count_set_monotonic(bmspec, i + 1, totalspec);
                        assert(count_set(bmspec, i) < pixels@.len());
                        assert(pixels@[count_set(bmspec, i)] as int == pixspec[count_set(
                            bmspec,
                            i,
                        )]);
                    }
                }
                assert(img@.pixels =~= iv.pixels);
                assert(img@.levels =~= iv.levels);
            }
            Ok(img)
        } else {
            let img = RawRunLengthPackingImage {
                width,
                height,
                bits,
                factor: t.factor(),
                levels: t.levels(),
                pixels,
            };
            proof {
                let iv = run_length_spec(self@).unwrap();
                let lv = rle_of(s7_payload(s7@), s5@[11] as nat, be_u16(s5@, 12));
                let pixspec = Seq::new(lv.len(), |i: int| lv[i] % 256);
                assert(iv.pixels == pixspec);
                assert forall|i: int| 0 <= i < pixspec.len() implies img@.pixels[i]
                    == iv.pixels[i] by {
                    assert(pixels@[i] as int == lv[i] % 256);
                }
                assert(img@.pixels =~= iv.pixels);
                assert(img@.levels =~= iv.levels);
            }
            Ok(img)
        }
    }

    /// Decodes the data section as a complex-packing field with spatial
    /// differencing, masking with the bitmap when one is embedded.
    pub fn unpack_complex_packing_and_spatial_differencing(&self) -> (r: Result<
        RawSimplePackingImage,
        Grib2Error,
    >)
        requires
            self.wf(),
            small_view(self@),
        ensures
            r is Ok <==> complex_spec(self@) is Ok,
            r matches Ok(img) ==> complex_spec(self@) matches Ok(iv) && img@ == iv,
            r matches Err(e) ==> complex_spec(self@) == Err::<SimpleImageView, Grib2Error>(e),
    {
        let s3 = match &self.section3 {
            Some(s) => s,
            None => {
                return Err(Grib2Error::MissingSection(3));
            },
        };
        let s5 = match &self.section5 {
            Some(s) => s,
            None => {
                return Err(Grib2Error::MissingSection(5));
            },
        };
        let s6 = match &self.section6 {
            Some(s) => s,
            None => {
                return Err(Grib2Error::MissingSection(6));
            },
        };
        let s7 = match &self.section7 {
            Some(s) => s,
            None => {
                return Err(Grib2Error::MissingSection(7));
            },
        };
        proof {
            assert(self@.section3 == Some(s3@));
            assert(self@.section5 == Some(s5@));
            assert(self@.section6 == Some(s6@));
            assert(self@.section7 == Some(s7@));
            assert(8 * s7@.len() + 16 <= usize::MAX);
            assert(8 * s6@.len() + 16 <= usize::MAX);
        }
        let width = s3.ni();
        let height = s3.nj();
        let t = match s5.template() {
            Some(Section5TemplateNumber::T3(t)) => t,
            _ => {
                return Err(Grib2Error::UnsupportedTemplate);
            },
        };
        let params = t.complex_params();
        let payload = s7.data();
        let pixels = match unpack_complex_packing_and_spatial_differencing(payload, params) {
            Ok(p) => p,
            Err(e) => {
                return Err(e);
            },
        };
        if pixels.len() != s5.point_count() {
            return Err(Grib2Error::DecodeMismatch);
        }
        if s6.bit_map_indicator() == 0 {
            let bm = s6.bit_map();
            let total = match width.checked_mul(height) {
                Some(x) => x,
                None => {
                    return Err(Grib2Error::DecodeMismatch);
                },
            };
            if total > bm.len() * 8 {
                return Err(Grib2Error::DecodeMismatch);
            }
            if count_bits(bm, total) != pixels.len() {
                return Err(Grib2Error::DecodeMismatch);
            }
            let masked = apply_bit_map_u16(pixels.as_slice(), bm, width, height);
            let img = RawSimplePackingImage {
                width,
                height,
                r: t.r(),
                e: t.e(),
                d: t.d(),
                bits: t.bits(),
                pixels: masked,
            };
            proof {
                let iv = complex_spec(self@).unwrap();
                let pixspec = complex_of(s7_payload(s7@), template3_params(s5@));
                let bmspec = bitmap_bytes(s6@);
                let totalspec = be_u32(s3@, 30) * be_u32(s3@, 34);
                assert(total == totalspec);
                assert(iv.pixels == masked16(bmspec, pixspec, totalspec));
                assert forall|i: int| 0 <= i < totalspec implies img@.pixels[i] == iv.pixels[i] by {
                    assert(masked@[i] == if bit_at(bmspec, i) == 1 {
                        pixels@[count_set(bmspec, i)]
                    } else {
                        u16::MAX
                    });
                    if bit_at(bmspec, i) == 1 {
                        crate::bitmap::lemma_count_set_monotonic(bmspec, 0, i);
                        crate::bitmap::lemma_count_set_monotonic(bmspec, i + 1, totalspec);
                        assert(count_set(bmspec, i) < pixels@.len());
                        assert(pixels@[count_set(bmspec, i)] as int == pixspec[count_set(
                            bmspec,
                            i,
                        )]);
                    }
                }
                assert(img@.pixels =~= iv.pixels);
            }
            Ok(img)
        } else {
            let img = RawSimplePackingImage {
                width,
                height,
                r: t.r(),
                e: t.e(),
                d: t.d(),
                bits: t.bits(),
                pixels,
            };
            proof {
                let iv = complex_spec(self@).unwrap();
                let pixspec = complex_of(s7_payload(s7@), template3_params(s5@));
                assert(iv.pixels == pixspec);
                assert forall|i: int| 0 <= i < pixspec.len() implies img@.pixels[i]
                    == iv.pixels[i] by {
                    assert(pixels@[i] as int == pixspec[i]);
                }
                assert(img@.pixels =~= iv.pixels);
            }
            Ok(img)
        }
    }
}

/// Simple-packing decode is monotonic in the raw value. The physical
/// value is (R + v 2^E) / 10^D; both scale factors are positive, so
/// bringing two decoded values over their common positive denominator
/// leaves numerators R q + v p with the same positive p for both, and
/// those compare exactly as the raw values do.
pub proof fn lemma_simple_packing_monotonic(r: int, p: int, q: int, v1: int, v2: int)
    requires
        p >= 1,
        q >= 1,
        v1 < v2,
    ensures
        r * q + v1 * p < r * q + v2 * p,
{
    assert(v1 * p < v2 * p) by (nonlinear_arith)
        requires
            p >= 1,
            v1 < v2,
    ;
}

/// The ordered sequence of section sets a buffer walk emits.
pub struct SectionSets {
    items: Vec<SectionSet>,
}

impl View for SectionSets {
    type V = Seq<SectionSetView>;

    closed spec fn view(&self) -> Seq<SectionSetView> {
        Seq::new(self.items@.len(), |i: int| self.items@[i]@)
    }
}

impl SectionSets {
    /// Every held section set is usable.
    pub closed spec fn all_wf(&self) -> bool {
        forall|i: int| 0 <= i < self.items@.len() ==> (#[trigger] self.items@[i]).wf()
    }

    /// An empty sequence.
    pub fn new() -> (r: SectionSets)
        ensures
            r@.len() == 0,
            r.all_wf(),
    {
        SectionSets { items: Vec::new() }
    }

    /// Appends one section set.
    pub fn push(&mut self, sectionset: SectionSet)
        requires
            old(self).all_wf(),
            sectionset.wf(),
        ensures
            final(self)@ == old(self)@.push(sectionset@),
            final(self).all_wf(),
    {
        self.items.push(sectionset);
        proof {
            assert(final(self)@ =~= old(self)@.push(sectionset@));
        }
    }

    /// Appends every section set of another sequence, in order.
    pub fn extend(&mut self, sectionsets: SectionSets)
        requires
            old(self).all_wf(),
            sectionsets.all_wf(),
        ensures
            final(self)@ == old(self)@ + sectionsets@,
            final(self).all_wf(),
    {
        let rest = sectionsets;
        let n = rest.items.len();
        let mut i: usize = 0;
        let ghost base = self@;
        proof {
            assert(base + rest@.take(0) =~= base);
        }
        while i < n
            invariant
                i <= n,
                n == rest.items@.len(),
                rest@.len() == n,
                rest.all_wf(),
                self.all_wf(),
                self@ == base + rest@.take(i as int),
            decreases n - i,
        {
            proof {
                assert(rest.items@[i as int].wf());
                assert(rest@[i as int] == rest.items@[i as int]@);
            }
            let s = rest.items[i].snapshot();
            let ghost prev = self@;
            self.push(s);
            proof {
                assert forall|k: int|
                    0 <= k < self@.len() implies self@[k] == (base + rest@.take(i as int + 1))[k] by {
                    if k < prev.len() {
                        assert(self@[k] == prev[k]);
                    } else {
                        assert(self@[k] == s@);
                    }
                }
                assert(self@ =~= base + rest@.take(i as int + 1));
            }
            i = i + 1;
        }
        proof {
            assert(rest@.take(n as int) =~= rest@);
        }
    }

    /// The section set at `index`, as an owned copy.
    pub fn get(&self, index: usize) -> (r: SectionSet)
        requires
            self.all_wf(),
            index < self@.len(),
        ensures
            r@ == self@[index as int],
            r.wf(),
    {
        self.items[index].snapshot()
    }

    /// How many section sets were emitted.
    pub fn len(&self) -> (r: usize)
        ensures
            r == self@.len(),
    {
        self.items.len()
    }

    /// An iterator over owned copies of the section sets, in order.
    pub fn iter(&self) -> (r: SectionSetsIter)
        requires
            self.all_wf(),
        ensures
            r@ == self@,
            r.pos() == 0,
            r.all_wf(),
    {
        let mut items: Vec<SectionSet> = Vec::new();
        let n = self.items.len();
        let mut i: usize = 0;
        while i < n
            invariant
                i <= n,
                n == self.items@.len(),
                self.all_wf(),
                items@.len() == i,
                forall|k: int| 0 <= k < i ==> (#[trigger] items@[k])@ == self.items@[k]@,
                forall|k: int| 0 <= k < i ==> (#[trigger] items@[k]).wf(),
            decreases n - i,
        {
            proof {
                assert(self.items@[i as int].wf());
            }
            items.push(self.items[i].snapshot());
            i = i + 1;
        }
        let r = SectionSetsIter { items, index: 0 };
        proof {
            assert(r@ =~= self@);
        }
        r
    }
}

/// A forward walk over an emitted sequence of section sets.
pub struct SectionSetsIter {
    items: Vec<SectionSet>,
    index: usize,
}

impl View for SectionSetsIter {
    type V = Seq<SectionSetView>;

    closed spec fn view(&self) -> Seq<SectionSetView> {
        Seq::new(self.items@.len(), |i: int| self.items@[i]@)
    }
}

impl SectionSetsIter {
    /// Every held section set is usable.
    pub closed spec fn all_wf(&self) -> bool {
        forall|i: int| 0 <= i < self.items@.len() ==> (#[trigger] self.items@[i]).wf()
    }

    /// How far the walk has come.
    pub closed spec fn pos(&self) -> int {
        self.index as int
    }

    /// The next section set, as an owned copy; nothing once the walk is
    /// done.
    pub fn next(&mut self) -> (r: Option<SectionSet>)
        ensures
            final(self)@ == old(self)@,
            final(self).all_wf() == old(self).all_wf(),
            old(self).pos() < old(self)@.len() ==> (final(self).pos() == old(self).pos() + 1 && (
            r matches Some(s) && s@ == old(self)@[old(self).pos()] && (old(self).all_wf()
                ==> s.wf()))),
            old(self).pos() >= old(self)@.len() ==> (r is None && final(self).pos() == old(
                self,
            ).pos()),
    {
        if self.index < self.items.len() {
            let result = self.items[self.index].snapshot();
            proof {
                if self.all_wf() {
                    assert(self.items@[self.index as int].wf());
                }
            }
            self.index = self.index + 1;
            proof {
                assert(self.items@ == old(self).items@);
            }
            Some(result)
        } else {
            None
        }
    }
}

} // verus!

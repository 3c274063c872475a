//! Data-representation templates: simple packing, complex packing with
//! spatial differencing, and run-length packing with level values. Each is
//! a fixed byte layout over the section's bytes.

use crate::bytes::{
    be_u16, be_u32, i16_be, i8_be, sign_magnitude16, sign_magnitude8, u16_be, u32_be, u8_be,
};
use crate::complex::ComplexParams;
use crate::section::PackingType;
use vstd::prelude::*;

verus! {

/// Template 5.0: grid point data, simple packing.
pub struct Template0 {
    buf: Vec<u8>,
}

/// Template 5.3: grid point data, complex packing and spatial
/// differencing.
pub struct Template3 {
    buf: Vec<u8>,
}

/// Template 5.200: grid point data, run-length packing with level values.
pub struct Template200 {
    buf: Vec<u8>,
}

impl View for Template0 {
    type V = Seq<u8>;

    closed spec fn view(&self) -> Seq<u8> {
        self.buf@
    }
}

impl View for Template3 {
    type V = Seq<u8>;

    closed spec fn view(&self) -> Seq<u8> {
        self.buf@
    }
}

impl View for Template200 {
    type V = Seq<u8>;

    closed spec fn view(&self) -> Seq<u8> {
        self.buf@
    }
}

impl Template0 {
    /// The bytes the simple-packing fields need.
    pub open spec fn wf(&self) -> bool {
        self@.len() >= 20
    }

    /// Wraps a section's bytes; nothing for a buffer too short.
    pub fn create(buf: Vec<u8>) -> (r: Option<Template0>)
        ensures
            r is Some <==> buf@.len() >= 20,
            r matches Some(t) ==> t@ == buf@,
    {
        if buf.len() >= 20 {
            Some(Template0 { buf })
        } else {
            None
        }
    }

    /// Reference value R, as the raw bits of an IEEE 32-bit float.
    pub fn r(&self) -> (r: u32)
        requires
            self.wf(),
        ensures
            r == be_u32(self@, 11),
    {
        u32_be(self.buf.as_slice(), 11)
    }

    /// Binary scale factor E.
    pub fn e(&self) -> (r: isize)
        requires
            self.wf(),
        ensures
            r == sign_magnitude16(be_u16(self@, 15)),
    {
        i16_be(self.buf.as_slice(), 15) as isize
    }

    /// Decimal scale factor D.
    pub fn d(&self) -> (r: isize)
        requires
            self.wf(),
        ensures
            r == sign_magnitude16(be_u16(self@, 17)),
    {
        i16_be(self.buf.as_slice(), 17) as isize
    }

    /// Bits per packed value.
    pub fn bits(&self) -> (r: usize)
        requires
            self.wf(),
        ensures
            r == self@[19],
    {
        u8_be(self.buf.as_slice(), 19) as usize
    }

    /// Effective bits per pixel.
    pub fn bpp(&self) -> (r: usize)
        requires
            self.wf(),
        ensures
            r == self@[19],
    {
        self.bits()
    }

    /// The packing algorithm this template selects.
    pub fn packing_type(&self) -> (r: PackingType)
        ensures
            r == PackingType::Simple,
    {
        PackingType::Simple
    }
}

impl Template3 {
    /// The bytes the complex-packing fields need.
    pub open spec fn wf(&self) -> bool {
        self@.len() >= 49
    }

    /// Wraps a section's bytes; nothing for a buffer too short.
    pub fn create(buf: Vec<u8>) -> (r: Option<Template3>)
        ensures
            r is Some <==> buf@.len() >= 49,
            r matches Some(t) ==> t@ == buf@,
    {
        if buf.len() >= 49 {
            Some(Template3 { buf })
        } else {
            None
        }
    }

    /// Reference value R, as the raw bits of an IEEE 32-bit float.
    pub fn r(&self) -> (r: u32)
        requires
            self.wf(),
        ensures
            r == be_u32(self@, 11),
    {
        u32_be(self.buf.as_slice(), 11)
    }

    /// Binary scale factor E.
    pub fn e(&self) -> (r: isize)
        requires
            self.wf(),
        ensures
            r == sign_magnitude16(be_u16(self@, 15)),
    {
        i16_be(self.buf.as_slice(), 15) as isize
    }

    /// Decimal scale factor D.
    pub fn d(&self) -> (r: isize)
        requires
            self.wf(),
        ensures
            r == sign_magnitude16(be_u16(self@, 17)),
    {
        i16_be(self.buf.as_slice(), 17) as isize
    }

    /// Bits per group reference value.
    pub fn bits(&self) -> (r: usize)
        requires
            self.wf(),
        ensures
            r == self@[19],
    {
        u8_be(self.buf.as_slice(), 19) as usize
    }

    /// NG: the number of groups the field is split into.
    pub fn ng(&self) -> (r: usize)
        requires
            self.wf(),
        ensures
            r == be_u32(self@, 31),
    {
        u32_be(self.buf.as_slice(), 31) as usize
    }

    /// Reference for group widths.
    pub fn group_width_reference(&self) -> (r: usize)
        requires
            self.wf(),
        ensures
            r == self@[35],
    {
        u8_be(self.buf.as_slice(), 35) as usize
    }

    /// Bits per packed group width.
    pub fn group_width_bits(&self) -> (r: usize)
        requires
            self.wf(),
        ensures
            r == self@[36],
    {
        u8_be(self.buf.as_slice(), 36) as usize
    }

    /// Reference for group lengths.
    pub fn group_length_reference(&self) -> (r: usize)
        requires
            self.wf(),
        ensures
            r == be_u32(self@, 37),
    {
        u32_be(self.buf.as_slice(), 37) as usize
    }

    /// Increment applied to the packed group lengths.
    pub fn group_length_increment(&self) -> (r: usize)
        requires
            self.wf(),
        ensures
            r == self@[41],
    {
        u8_be(self.buf.as_slice(), 41) as usize
    }

    /// True length of the last group.
    pub fn last_group_length(&self) -> (r: usize)
        requires
            self.wf(),
        ensures
            r == be_u32(self@, 42),
    {
        u32_be(self.buf.as_slice(), 42) as usize
    }

    /// Bits per packed group length.
    pub fn group_length_bits(&self) -> (r: usize)
        requires
            self.wf(),
        ensures
            r == self@[46],
    {
        u8_be(self.buf.as_slice(), 46) as usize
    }

    /// Order of spatial differencing.
    pub fn order(&self) -> (r: usize)
        requires
            self.wf(),
        ensures
            r == self@[47],
    {
        u8_be(self.buf.as_slice(), 47) as usize
    }

    /// Octets per extra descriptor.
    pub fn octets(&self) -> (r: usize)
        requires
            self.wf(),
        ensures
            r == self@[48],
    {
        u8_be(self.buf.as_slice(), 48) as usize
    }

    /// All the packing parameters, gathered for the payload decoder.
    pub fn complex_params(&self) -> (r: ComplexParams)
        requires
            self.wf(),
        ensures
            r == template3_params(self@),
    {
        ComplexParams {
            bits: u8_be(self.buf.as_slice(), 19),
            ng: u32_be(self.buf.as_slice(), 31),
            group_width_reference: u8_be(self.buf.as_slice(), 35),
            group_width_bits: u8_be(self.buf.as_slice(), 36),
            group_length_reference: u32_be(self.buf.as_slice(), 37),
            group_length_increment: u8_be(self.buf.as_slice(), 41),
            last_group_length: u32_be(self.buf.as_slice(), 42),
            group_length_bits: u8_be(self.buf.as_slice(), 46),
            order: u8_be(self.buf.as_slice(), 47),
            octets: u8_be(self.buf.as_slice(), 48),
        }
    }

    /// Effective bits per pixel.
    pub fn bpp(&self) -> (r: usize)
        requires
            self.wf(),
        ensures
            r == self@[19],
    {
        self.bits()
    }

    /// The packing algorithm this template selects.
    pub fn packing_type(&self) -> (r: PackingType)
        ensures
            r == PackingType::ComplexPackingAndSpatialDifferencing,
    {
        PackingType::ComplexPackingAndSpatialDifferencing
    }
}

/// The complex-packing parameters held by a template 5.3 section.
pub open spec fn template3_params(s: Seq<u8>) -> ComplexParams {
    ComplexParams {
        bits: s[19],
        ng: be_u32(s, 31) as u32,
        group_width_reference: s[35],
        group_width_bits: s[36],
        group_length_reference: be_u32(s, 37) as u32,
        group_length_increment: s[41],
        last_group_length: be_u32(s, 42) as u32,
        group_length_bits: s[46],
        order: s[47],
        octets: s[48],
    }
}

/// The level count MVL held by a template 5.200 section.
pub open spec fn template200_level_count(s: Seq<u8>) -> int {
    be_u16(s, 14)
}

impl Template200 {
    /// The bytes the run-length fields and the whole level table need.
    pub open spec fn wf(&self) -> bool {
        self@.len() >= 16 && self@.len() >= 17 + 2 * template200_level_count(self@)
    }

    /// Wraps a section's bytes; nothing for a buffer too short to hold its
    /// own level table.
    pub fn create(buf: Vec<u8>) -> (r: Option<Template200>)
        ensures
            r is Some <==> buf@.len() >= 16 && buf@.len() >= 17 + 2 * template200_level_count(
                buf@,
            ),
            r matches Some(t) ==> t@ == buf@,
    {
        if buf.len() < 16 {
            return None;
        }
        let m = u16_be(buf.as_slice(), 14) as usize;
        if buf.len() >= 17 + 2 * m {
            Some(Template200 { buf })
        } else {
            None
        }
    }

    /// Bits per packed token.
    pub fn bits(&self) -> (r: usize)
        requires
            self.wf(),
        ensures
            r == self@[11],
    {
        u8_be(self.buf.as_slice(), 11) as usize
    }

    /// MV: the largest level value used in the packing.
    pub fn v(&self) -> (r: usize)
        requires
            self.wf(),
        ensures
            r == be_u16(self@, 12),
    {
        u16_be(self.buf.as_slice(), 12) as usize
    }

    /// MVL: the largest defined level.
    pub fn m(&self) -> (r: usize)
        requires
            self.wf(),
        ensures
            r == template200_level_count(self@),
    {
        u16_be(self.buf.as_slice(), 14) as usize
    }

    /// Decimal scale factor of the representative level values.
    pub fn factor(&self) -> (r: isize)
        requires
            self.wf(),
        ensures
            r == sign_magnitude8(self@[16] as int),
    {
        i8_be(self.buf.as_slice(), 16) as isize
    }

    /// The scaled representative value of each level, from level 1 to MVL.
    pub fn levels(&self) -> (r: Vec<u16>)
        requires
            self.wf(),
        ensures
            r@.len() == template200_level_count(self@),
            forall|i: int| 0 <= i < r@.len() ==> r@[i] == be_u16(self@, 17 + 2 * i),
    {
        let m = u16_be(self.buf.as_slice(), 14) as usize;
        let mut dest: Vec<u16> = Vec::new();
        let mut i: usize = 0;
        while i < m
            invariant
                self.wf(),
                i <= m,
                m == template200_level_count(self@),
                dest@.len() == i,
                forall|k: int| 0 <= k < i ==> dest@[k] == be_u16(self@, 17 + 2 * k),
            decreases m - i,
        {
            dest.push(u16_be(self.buf.as_slice(), 17 + 2 * i));
            i = i + 1;
        }
        dest
    }

    /// Effective bits per pixel.
    pub fn bpp(&self) -> (r: usize)
        requires
            self.wf(),
        ensures
            r == self@[11],
    {
        self.bits()
    }

    /// The packing algorithm this template selects.
    pub fn packing_type(&self) -> (r: PackingType)
        ensures
            r == PackingType::RunLength,
    {
        PackingType::RunLength
    }
}

/// The data-representation template a section selects, by its number.
pub enum TemplateNumber {
    T0(Template0),
    T3(Template3),
    T200(Template200),
}

impl TemplateNumber {
    /// Well-formedness of whichever template this is.
    pub open spec fn wf(&self) -> bool {
        match self {
            TemplateNumber::T0(t) => t.wf(),
            TemplateNumber::T3(t) => t.wf(),
            TemplateNumber::T200(t) => t.wf(),
        }
    }

    /// The underlying section bytes.
    pub open spec fn bytes(&self) -> Seq<u8> {
        match self {
            TemplateNumber::T0(t) => t@,
            TemplateNumber::T3(t) => t@,
            TemplateNumber::T200(t) => t@,
        }
    }

    /// Effective bits per pixel of whichever template this is.
    pub open spec fn bpp_spec(&self) -> int {
        match self {
            TemplateNumber::T0(t) => t@[19] as int,
            TemplateNumber::T3(t) => t@[19] as int,
            TemplateNumber::T200(t) => t@[11] as int,
        }
    }

    /// The packing algorithm whichever template this is selects.
    pub open spec fn packing_type_spec(&self) -> PackingType {
        match self {
            TemplateNumber::T0(t) => PackingType::Simple,
            TemplateNumber::T3(t) => PackingType::ComplexPackingAndSpatialDifferencing,
            TemplateNumber::T200(t) => PackingType::RunLength,
        }
    }

    /// Effective bits per pixel.
    pub fn bpp(&self) -> (r: usize)
        requires
            self.wf(),
        ensures
            r == self.bpp_spec(),
    {
        match self {
            TemplateNumber::T0(t) => t.bpp(),
            TemplateNumber::T3(t) => t.bpp(),
            TemplateNumber::T200(t) => t.bpp(),
        }
    }

    /// The packing algorithm this template selects.
    pub fn packing_type(&self) -> (r: PackingType)
        requires
            self.wf(),
        ensures
            r == self.packing_type_spec(),
    {
        match self {
            TemplateNumber::T0(t) => t.packing_type(),
            TemplateNumber::T3(t) => t.packing_type(),
            TemplateNumber::T200(t) => t.packing_type(),
        }
    }
}

/// Bits per pixel of a data-representation section, by template number.
pub open spec fn s5_bpp_of(s: Seq<u8>) -> int {
    if be_u16(s, 9) == 200 {
        s[11] as int
    } else {
        s[19] as int
    }
}

/// Packing kind of a data-representation section, by template number.
pub open spec fn s5_packing_type_of(s: Seq<u8>) -> PackingType {
    if be_u16(s, 9) == 0 {
        PackingType::Simple
    } else if be_u16(s, 9) == 3 {
        PackingType::ComplexPackingAndSpatialDifferencing
    } else {
        PackingType::RunLength
    }
}

} // verus!

//! Section 5, the data-representation section: the declared point count
//! and the packing template the data section must be decoded with.

use crate::bytes::{be_u16, be_u32, copy_bytes, u16_be, u32_be, u8_be};
use crate::section::PackingType;
use crate::section5_template::{
    s5_bpp_of, s5_packing_type_of, Template0, Template200, Template3, TemplateNumber,
    template200_level_count,
};
use vstd::prelude::*;

verus! {

/// Whether the section selects a template this decoder knows, with enough
/// bytes for that template's layout.
pub open spec fn s5_template_supported(s: Seq<u8>) -> bool {
    ||| (be_u16(s, 9) == 0 && s.len() >= 20)
    ||| (be_u16(s, 9) == 3 && s.len() >= 49)
    ||| (be_u16(s, 9) == 200 && s.len() >= 16 && s.len() >= 17 + 2 * template200_level_count(s))
}

/// An owned view of a data-representation section's bytes.
pub struct Section5 {
    buf: Vec<u8>,
}

impl View for Section5 {
    type V = Seq<u8>;

    closed spec fn view(&self) -> Seq<u8> {
        self.buf@
    }
}

impl Section5 {
    /// The bytes the header, the point count and the template number need.
    pub open spec fn wf(&self) -> bool {
        self@.len() >= 11
    }

    /// Wraps a section's bytes; nothing for a buffer too short.
    pub fn create(buf: Vec<u8>) -> (r: Option<Section5>)
        ensures
            r is Some <==> buf@.len() >= 11,
            r matches Some(s) ==> s@ == buf@,
    {
        if buf.len() >= 11 {
            Some(Section5 { buf })
        } else {
            None
        }
    }

    /// Number of data points the packed data holds: the full grid without
    /// a bitmap, the present points with one.
    pub fn point_count(&self) -> (r: usize)
        requires
            self.wf(),
        ensures
            r == be_u32(self@, 5),
    {
        u32_be(self.buf.as_slice(), 5) as usize
    }

    /// Data-representation template number.
    pub fn template_number(&self) -> (r: usize)
        requires
            self.wf(),
        ensures
            r == be_u16(self@, 9),
    {
        u16_be(self.buf.as_slice(), 9) as usize
    }

    /// The template the section selects; nothing for an unknown number or
    /// a section too short for that template's layout.
    pub fn template(&self) -> (r: Option<TemplateNumber>)
        requires
            self.wf(),
        ensures
            r is Some <==> s5_template_supported(self@),
            r matches Some(t) ==> t.wf() && t.bytes() == self@,
            r matches Some(t) ==> ((t is T0) <==> be_u16(self@, 9) == 0),
            r matches Some(t) ==> ((t is T3) <==> be_u16(self@, 9) == 3),
            r matches Some(t) ==> ((t is T200) <==> be_u16(self@, 9) == 200),
    {
        match self.template_number() {
            0 => match Template0::create(copy_bytes(&self.buf)) {
                Some(t) => Some(TemplateNumber::T0(t)),
                None => None,
            },
            3 => match Template3::create(copy_bytes(&self.buf)) {
                Some(t) => Some(TemplateNumber::T3(t)),
                None => None,
            },
            200 => match Template200::create(copy_bytes(&self.buf)) {
                Some(t) => Some(TemplateNumber::T200(t)),
                None => None,
            },
            _ => None,
        }
    }

    /// Effective bits per pixel, when a known template is selected.
    pub fn bpp(&self) -> (r: Option<usize>)
        requires
            self.wf(),
        ensures
            r is Some <==> s5_template_supported(self@),
            r matches Some(x) ==> x == s5_bpp_of(self@),
    {
        match self.template() {
            Some(t) => Some(t.bpp()),
            None => None,
        }
    }

    /// The packing algorithm, when a known template is selected.
    pub fn packing_type(&self) -> (r: Option<PackingType>)
        requires
            self.wf(),
        ensures
            r is Some <==> s5_template_supported(self@),
            r matches Some(x) ==> x == s5_packing_type_of(self@),
    {
        match self.template() {
            Some(t) => Some(t.packing_type()),
            None => None,
        }
    }

    /// Length of this section in octets.
    pub fn length(&self) -> (r: usize)
        requires
            self.wf(),
        ensures
            r == be_u32(self@, 0),
    {
        u32_be(self.buf.as_slice(), 0) as usize
    }

    /// Number of this section.
    pub fn section_number(&self) -> (r: usize)
        requires
            self.wf(),
        ensures
            r == self@[4],
    {
        u8_be(self.buf.as_slice(), 4) as usize
    }

    /// An owned copy backed by its own buffer.
    pub fn duplicate(&self) -> (r: Section5)
        ensures
            r@ == self@,
    {
        Section5 { buf: copy_bytes(&self.buf) }
    }
}

} // verus!

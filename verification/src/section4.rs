//! Section 4, the product definition section: selects a product template
//! by number and exposes its fields through it.

use crate::bytes::{be_u16, be_u32, copy_bytes, u16_be, u32_be, u8_be};
use crate::section4_template::{
    Template0, Template1, Template11, Template50000, Template50008, Template50009, Template50011,
    Template50012, Template8, Template9, TemplateNumber,
};
use vstd::prelude::*;

verus! {

/// Whether the section selects a product template this decoder knows,
/// with enough bytes for that template's layout.
pub open spec fn s4_template_supported(s: Seq<u8>) -> bool {
    ||| (be_u16(s, 7) == 0 && s.len() >= 34)
    ||| (be_u16(s, 7) == 1 && s.len() >= 34)
    ||| (be_u16(s, 7) == 8 && s.len() >= 53)
    ||| (be_u16(s, 7) == 9 && s.len() >= 66)
    ||| (be_u16(s, 7) == 11 && s.len() >= 56)
    ||| (be_u16(s, 7) == 50000 && s.len() >= 34)
    ||| (be_u16(s, 7) == 50008 && s.len() >= 53)
    ||| (be_u16(s, 7) == 50009 && s.len() >= 53)
    ||| (be_u16(s, 7) == 50011 && s.len() >= 53)
    ||| (be_u16(s, 7) == 50012 && s.len() >= 53)
}

/// Whether the selected product template carries an explicit interval
/// end as its valid time.
pub open spec fn s4_is_statistical(s: Seq<u8>) -> bool {
    ||| be_u16(s, 7) == 8
    ||| be_u16(s, 7) == 9
    ||| be_u16(s, 7) == 11
    ||| be_u16(s, 7) == 50008
    ||| be_u16(s, 7) == 50009
    ||| be_u16(s, 7) == 50011
    ||| be_u16(s, 7) == 50012
}

/// Offset of the interval-end timestamp of the selected statistical
/// template.
pub open spec fn s4_end_offset(s: Seq<u8>) -> int {
    if be_u16(s, 7) == 9 {
        47
    } else if be_u16(s, 7) == 11 {
        37
    } else {
        34
    }
}

/// An owned view of a product-definition section's bytes.
pub struct Section4 {
    buf: Vec<u8>,
}

impl View for Section4 {
    type V = Seq<u8>;

    closed spec fn view(&self) -> Seq<u8> {
        self.buf@
    }
}

impl Section4 {
    /// The bytes the header and the template number need.
    pub open spec fn wf(&self) -> bool {
        self@.len() >= 9
    }

    /// Wraps a section's bytes; nothing for a buffer too short.
    pub fn create(buf: Vec<u8>) -> (r: Option<Section4>)
        ensures
            r is Some <==> buf@.len() >= 9,
            r matches Some(s) ==> s@ == buf@,
    {
        if buf.len() >= 9 {
            Some(Section4 { buf })
        } else {
            None
        }
    }

    /// Product-definition template number.
    pub fn template_number(&self) -> (r: usize)
        requires
            self.wf(),
        ensures
            r == be_u16(self@, 7),
    {
        u16_be(self.buf.as_slice(), 7) as usize
    }

    /// The template the section selects; nothing for an unknown number
    /// or a section too short for that template's layout.
    pub fn template(&self) -> (r: Option<TemplateNumber>)
        requires
            self.wf(),
        ensures
            r is Some <==> s4_template_supported(self@),
            r matches Some(t) ==> t.wf() && t.bytes() == self@,
            r matches Some(t) ==> t.number() == be_u16(self@, 7),
            r matches Some(t) ==> t.is_statistical() == s4_is_statistical(self@),
            r matches Some(t) ==> (t.is_statistical() ==> t.end_offset() == s4_end_offset(self@)),
    {
        match self.template_number() {
            0 => match Template0::create(copy_bytes(&self.buf)) {
                Some(t) => Some(TemplateNumber::T0(t)),
                None => None,
            },
            1 => match Template1::create(copy_bytes(&self.buf)) {
                Some(t) => Some(TemplateNumber::T1(t)),
                None => None,
            },
            8 => match Template8::create(copy_bytes(&self.buf)) {
                Some(t) => Some(TemplateNumber::T8(t)),
                None => None,
            },
            9 => match Template9::create(copy_bytes(&self.buf)) {
                Some(t) => Some(TemplateNumber::T9(t)),
                None => None,
            },
            11 => match Template11::create(copy_bytes(&self.buf)) {
                Some(t) => Some(TemplateNumber::T11(t)),
                None => None,
            },
            50000 => match Template50000::create(copy_bytes(&self.buf)) {
                Some(t) => Some(TemplateNumber::T50000(t)),
                None => None,
            },
            50008 => match Template50008::create(copy_bytes(&self.buf)) {
                Some(t) => Some(TemplateNumber::T50008(t)),
                None => None,
            },
            50009 => match Template50009::create(copy_bytes(&self.buf)) {
                Some(t) => Some(TemplateNumber::T50009(t)),
                None => None,
            },
            50011 => match Template50011::create(copy_bytes(&self.buf)) {
                Some(t) => Some(TemplateNumber::T50011(t)),
                None => None,
            },
            50012 => match Template50012::create(copy_bytes(&self.buf)) {
                Some(t) => Some(TemplateNumber::T50012(t)),
                None => None,
            },
            _ => None,
        }
    }

    /// Length of this section in octets.
    pub fn length(&self) -> (r: usize)
        requires
            self.wf(),
        ensures
            r == be_u32(self@, 0),
    {
        u32_be(self.buf.as_slice(), 0) as usize
    }

    /// Number of this section.
    pub fn section_number(&self) -> (r: usize)
        requires
            self.wf(),
        ensures
            r == self@[4],
    {
        u8_be(self.buf.as_slice(), 4) as usize
    }

    /// An owned copy backed by its own buffer.
    pub fn duplicate(&self) -> (r: Section4)
        ensures
            r@ == self@,
    {
        Section4 { buf: copy_bytes(&self.buf) }
    }
}

} // verus!

//! Section 7, the data section: the raw packed payload. Its meaning
//! depends on the data-representation template in force when it was
//! framed, so the section keeps that section alongside its own bytes.

use crate::bytes::{be_u16, be_u32, copy_bytes, u32_be, u8_be};
use crate::section5::Section5;
use crate::section5_template::TemplateNumber as Section5TemplateNumber;
use crate::section7_template::{Template0, Template200, Template3, TemplateNumber};
use vstd::prelude::*;
use vstd::slice::slice_subrange;

verus! {

/// The packed payload: everything past the generic section header.
pub open spec fn s7_payload(s: Seq<u8>) -> Seq<u8> {
    s.subrange(5, s.len() as int)
}

/// An owned view of a data section's bytes, together with the
/// data-representation section in force when it was framed.
pub struct Section7 {
    buf: Vec<u8>,
    section5: Section5,
}

impl View for Section7 {
    type V = Seq<u8>;

    closed spec fn view(&self) -> Seq<u8> {
        self.buf@
    }
}

impl Section7 {
    /// The data-representation section this data section was framed with.
    pub closed spec fn section5_bytes(&self) -> Seq<u8> {
        self.section5@
    }

    /// The bytes the generic section header needs, and a usable
    /// companion section.
    pub closed spec fn wf(&self) -> bool {
        self@.len() >= 5 && self.section5.wf()
    }

    /// Wraps a section's bytes together with the active
    /// data-representation section; nothing for a buffer too short.
    pub fn create(buf: Vec<u8>, section5: &Section5) -> (r: Option<Section7>)
        requires
            section5.wf(),
        ensures
            r is Some <==> buf@.len() >= 5,
            r matches Some(s) ==> s@ == buf@ && s.section5_bytes() == section5@ && s.wf(),
    {
        if buf.len() >= 5 {
            Some(Section7 { buf, section5: section5.duplicate() })
        } else {
            None
        }
    }

    /// The active data-representation template number.
    pub fn template_number(&self) -> (r: usize)
        requires
            self.wf(),
        ensures
            r == be_u16(self.section5_bytes(), 9),
    {
        self.section5.template_number()
    }

    /// The data template this payload follows, chosen by the paired
    /// data-representation section's template number; for complex packing
    /// the variant carries that very section's template, so the payload
    /// can only be decoded with the parameters in force when it was
    /// framed. Nothing for an unknown data-representation template.
    pub fn template(&self) -> (r: Option<TemplateNumber>)
        requires
            self.wf(),
        ensures
            r is Some <==> (be_u16(self.section5_bytes(), 9) == 0 || (be_u16(
                self.section5_bytes(),
                9,
            ) == 3 && self.section5_bytes().len() >= 49) || be_u16(self.section5_bytes(), 9)
                == 200),
            r matches Some(t) ==> t.bytes() == self@,
            r matches Some(t) ==> ((t is T0) <==> be_u16(self.section5_bytes(), 9) == 0),
            r matches Some(t) ==> ((t is T3) <==> be_u16(self.section5_bytes(), 9) == 3),
            r matches Some(t) ==> ((t is T200) <==> be_u16(self.section5_bytes(), 9) == 200),
            r matches Some(TemplateNumber::T3(t)) ==> t.section5_bytes()
                == self.section5_bytes(),
    {
        match self.section5.template_number() {
            0 => Some(TemplateNumber::T0(Template0::new(copy_bytes(&self.buf)))),
            3 => match self.section5.template() {
                Some(Section5TemplateNumber::T3(t)) => Some(
                    TemplateNumber::T3(Template3::new(copy_bytes(&self.buf), t)),
                ),
                _ => None,
            },
            200 => Some(TemplateNumber::T200(Template200::new(copy_bytes(&self.buf)))),
            _ => None,
        }
    }

    /// The packed payload bytes.
    pub fn data(&self) -> (r: &[u8])
        requires
            self.wf(),
        ensures
            r@ == s7_payload(self@),
            self@.len() >= 5,
            r@.len() == self@.len() - 5,
    {
        let n = self.buf.len();
        slice_subrange(self.buf.as_slice(), 5, n)
    }

    /// Length of this section in octets.
    pub fn length(&self) -> (r: usize)
        requires
            self.wf(),
        ensures
            r == be_u32(self@, 0),
    {
        u32_be(self.buf.as_slice(), 0) as usize
    }

    /// Number of this section.
    pub fn section_number(&self) -> (r: usize)
        requires
            self.wf(),
        ensures
            r == self@[4],
    {
        u8_be(self.buf.as_slice(), 4) as usize
    }

    /// An owned copy backed by its own buffers.
    pub fn duplicate(&self) -> (r: Section7)
        ensures
            r@ == self@,
            r.section5_bytes() == self.section5_bytes(),
            r.wf() == self.wf(),
    {
        Section7 { buf: copy_bytes(&self.buf), section5: self.section5.duplicate() }
    }
}

} // verus!

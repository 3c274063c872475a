//! Data-section templates: the payload's interpretation follows the
//! data-representation template in force, so each variant pairs the data
//! bytes with what decoding them needs.

use crate::section5_template::Template3 as Section5Template3;
use vstd::prelude::*;

verus! {

/// Template 7.0: grid point data, simple packing.
pub struct Template0 {
    buf: Vec<u8>,
}

/// Template 7.3: grid point data, complex packing and spatial
/// differencing, together with the data-representation template that
/// describes its groups.
pub struct Template3 {
    buf: Vec<u8>,
    section5_template3: Section5Template3,
}

/// Template 7.200: grid point data, run-length packing with level values.
pub struct Template200 {
    buf: Vec<u8>,
}

impl View for Template0 {
    type V = Seq<u8>;

    closed spec fn view(&self) -> Seq<u8> {
        self.buf@
    }
}

impl View for Template3 {
    type V = Seq<u8>;

    closed spec fn view(&self) -> Seq<u8> {
        self.buf@
    }
}

impl Template0 {
    /// Wraps a data section's bytes.
    pub fn new(buf: Vec<u8>) -> (r: Template0)
        ensures
            r@ == buf@,
    {
        Template0 { buf }
    }
}

impl Template3 {
    /// The data-representation template paired with this data section.
    pub closed spec fn section5_bytes(&self) -> Seq<u8> {
        self.section5_template3@
    }

    /// Pairs a data section's bytes with the active template.
    pub fn new(buf: Vec<u8>, section5_template3: Section5Template3) -> (r: Template3)
        ensures
            r@ == buf@,
            r.section5_bytes() == section5_template3@,
    {
        Template3 { buf, section5_template3 }
    }
}

impl Template200 {
    /// Wraps a data section's bytes.
    pub fn new(buf: Vec<u8>) -> (r: Template200)
        ensures
            r@ == buf@,
    {
        Template200 { buf }
    }
}

impl View for Template200 {
    type V = Seq<u8>;

    closed spec fn view(&self) -> Seq<u8> {
        self.buf@
    }
}

/// The data template a section follows, by the active
/// data-representation template number.
pub enum TemplateNumber {
    T0(Template0),
    T3(Template3),
    T200(Template200),
}

impl TemplateNumber {
    /// The underlying section bytes.
    pub open spec fn bytes(&self) -> Seq<u8> {
        match self {
            TemplateNumber::T0(t) => t@,
            TemplateNumber::T3(t) => t@,
            TemplateNumber::T200(t) => t@,
        }
    }
}

} // verus!

//! Section 1, the identification section: carries the reference time of
//! the data.

use crate::bytes::{be_u32, copy_bytes, u32_be, u8_be};
use crate::datetime::{datetime_be, datetime_of, GribDateTime};
use vstd::prelude::*;

verus! {

/// An owned view of an identification section's bytes.
pub struct Section1 {
    buf: Vec<u8>,
}

impl View for Section1 {
    type V = Seq<u8>;

    closed spec fn view(&self) -> Seq<u8> {
        self.buf@
    }
}

impl Section1 {
    /// The bytes the reference-time field needs.
    pub open spec fn wf(&self) -> bool {
        self@.len() >= 19
    }

    /// Wraps a section's bytes; nothing for a buffer too short.
    pub fn create(buf: Vec<u8>) -> (r: Option<Section1>)
        ensures
            r is Some <==> buf@.len() >= 19,
            r matches Some(s) ==> s@ == buf@,
    {
        if buf.len() >= 19 {
            Some(Section1 { buf })
        } else {
            None
        }
    }

    /// Reference time of the data.
    pub fn reference_time(&self) -> (r: GribDateTime)
        requires
            self.wf(),
        ensures
            r == datetime_of(self@, 12),
    {
        datetime_be(self.buf.as_slice(), 12)
    }

    /// Length of this section in octets.
    pub fn length(&self) -> (r: usize)
        requires
            self.wf(),
        ensures
            r == be_u32(self@, 0),
    {
        u32_be(self.buf.as_slice(), 0) as usize
    }

    /// Number of this section.
    pub fn section_number(&self) -> (r: usize)
        requires
            self.wf(),
        ensures
            r == self@[4],
    {
        u8_be(self.buf.as_slice(), 4) as usize
    }

    /// An owned copy backed by its own buffer.
    pub fn duplicate(&self) -> (r: Section1)
        ensures
            r@ == self@,
    {
        Section1 { buf: copy_bytes(&self.buf) }
    }
}

} // verus!

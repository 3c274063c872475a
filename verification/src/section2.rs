//! Section 2, the local-use section: opaque to this decoder beyond its
//! header.

use crate::bytes::{be_u32, copy_bytes, u32_be, u8_be};
use vstd::prelude::*;

verus! {

/// An owned view of a local-use section's bytes.
pub struct Section2 {
    buf: Vec<u8>,
}

impl View for Section2 {
    type V = Seq<u8>;

    closed spec fn view(&self) -> Seq<u8> {
        self.buf@
    }
}

impl Section2 {
    /// The bytes the generic section header needs.
    pub open spec fn wf(&self) -> bool {
        self@.len() >= 5
    }

    /// Wraps a section's bytes; nothing for a buffer too short.
    pub fn create(buf: Vec<u8>) -> (r: Option<Section2>)
        ensures
            r is Some <==> buf@.len() >= 5,
            r matches Some(s) ==> s@ == buf@,
    {
        if buf.len() >= 5 {
            Some(Section2 { buf })
        } else {
            None
        }
    }

    /// Length of this section in octets.
    pub fn length(&self) -> (r: usize)
        requires
            self.wf(),
        ensures
            r == be_u32(self@, 0),
    {
        u32_be(self.buf.as_slice(), 0) as usize
    }

    /// Number of this section.
    pub fn section_number(&self) -> (r: usize)
        requires
            self.wf(),
        ensures
            r == self@[4],
    {
        u8_be(self.buf.as_slice(), 4) as usize
    }

    /// An owned copy backed by its own buffer.
    pub fn duplicate(&self) -> (r: Section2)
        ensures
            r@ == self@,
    {
        Section2 { buf: copy_bytes(&self.buf) }
    }
}

} // verus!

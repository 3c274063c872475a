//! Section 0, the indicator section: a fixed 16-byte header opening a
//! message, carrying the discipline and the total message length.

use crate::bytes::{be_u64, copy_bytes, u64_be, u8_be};
use vstd::prelude::*;

verus! {

/// An owned view of an indicator section's bytes.
pub struct Section0 {
    buf: Vec<u8>,
}

impl View for Section0 {
    type V = Seq<u8>;

    closed spec fn view(&self) -> Seq<u8> {
        self.buf@
    }
}

impl Section0 {
    /// The bytes an indicator section needs.
    pub open spec fn wf(&self) -> bool {
        self@.len() >= 16
    }

    /// Wraps a section's bytes; nothing for a buffer too short.
    pub fn create(buf: Vec<u8>) -> (r: Option<Section0>)
        ensures
            r is Some <==> buf@.len() >= 16,
            r matches Some(s) ==> s@ == buf@,
    {
        if buf.len() >= 16 {
            Some(Section0 { buf })
        } else {
            None
        }
    }

    /// Discipline: the GRIB master table number.
    pub fn master_table_number(&self) -> (r: usize)
        requires
            self.wf(),
        ensures
            r == self@[6],
    {
        u8_be(self.buf.as_slice(), 6) as usize
    }

    /// Total length of the message in octets.
    pub fn total_length(&self) -> (r: u64)
        requires
            self.wf(),
        ensures
            r == be_u64(self@, 8),
    {
        u64_be(self.buf.as_slice(), 8)
    }

    /// Length of this section in octets.
    pub fn length(&self) -> (r: usize)
        ensures
            r == 16,
    {
        16
    }

    /// Number of this section.
    pub fn section_number(&self) -> (r: usize)
        ensures
            r == 0,
    {
        0
    }

    /// An owned copy backed by its own buffer.
    pub fn duplicate(&self) -> (r: Section0)
        ensures
            r@ == self@,
    {
        Section0 { buf: copy_bytes(&self.buf) }
    }
}

} // verus!

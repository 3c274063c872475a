//! Section 6, the bitmap section: an indicator byte says whether a bitmap
//! is embedded here, absent, or reused from an earlier section.

use crate::bytes::{be_u32, copy_bytes, u32_be, u8_be};
use vstd::prelude::*;
use vstd::slice::slice_subrange;

verus! {

/// An owned view of a bitmap section's bytes.
pub struct Section6 {
    buf: Vec<u8>,
}

impl View for Section6 {
    type V = Seq<u8>;

    closed spec fn view(&self) -> Seq<u8> {
        self.buf@
    }
}

/// The embedded bitmap: everything past the indicator byte.
pub open spec fn bitmap_bytes(s: Seq<u8>) -> Seq<u8> {
    s.subrange(6, s.len() as int)
}

impl Section6 {
    /// The bytes the header and the indicator need.
    pub open spec fn wf(&self) -> bool {
        self@.len() >= 6
    }

    /// Wraps a section's bytes; nothing for a buffer too short.
    pub fn create(buf: Vec<u8>) -> (r: Option<Section6>)
        ensures
            r is Some <==> buf@.len() >= 6,
            r matches Some(s) ==> s@ == buf@,
    {
        if buf.len() >= 6 {
            Some(Section6 { buf })
        } else {
            None
        }
    }

    /// Bitmap indicator: 0 means a bitmap follows in this section, 254
    /// means a previously seen bitmap applies, 255 means none applies.
    pub fn bit_map_indicator(&self) -> (r: usize)
        requires
            self.wf(),
        ensures
            r == self@[5],
    {
        u8_be(self.buf.as_slice(), 5) as usize
    }

    /// The embedded bitmap bytes.
    pub fn bit_map(&self) -> (r: &[u8])
        requires
            self.wf(),
        ensures
            r@ == bitmap_bytes(self@),
            self@.len() >= 6,
            r@.len() == self@.len() - 6,
    {
        let n = self.buf.len();
        slice_subrange(self.buf.as_slice(), 6, n)
    }

    /// Length of this section in octets.
    pub fn length(&self) -> (r: usize)
        requires
            self.wf(),
        ensures
            r == be_u32(self@, 0),
    {
        u32_be(self.buf.as_slice(), 0) as usize
    }

    /// Number of this section.
    pub fn section_number(&self) -> (r: usize)
        requires
            self.wf(),
        ensures
            r == self@[4],
    {
        u8_be(self.buf.as_slice(), 4) as usize
    }

    /// An owned copy backed by its own buffer.
    pub fn duplicate(&self) -> (r: Section6)
        ensures
            r@ == self@,
    {
        Section6 { buf: copy_bytes(&self.buf) }
    }
}

} // verus!

//! Section 3, the grid definition section: the point count, the grid's
//! width and height, its bounds and its increments.

use crate::bytes::{be_u32, copy_bytes, i32_be, sign_magnitude32, u32_be, u8_be};
use vstd::prelude::*;

verus! {

/// An owned view of a grid-definition section's bytes.
pub struct Section3 {
    buf: Vec<u8>,
}

impl View for Section3 {
    type V = Seq<u8>;

    closed spec fn view(&self) -> Seq<u8> {
        self.buf@
    }
}

impl Section3 {
    /// The bytes every grid field this decoder reads needs.
    pub open spec fn wf(&self) -> bool {
        self@.len() >= 71
    }

    /// Wraps a section's bytes; nothing for a buffer too short.
    pub fn create(buf: Vec<u8>) -> (r: Option<Section3>)
        ensures
            r is Some <==> buf@.len() >= 71,
            r matches Some(s) ==> s@ == buf@,
    {
        if buf.len() >= 71 {
            Some(Section3 { buf })
        } else {
            None
        }
    }

    /// Number of data points.
    pub fn point_count(&self) -> (r: usize)
        requires
            self.wf(),
        ensures
            r == be_u32(self@, 6),
    {
        u32_be(self.buf.as_slice(), 6) as usize
    }

    /// Ni: number of points along a parallel.
    pub fn ni(&self) -> (r: usize)
        requires
            self.wf(),
        ensures
            r == be_u32(self@, 30),
    {
        u32_be(self.buf.as_slice(), 30) as usize
    }

    /// Nj: number of points along a meridian.
    pub fn nj(&self) -> (r: usize)
        requires
            self.wf(),
        ensures
            r == be_u32(self@, 34),
    {
        u32_be(self.buf.as_slice(), 34) as usize
    }

    /// La1: latitude of the first grid point.
    pub fn la1(&self) -> (r: isize)
        requires
            self.wf(),
        ensures
            r == sign_magnitude32(be_u32(self@, 46)),
    {
        i32_be(self.buf.as_slice(), 46) as isize
    }

    /// Lo1: longitude of the first grid point.
    pub fn lo1(&self) -> (r: isize)
        requires
            self.wf(),
        ensures
            r == sign_magnitude32(be_u32(self@, 50)),
    {
        i32_be(self.buf.as_slice(), 50) as isize
    }

    /// La2: latitude of the last grid point.
    pub fn la2(&self) -> (r: isize)
        requires
            self.wf(),
        ensures
            r == sign_magnitude32(be_u32(self@, 55)),
    {
        i32_be(self.buf.as_slice(), 55) as isize
    }

    /// Lo2: longitude of the last grid point.
    pub fn lo2(&self) -> (r: isize)
        requires
            self.wf(),
        ensures
            r == sign_magnitude32(be_u32(self@, 59)),
    {
        i32_be(self.buf.as_slice(), 59) as isize
    }

    /// Di: increment along a parallel.
    pub fn di(&self) -> (r: usize)
        requires
            self.wf(),
        ensures
            r == be_u32(self@, 63),
    {
        u32_be(self.buf.as_slice(), 63) as usize
    }

    /// Dj: increment along a meridian.
    pub fn dj(&self) -> (r: usize)
        requires
            self.wf(),
        ensures
            r == be_u32(self@, 67),
    {
        u32_be(self.buf.as_slice(), 67) as usize
    }

    /// Length of this section in octets.
    pub fn length(&self) -> (r: usize)
        requires
            self.wf(),
        ensures
            r == be_u32(self@, 0),
    {
        u32_be(self.buf.as_slice(), 0) as usize
    }

    /// Number of this section.
    pub fn section_number(&self) -> (r: usize)
        requires
            self.wf(),
        ensures
            r == self@[4],
    {
        u8_be(self.buf.as_slice(), 4) as usize
    }

    /// An owned copy backed by its own buffer.
    pub fn duplicate(&self) -> (r: Section3)
        ensures
            r@ == self@,
    {
        Section3 { buf: copy_bytes(&self.buf) }
    }
}

} // verus!

//! Types shared by the section views: the packing-kind tag, the raw
//! decoded images, and the grid bounds.

use vstd::prelude::*;

verus! {

/// Marker for the value types a data section decodes to.
pub trait IsSection7DataType {

}

impl IsSection7DataType for u16 {

}

impl IsSection7DataType for u8 {

}

/// The packing algorithm a data-representation template selects.
#[derive(Clone, Copy, Debug, PartialEq, Eq, Structural)]
pub enum PackingType {
    Simple,
    RunLength,
    ComplexPackingAndSpatialDifferencing,
}

/// A decoded 16-bit grid: the affine parameters and the raw pixel values.
/// The reference value R is carried as the raw bits of an IEEE 32-bit
/// float; applying (R + pixel * 2^e) / 10^d is left to the caller.
pub struct RawSimplePackingImage {
    pub width: usize,
    pub height: usize,
    pub r: u32,
    pub e: isize,
    pub d: isize,
    pub bits: usize,
    pub pixels: Vec<u16>,
}

/// A decoded 8-bit run-length grid: each pixel is an index into the level
/// table; index 0 means no data. A level's physical value is
/// levels[index] / 10^factor.
pub struct RawRunLengthPackingImage {
    pub width: usize,
    pub height: usize,
    pub bits: usize,
    pub factor: isize,
    pub levels: Vec<u16>,
    pub pixels: Vec<u8>,
}

/// The mathematical content of a decoded 16-bit grid.
pub struct SimpleImageView {
    pub width: int,
    pub height: int,
    pub r: int,
    pub e: int,
    pub d: int,
    pub bits: int,
    pub pixels: Seq<int>,
}

impl View for RawSimplePackingImage {
    type V = SimpleImageView;

    open spec fn view(&self) -> SimpleImageView {
        SimpleImageView {
            width: self.width as int,
            height: self.height as int,
            r: self.r as int,
            e: self.e as int,
            d: self.d as int,
            bits: self.bits as int,
            pixels: Seq::new(self.pixels@.len(), |i: int| self.pixels@[i] as int),
        }
    }
}

/// The mathematical content of a decoded 8-bit run-length grid.
pub struct RunLengthImageView {
    pub width: int,
    pub height: int,
    pub bits: int,
    pub factor: int,
    pub levels: Seq<int>,
    pub pixels: Seq<int>,
}

impl View for RawRunLengthPackingImage {
    type V = RunLengthImageView;

    open spec fn view(&self) -> RunLengthImageView {
        RunLengthImageView {
            width: self.width as int,
            height: self.height as int,
            bits: self.bits as int,
            factor: self.factor as int,
            levels: Seq::new(self.levels@.len(), |i: int| self.levels@[i] as int),
            pixels: Seq::new(self.pixels@.len(), |i: int| self.pixels@[i] as int),
        }
    }
}

/// Grid bounds in 1e-6-degree units.
#[derive(Clone, Copy, Debug, PartialEq, Eq, Structural)]
pub struct Bounds {
    pub left: isize,
    pub bottom: isize,
    pub right: isize,
    pub top: isize,
}

/// The smallest value among the first `n` pixels that are not the 16-bit
/// missing sentinel, starting from the sentinel's predecessor.
pub open spec fn observed_min16(s: Seq<u16>, n: int) -> int
    decreases n,
{
    if n <= 0 {
        0xFFFE
    } else {
        let m = observed_min16(s, n - 1);
        if s[n - 1] != 0xFFFF && s[n - 1] < m {
            s[n - 1] as int
        } else {
            m
        }
    }
}

/// The largest value among the first `n` pixels that are not the 16-bit
/// missing sentinel, starting from zero.
pub open spec fn observed_max16(s: Seq<u16>, n: int) -> int
    decreases n,
{
    if n <= 0 {
        0
    } else {
        let m = observed_max16(s, n - 1);
        if s[n - 1] != 0xFFFF && s[n - 1] > m {
            s[n - 1] as int
        } else {
            m
        }
    }
}

/// The observed value range of a 16-bit grid, excluding pixels a bitmap
/// left without data. An all-sentinel grid reports the empty range
/// (0xFFFE, 0).
pub fn pixel_bounds_u16(pixels: &[u16]) -> (r: (u16, u16))
    ensures
        r.0 == observed_min16(pixels@, pixels@.len() as int),
        r.1 == observed_max16(pixels@, pixels@.len() as int),
{
    let n = pixels.len();
    let mut min: u16 = 0xFFFE;
    let mut max: u16 = 0;
    let mut i: usize = 0;
    while i < n
        invariant
            i <= n,
            n == pixels@.len(),
            min == observed_min16(pixels@, i as int),
            max == observed_max16(pixels@, i as int),
        decreases n - i,
    {
        let p = pixels[i];
        if p != 0xFFFF {
            if p < min {
                min = p;
            }
            if p > max {
                max = p;
            }
        }
        i = i + 1;
    }
    (min, max)
}

/// The smallest value among the first `n` pixels of an 8-bit grid.
pub open spec fn observed_min8(s: Seq<u8>, n: int) -> int
    decreases n,
{
    if n <= 1 {
        s[0] as int
    } else {
        let m = observed_min8(s, n - 1);
        if s[n - 1] < m {
            s[n - 1] as int
        } else {
            m
        }
    }
}

/// The largest value among the first `n` pixels of an 8-bit grid.
pub open spec fn observed_max8(s: Seq<u8>, n: int) -> int
    decreases n,
{
    if n <= 1 {
        s[0] as int
    } else {
        let m = observed_max8(s, n - 1);
        if s[n - 1] > m {
            s[n - 1] as int
        } else {
            m
        }
    }
}

/// The observed value range of a non-empty 8-bit grid, sentinels
/// included.
pub fn pixel_bounds_u8(pixels: &[u8]) -> (r: (u8, u8))
    requires
        pixels@.len() >= 1,
    ensures
        r.0 == observed_min8(pixels@, pixels@.len() as int),
        r.1 == observed_max8(pixels@, pixels@.len() as int),
{
    let n = pixels.len();
    let mut min: u8 = pixels[0];
    let mut max: u8 = pixels[0];
    let mut i: usize = 1;
    while i < n
        invariant
            1 <= i <= n,
            n == pixels@.len(),
            min == observed_min8(pixels@, i as int),
            max == observed_max8(pixels@, i as int),
        decreases n - i,
    {
        let p = pixels[i];
        if p < min {
            min = p;
        }
        if p > max {
            max = p;
        }
        i = i + 1;
    }
    (min, max)
}

} // verus!

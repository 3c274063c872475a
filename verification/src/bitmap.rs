//! Bitmap masking: a row-major, MSB-first presence bitmap, one bit per grid
//! point, spreads a dense value array over the full grid, putting the
//! type's maximum value wherever a point is absent.

use crate::bits::bit_at;
use vstd::prelude::*;

verus! {

/// How many of the first `n` bitmap bits are set.
pub open spec fn count_set(bm: Seq<u8>, n: int) -> int
    decreases n,
{
    if n <= 0 {
        0
    } else {
        count_set(bm, n - 1) + if bit_at(bm, n - 1) == 1 {
            1int
        } else {
            0int
        }
    }
}

/// Counting set bits never decreases as the prefix grows.
pub proof fn lemma_count_set_monotonic(bm: Seq<u8>, a: int, b: int)
    requires
        a <= b,
    ensures
        count_set(bm, a) <= count_set(bm, b),
    decreases b - a,
{
    if a < b {
        lemma_count_set_monotonic(bm, a, b - 1);
    }
}

/// Under an all-ones bitmap every prefix count equals the prefix length,
/// so masking hands every input value through unchanged, in order.
pub proof fn lemma_count_set_all_ones(bm: Seq<u8>, n: int)
    requires
        forall|i: int| 0 <= i < n ==> bit_at(bm, i) == 1,
    ensures
        forall|i: int| 0 <= i <= n ==> #[trigger] count_set(bm, i) == i,
{
    assert forall|i: int| 0 <= i <= n implies #[trigger] count_set(bm, i) == i by {
        lemma_count_set_all_ones_rec(bm, i, n);
    }
}

proof fn lemma_count_set_all_ones_rec(bm: Seq<u8>, i: int, n: int)
    requires
        forall|k: int| 0 <= k < n ==> bit_at(bm, k) == 1,
        0 <= i <= n,
    ensures
        count_set(bm, i) == i,
    decreases i,
{
    if i > 0 {
        lemma_count_set_all_ones_rec(bm, i - 1, n);
    }
}

/// Under an all-zeros bitmap every prefix count is zero, so masking
/// consumes no input at all and the whole output is the missing sentinel.
pub proof fn lemma_count_set_all_zeros(bm: Seq<u8>, n: int)
    requires
        forall|i: int| 0 <= i < n ==> bit_at(bm, i) == 0,
    ensures
        forall|i: int| 0 <= i <= n ==> #[trigger] count_set(bm, i) == 0,
{
    assert forall|i: int| 0 <= i <= n implies #[trigger] count_set(bm, i) == 0 by {
        lemma_count_set_all_zeros_rec(bm, i, n);
    }
}

proof fn lemma_count_set_all_zeros_rec(bm: Seq<u8>, i: int, n: int)
    requires
        forall|k: int| 0 <= k < n ==> bit_at(bm, k) == 0,
        0 <= i <= n,
    ensures
        count_set(bm, i) == 0,
    decreases i,
{
    if i > 0 {
        lemma_count_set_all_zeros_rec(bm, i - 1, n);
    }
}

/// Counts the set bits among the first `n` bits of the bitmap.
pub fn count_bits(bm: &[u8], n: usize) -> (r: usize)
    requires
        n <= 8 * bm@.len(),
        8 * bm@.len() <= usize::MAX,
    ensures
        r == count_set(bm@, n as int),
{
    let mut r: usize = 0;
    let mut i: usize = 0;
    while i < n
        invariant
            i <= n <= 8 * bm@.len(),
            r == count_set(bm@, i as int),
            r <= i,
        decreases n - i,
    {
        proof {
            vstd::arithmetic::div_mod::lemma_fundamental_div_mod(i as int, 8);
        }
        let byte = bm[i / 8];
        let b = (byte >> ((7 - (i % 8)) as u8)) & 1;
        if b == 1 {
            r = r + 1;
        }
        proof {
            assert(b == bit_at(bm@, i as int));
        }
        i = i + 1;
    }
    r
}

/// Spreads `src` over a `width` by `height` grid as the bitmap directs:
/// each present point takes the next value of `src` in order, each absent
/// point the 16-bit maximum. The bitmap's set-bit count must match the
/// input exactly, so that the input is wholly consumed.
pub fn apply_bit_map_u16(src: &[u16], bm: &[u8], width: usize, height: usize) -> (r: Vec<u16>)
    requires
        width * height <= 8 * bm@.len(),
        8 * bm@.len() <= usize::MAX,
        src@.len() == count_set(bm@, width * height),
    ensures
        r@.len() == width * height,
        forall|i: int|
            0 <= i < r@.len() ==> r@[i] == if bit_at(bm@, i) == 1 {
                src@[count_set(bm@, i)]
            } else {
                u16::MAX
            },
{
    let total: usize = width * height;
    let mut r: Vec<u16> = Vec::new();
    let mut src_pos: usize = 0;
    let mut i: usize = 0;
    while i < total
        invariant
            i <= total <= 8 * bm@.len(),
            8 * bm@.len() <= usize::MAX,
            src@.len() == count_set(bm@, total as int),
            src_pos == count_set(bm@, i as int),
            r@.len() == i,
            forall|k: int|
                0 <= k < i ==> r@[k] == if bit_at(bm@, k) == 1 {
                    src@[count_set(bm@, k)]
                } else {
                    u16::MAX
                },
        decreases total - i,
    {
        proof {
            vstd::arithmetic::div_mod::lemma_fundamental_div_mod(i as int, 8);
        }
        let byte = bm[i / 8];
        let b = (byte >> ((7 - (i % 8)) as u8)) & 1;
        proof {
            assert(b == bit_at(bm@, i as int));
            lemma_count_set_monotonic(bm@, i as int + 1, total as int);
        }
        if b == 1 {
            r.push(src[src_pos]);
            src_pos = src_pos + 1;
        } else {
            r.push(u16::MAX);
        }
        i = i + 1;
    }
    r
}

/// Spreads `src` over a `width` by `height` grid as the bitmap directs:
/// each present point takes the next value of `src` in order, each absent
/// point the 8-bit maximum. The bitmap's set-bit count must match the
/// input exactly, so that the input is wholly consumed.
pub fn apply_bit_map_u8(src: &[u8], bm: &[u8], width: usize, height: usize) -> (r: Vec<u8>)
    requires
        width * height <= 8 * bm@.len(),
        8 * bm@.len() <= usize::MAX,
        src@.len() == count_set(bm@, width * height),
    ensures
        r@.len() == width * height,
        forall|i: int|
            0 <= i < r@.len() ==> r@[i] == if bit_at(bm@, i) == 1 {
                src@[count_set(bm@, i)]
            } else {
                u8::MAX
            },
{
    let total: usize = width * height;
    let mut r: Vec<u8> = Vec::new();
    let mut src_pos: usize = 0;
    let mut i: usize = 0;
    while i < total
        invariant
            i <= total <= 8 * bm@.len(),
            8 * bm@.len() <= usize::MAX,
            src@.len() == count_set(bm@, total as int),
            src_pos == count_set(bm@, i as int),
            r@.len() == i,
            forall|k: int|
                0 <= k < i ==> r@[k] == if bit_at(bm@, k) == 1 {
                    src@[count_set(bm@, k)]
                } else {
                    u8::MAX
                },
        decreases total - i,
    {
        proof {
            vstd::arithmetic::div_mod::lemma_fundamental_div_mod(i as int, 8);
        }
        let byte = bm[i / 8];
        let b = (byte >> ((7 - (i % 8)) as u8)) & 1;
        proof {
            assert(b == bit_at(bm@, i as int));
            lemma_count_set_monotonic(bm@, i as int + 1, total as int);
        }
        if b == 1 {
            r.push(src[src_pos]);
            src_pos = src_pos + 1;
        } else {
            r.push(u8::MAX);
        }
        i = i + 1;
    }
    r
}

} // verus!

//! Complex packing with second-order spatial differencing: two seed values,
//! a signed overall minimum, three packed descriptor arrays (group
//! references, widths, lengths), then each group's own packed values. The
//! groups are expanded, shifted by their reference and the minimum, seeded,
//! and integrated twice to recover the raw value sequence.

use crate::bits::{unpack, unpack_seq};
use crate::bytes::{be_u16, i16_be, sign_magnitude16, u16_be};
use crate::Grib2Error;
use vstd::arithmetic::div_mod::{lemma_fundamental_div_mod, lemma_mod_multiples_vanish};
use vstd::prelude::*;
use vstd::slice::slice_subrange;

verus! {

/// The packing parameters carried by a data-representation section for
/// complex packing with spatial differencing.
#[derive(Clone, Copy, Debug)]
pub struct ComplexParams {
    /// Bit width of each group reference value.
    pub bits: u8,
    /// NG: the number of groups the field is split into.
    pub ng: u32,
    /// Reference for group widths.
    pub group_width_reference: u8,
    /// Bit width of the packed group widths.
    pub group_width_bits: u8,
    /// Reference for group lengths.
    pub group_length_reference: u32,
    /// Increment applied to the packed group lengths.
    pub group_length_increment: u8,
    /// True length of the last group.
    pub last_group_length: u32,
    /// Bit width of the packed group lengths.
    pub group_length_bits: u8,
    /// Order of spatial differencing.
    pub order: u8,
    /// Octets per extra descriptor (the seeds and the minimum).
    pub octets: u8,
}

/// Reduction to the 16-bit value range the packed data lives in.
pub open spec fn wrap16(x: int) -> int {
    x % 0x1_0000
}

/// Bytes needed to hold `n` bits.
pub open spec fn ceil8(n: int) -> int {
    (n + 7) / 8
}

/// The parameter combinations this decoder supports: second-order
/// differencing with 2-octet descriptors, every bit width one the
/// bit-stream unpacker accepts.
pub open spec fn complex_params_ok(p: ComplexParams) -> bool {
    &&& p.order == 2
    &&& p.octets == 2
    &&& 1 <= p.bits < 16
    &&& 1 <= p.group_width_bits < 16
    &&& 1 <= p.group_length_bits < 16
}

/// Effective width of group `m` (0-based).
pub open spec fn group_width(p: ComplexParams, widths: Seq<int>, m: int) -> int {
    p.group_width_reference + widths[m]
}

/// Effective length of group `m` (0-based); the last group carries its
/// true length directly.
pub open spec fn group_length(p: ComplexParams, lens: Seq<int>, m: int) -> int {
    if m == p.ng - 1 {
        p.last_group_length as int
    } else {
        p.group_length_reference + p.group_length_increment * lens[m]
    }
}

/// Offset of the first group's packed values: past the three 2-octet
/// descriptors and the three packed arrays.
pub open spec fn first_group_offset(p: ComplexParams) -> int {
    6 + ceil8(p.bits * p.ng) + ceil8(p.group_width_bits * p.ng) + ceil8(
        p.group_length_bits * p.ng,
    )
}

/// Walks groups `[0, m)`: yields the byte offset just past group `m - 1`
/// and the concatenation of all group values, each already summed with its
/// group reference and the overall minimum and wrapped to 16 bits. A
/// zero-width group contributes its length in entries without consuming
/// payload. `None` when a group is too wide for the unpacker or its data
/// runs off the end of the payload.
pub open spec fn groups_rec(
    s: Seq<u8>,
    p: ComplexParams,
    refs: Seq<int>,
    widths: Seq<int>,
    lens: Seq<int>,
    hmin: int,
    m: int,
) -> Option<(int, Seq<int>)>
    decreases m,
{
    if m <= 0 {
        Some((first_group_offset(p), Seq::empty()))
    } else {
        match groups_rec(s, p, refs, widths, lens, hmin, m - 1) {
            Option::None => Option::None,
            Option::Some((off, acc)) => {
                let gw = group_width(p, widths, m - 1);
                let gl = group_length(p, lens, m - 1);
                if gw == 0 {
                    Some((off, acc + Seq::new(gl as nat, |k: int| wrap16(refs[m - 1] + hmin))))
                } else if gw >= 16 {
                    None
                } else {
                    let gb = ceil8(gw * gl);
                    if off + gb > s.len() {
                        None
                    } else {
                        let vals = unpack_seq(s.subrange(off, off + gb), gw as nat);
                        if vals.len() < gl {
                            None
                        } else {
                            Some(
                                (
                                    off + gb,
                                    acc + Seq::new(
                                        gl as nat,
                                        |k: int| wrap16(vals[k] + refs[m - 1] + hmin),
                                    ),
                                ),
                            )
                        }
                    }
                }
            },
        }
    }
}

/// The h sequence of the payload: every group's adjusted values in order,
/// with the two seed values written over the first two entries. `None`
/// when the payload is too short, a group is malformed, or fewer than two
/// entries come out.
pub open spec fn complex_flat(s: Seq<u8>, p: ComplexParams) -> Option<Seq<int>> {
    if s.len() < first_group_offset(p) {
        Option::None
    } else {
        let o1 = 6 + ceil8(p.bits * p.ng);
        let o2 = o1 + ceil8(p.group_width_bits * p.ng);
        let refs = unpack_seq(s.subrange(6, o1), p.bits as nat);
        let widths = unpack_seq(s.subrange(o1, o2), p.group_width_bits as nat);
        let lens = unpack_seq(s.subrange(o2, first_group_offset(p)), p.group_length_bits as nat);
        if refs.len() < p.ng || widths.len() < p.ng || lens.len() < p.ng {
            Option::None
        } else {
            let hmin = sign_magnitude16(be_u16(s, 4));
            match groups_rec(s, p, refs, widths, lens, hmin, p.ng as int) {
                Option::None => Option::None,
                Option::Some((off, flat)) => {
                    if flat.len() < 2 {
                        Option::None
                    } else {
                        Some(flat.update(0, be_u16(s, 0)).update(1, be_u16(s, 2)))
                    }
                },
            }
        }
    }
}

/// Second-order integration of `h` at position `n`: the first two entries
/// seed the recurrence g[n] = h[n] + 2 g[n-1] - g[n-2], in 16-bit
/// wrap-around arithmetic.
pub open spec fn second_order_at(h: Seq<int>, n: int) -> int
    decreases n,
{
    if n <= 0 {
        h[0]
    } else if n == 1 {
        h[1]
    } else {
        wrap16(h[n] + 2 * second_order_at(h, n - 1) - second_order_at(h, n - 2))
    }
}

/// Second-order integration of the whole of `h`.
pub open spec fn second_order(h: Seq<int>) -> Seq<int> {
    Seq::new(h.len(), |n: int| second_order_at(h, n))
}

/// Whether decoding the payload succeeds.
pub open spec fn complex_ok(s: Seq<u8>, p: ComplexParams) -> bool {
    &&& complex_params_ok(p)
    &&& complex_flat(s, p) is Some
}

/// The raw value sequence the payload decodes to.
pub open spec fn complex_of(s: Seq<u8>, p: ComplexParams) -> Seq<int> {
    second_order(complex_flat(s, p).unwrap())
}

/// Given seeds g[0] and g[1] and an all-zero second-difference input, the
/// integration recovers the linear extrapolation g[1] + (n-1)(g[1]-g[0]),
/// in 16-bit wrap-around arithmetic.
pub proof fn lemma_second_order_linear(h: Seq<int>, n: int)
    requires
        h.len() >= 2,
        0 <= h[0] < 0x1_0000,
        0 <= h[1] < 0x1_0000,
        forall|k: int| 2 <= k < h.len() ==> h[k] == 0,
        1 <= n < h.len(),
    ensures
        second_order_at(h, n) == wrap16(h[1] + (n - 1) * (h[1] - h[0])),
    decreases n,
{
    let m = 0x1_0000;
    assert(second_order_at(h, 0) == h[0]);
    assert(second_order_at(h, 1) == h[1]);
    if n == 1 {
        assert(h[1] + 0 * (h[1] - h[0]) == h[1]);
        assert(wrap16(h[1]) == h[1]) by {
            vstd::arithmetic::div_mod::lemma_small_mod(h[1] as nat, m as nat);
        }
    } else if n == 2 {
        // g[2] = wrap16(2 h[1] - h[0]) and the extrapolation says the same
        assert(second_order_at(h, 2) == wrap16(h[2] + 2 * h[1] - h[0]));
        assert(h[2] + 2 * h[1] - h[0] == h[1] + 1 * (h[1] - h[0]));
    } else {
        lemma_second_order_linear(h, n - 1);
        lemma_second_order_linear(h, n - 2);
        let e1 = h[1] + (n - 2) * (h[1] - h[0]);
        let e2 = h[1] + (n - 3) * (h[1] - h[0]);
        let e = h[1] + (n - 1) * (h[1] - h[0]);
        assert(second_order_at(h, n) == wrap16(2 * wrap16(e1) - wrap16(e2)));
        let q1 = e1 / m;
        let q2 = e2 / m;
        lemma_fundamental_div_mod(e1, m);
        lemma_fundamental_div_mod(e2, m);
        assert(2 * wrap16(e1) - wrap16(e2) == 2 * e1 - e2 + m * (q2 - 2 * q1)) by (nonlinear_arith)
            requires
                e1 == m * q1 + wrap16(e1),
                e2 == m * q2 + wrap16(e2),
        ;
        assert(wrap16(2 * e1 - e2 + m * (q2 - 2 * q1)) == wrap16(2 * e1 - e2)) by {
            lemma_mod_multiples_vanish(q2 - 2 * q1, 2 * e1 - e2, m);
        }
        assert(2 * e1 - e2 == e) by (nonlinear_arith)
            requires
                e1 == h[1] + (n - 2) * (h[1] - h[0]),
                e2 == h[1] + (n - 3) * (h[1] - h[0]),
                e == h[1] + (n - 1) * (h[1] - h[0]),
        ;
    }
}

proof fn lemma_groups_rec_none(
    s: Seq<u8>,
    p: ComplexParams,
    refs: Seq<int>,
    widths: Seq<int>,
    lens: Seq<int>,
    hmin: int,
    m1: int,
    m2: int,
)
    requires
        0 <= m1 <= m2,
        groups_rec(s, p, refs, widths, lens, hmin, m1) is None,
    ensures
        groups_rec(s, p, refs, widths, lens, hmin, m2) is None,
    decreases m2 - m1,
{
    if m2 > m1 {
        lemma_groups_rec_none(s, p, refs, widths, lens, hmin, m1, m2 - 1);
    }
}

/// Decodes a complex-packing payload into the raw value sequence: reads
/// the seeds and the overall minimum, unpacks the three descriptor arrays,
/// expands each group, and integrates the second-order differences.
/// Unsupported parameter combinations are a precondition violation; a
/// payload whose groups do not fit is corrupt input.
pub fn unpack_complex_packing_and_spatial_differencing(buf: &[u8], p: ComplexParams) -> (r: Result<
    Vec<u16>,
    Grib2Error,
>)
    requires
        8 * buf@.len() + 16 <= usize::MAX,
    ensures
        r is Ok <==> complex_ok(buf@, p),
        r matches Ok(out) ==> out@.len() == complex_of(buf@, p).len(),
        r matches Ok(out) ==> forall|n: int|
            0 <= n < out@.len() ==> out@[n] as int == complex_of(buf@, p)[n],
        r matches Err(e) ==> ((e == Grib2Error::PreconditionViolation) <==> !complex_params_ok(p)),
        r matches Err(e) ==> e == Grib2Error::PreconditionViolation || e
            == Grib2Error::DecodeMismatch,
{
    if !(p.order == 2 && p.octets == 2 && 1 <= p.bits && p.bits < 16 && 1 <= p.group_width_bits
        && p.group_width_bits < 16 && 1 <= p.group_length_bits && p.group_length_bits < 16) {
        return Err(Grib2Error::PreconditionViolation);
    }
    let len64: u64 = buf.len() as u64;
    proof {
        assert((p.bits as u64) * (p.ng as u64) <= 15 * 0xffff_ffffu64) by (nonlinear_arith)
            requires
                p.bits <= 15,
                p.ng <= 0xffff_ffffu64,
        ;
        assert((p.group_width_bits as u64) * (p.ng as u64) <= 15 * 0xffff_ffffu64)
            by (nonlinear_arith)
            requires
                p.group_width_bits <= 15,
                p.ng <= 0xffff_ffffu64,
        ;
        assert((p.group_length_bits as u64) * (p.ng as u64) <= 15 * 0xffff_ffffu64)
            by (nonlinear_arith)
            requires
                p.group_length_bits <= 15,
                p.ng <= 0xffff_ffffu64,
        ;
    }
    let lr: u64 = ((p.bits as u64) * (p.ng as u64) + 7) / 8;
    let lw: u64 = ((p.group_width_bits as u64) * (p.ng as u64) + 7) / 8;
    let ll: u64 = ((p.group_length_bits as u64) * (p.ng as u64) + 7) / 8;
    let fgo: u64 = 6 + lr + lw + ll;
    assert(fgo as int == first_group_offset(p));
    if fgo > len64 {
        return Err(Grib2Error::DecodeMismatch);
    }
    let o1: usize = (6 + lr) as usize;
    let o2: usize = (6 + lr + lw) as usize;
    let o3: usize = fgo as usize;

    let refs_v = unpack(slice_subrange(buf, 6, o1), p.bits as usize);
    let widths_v = unpack(slice_subrange(buf, o1, o2), p.group_width_bits as usize);
    let lens_v = unpack(slice_subrange(buf, o2, o3), p.group_length_bits as usize);
    let ghost refs = unpack_seq(buf@.subrange(6, o1 as int), p.bits as nat);
    let ghost widths = unpack_seq(buf@.subrange(o1 as int, o2 as int), p.group_width_bits as nat);
    let ghost lens = unpack_seq(buf@.subrange(o2 as int, o3 as int), p.group_length_bits as nat);
    let ng: usize = p.ng as usize;
    if refs_v.len() < ng || widths_v.len() < ng || lens_v.len() < ng {
        return Err(Grib2Error::DecodeMismatch);
    }
    let hmin: i16 = i16_be(buf, 4);
    let h1: u16 = u16_be(buf, 0);
    let h2: u16 = u16_be(buf, 2);
    proof {
        vstd::arithmetic::power2::lemma2_to64();
        if (p.bits as nat) < 15 {
            vstd::arithmetic::power2::lemma_pow2_strictly_increases(p.bits as nat, 15);
        }
        if (p.group_width_bits as nat) < 15 {
            vstd::arithmetic::power2::lemma_pow2_strictly_increases(p.group_width_bits as nat, 15);
        }
        if (p.group_length_bits as nat) < 15 {
            vstd::arithmetic::power2::lemma_pow2_strictly_increases(p.group_length_bits as nat, 15);
        }
        assert forall|k: int| 0 <= k < refs.len() implies 0 <= #[trigger] refs[k] < 0x8000 by {
            assert(refs_v@[k] < vstd::arithmetic::power2::pow2(p.bits as nat));
        }
        assert forall|k: int| 0 <= k < widths.len() implies 0 <= #[trigger] widths[k] < 0x8000 by {
            assert(widths_v@[k] < vstd::arithmetic::power2::pow2(p.group_width_bits as nat));
        }
        assert forall|k: int| 0 <= k < lens.len() implies 0 <= #[trigger] lens[k] < 0x8000 by {
            assert(lens_v@[k] < vstd::arithmetic::power2::pow2(p.group_length_bits as nat));
        }
    }

    let mut h: Vec<u16> = Vec::new();
    let ghost mut acc: Seq<int> = Seq::empty();
    let mut off: usize = o3;
    let mut m: usize = 0;
    while m < ng
        invariant
            complex_params_ok(p),
            8 * buf@.len() + 16 <= usize::MAX,
            len64 == buf@.len(),
            ng == p.ng,
            o1 as int == 6 + ceil8(p.bits * p.ng),
            o2 as int == o1 + ceil8(p.group_width_bits * p.ng),
            o3 as int == first_group_offset(p),
            o3 <= buf@.len(),
            refs == unpack_seq(buf@.subrange(6, o1 as int), p.bits as nat),
            widths == unpack_seq(buf@.subrange(o1 as int, o2 as int), p.group_width_bits as nat),
            lens == unpack_seq(buf@.subrange(o2 as int, o3 as int), p.group_length_bits as nat),
            refs_v@.len() == refs.len() && ng <= refs.len(),
            widths_v@.len() == widths.len() && ng <= widths.len(),
            lens_v@.len() == lens.len() && ng <= lens.len(),
            forall|k: int| 0 <= k < refs.len() ==> refs_v@[k] as int == refs[k],
            forall|k: int| 0 <= k < widths.len() ==> widths_v@[k] as int == widths[k],
            forall|k: int| 0 <= k < lens.len() ==> lens_v@[k] as int == lens[k],
            forall|k: int|
                0 <= k < refs.len() ==> 0 <= #[trigger] refs[k] < 0x8000,
            forall|k: int|
                0 <= k < widths.len() ==> 0 <= #[trigger] widths[k] < 0x8000,
            forall|k: int|
                0 <= k < lens.len() ==> 0 <= #[trigger] lens[k] < 0x8000,
            hmin as int == sign_magnitude16(be_u16(buf@, 4)),
            m <= ng,
            groups_rec(buf@, p, refs, widths, lens, hmin as int, m as int) == Some(
                (off as int, acc),
            ),
            off <= buf@.len(),
            h@.len() == acc.len(),
            forall|k: int| 0 <= k < acc.len() ==> h@[k] as int == #[trigger] acc[k],
            forall|k: int| 0 <= k < acc.len() ==> 0 <= #[trigger] acc[k] < 0x1_0000,
        decreases ng - m,
    {
        let ghost acc0 = acc;
        let ghost off0 = off as int;
        proof {
            assert(lens_v@[m as int] as int == lens[m as int]);
            assert(lens[m as int] < 0x8000);
            assert((p.group_length_increment as u64) * (lens_v@[m as int] as u64) <= 255
                * 0x8000u64) by (nonlinear_arith)
                requires
                    p.group_length_increment <= 255,
                    lens_v@[m as int] <= 0x8000u64,
            ;
        }
        let gw64: u64 = p.group_width_reference as u64 + widths_v[m] as u64;
        let gl64: u64 = if m == ng - 1 {
            p.last_group_length as u64
        } else {
            p.group_length_reference as u64 + (p.group_length_increment as u64) * (
            lens_v[m] as u64)
        };
        proof {
            assert(gw64 as int == group_width(p, widths, m as int));
            assert(gl64 as int == group_length(p, lens, m as int));
        }
        let hplus: u32 = (hmin as i32 + 0x1_0000) as u32;
        if gw64 == 0 {
            let x: u32 = (refs_v[m] as u32) + hplus;
            let val: u16 = (x % 0x1_0000) as u16;
            proof {
                let t = refs[m as int] + hmin;
                assert(x as int == t + 0x1_0000);
                lemma_mod_multiples_vanish(1, t, 0x1_0000);
                assert(val as int == wrap16(t));
                acc = acc + Seq::new(gl64 as nat, |k: int| wrap16(refs[m as int] + hmin));
            }
            let mut c: u64 = 0;
            let ghost hlen0 = h@.len();
            while c < gl64
                invariant
                    c <= gl64,
                    h@.len() == hlen0 + c,
                    forall|k: int| 0 <= k < hlen0 ==> h@[k] as int == acc0[k],
                    acc0.len() == hlen0,
                    forall|k: int| hlen0 <= k < h@.len() ==> h@[k] == val,
                decreases gl64 - c,
            {
                h.push(val);
                c = c + 1;
            }
            proof {
                assert forall|k: int| 0 <= k < acc.len() implies h@[k] as int == #[trigger] acc[k] by {
                    if k >= hlen0 {
                        assert(acc[k] == wrap16(refs[m as int] + hmin));
                    }
                }
            }
        } else if gw64 >= 16 {
            proof {
                assert(groups_rec(buf@, p, refs, widths, lens, hmin as int, m as int + 1) is None);
                lemma_groups_rec_none(
                    buf@,
                    p,
                    refs,
                    widths,
                    lens,
                    hmin as int,
                    m as int + 1,
                    ng as int,
                );
                assert(complex_flat(buf@, p) is None);
            }
            return Err(Grib2Error::DecodeMismatch);
        } else {
            let gw: usize = gw64 as usize;
            proof {
                assert(gw64 * gl64 <= 15 * 0x1_0080_0000u64) by (nonlinear_arith)
                    requires
                        gw64 <= 15,
                        gl64 <= 0x1_0080_0000u64,
                ;
            }
            let gb: u64 = (gw64 * gl64 + 7) / 8;
            let off64: u64 = off as u64;
            if off64 + gb > len64 {
                proof {
                    assert(groups_rec(
                        buf@,
                        p,
                        refs,
                        widths,
                        lens,
                        hmin as int,
                        m as int + 1,
                    ) is None);
                    lemma_groups_rec_none(
                        buf@,
                        p,
                        refs,
                        widths,
                        lens,
                        hmin as int,
                        m as int + 1,
                        ng as int,
                    );
                    assert(complex_flat(buf@, p) is None);
                }
                return Err(Grib2Error::DecodeMismatch);
            }
            let end: usize = (off64 + gb) as usize;
            let vals_v = unpack(slice_subrange(buf, off, end), gw);
            let ghost vals = unpack_seq(buf@.subrange(off as int, end as int), gw64 as nat);
            proof {
                vstd::arithmetic::power2::lemma2_to64();
                if (gw64 as nat) < 15 {
                    vstd::arithmetic::power2::lemma_pow2_strictly_increases(gw64 as nat, 15);
                }
                assert(vals_v@.len() == vals.len());
                assert forall|k: int| 0 <= k < vals.len() implies vals_v@[k] as int == #[trigger] vals[k]
                    && 0 <= vals[k] < 0x8000 by {
                    assert(vals_v@[k] as int == vals[k]);
                    assert(vals_v@[k] < vstd::arithmetic::power2::pow2(gw64 as nat));
                }
            }
            if (vals_v.len() as u64) < gl64 {
                proof {
                    assert(groups_rec(
                        buf@,
                        p,
                        refs,
                        widths,
                        lens,
                        hmin as int,
                        m as int + 1,
                    ) is None);
                    lemma_groups_rec_none(
                        buf@,
                        p,
                        refs,
                        widths,
                        lens,
                        hmin as int,
                        m as int + 1,
                        ng as int,
                    );
                    assert(complex_flat(buf@, p) is None);
                }
                return Err(Grib2Error::DecodeMismatch);
            }
            let gl: usize = gl64 as usize;
            proof {
                acc = acc + Seq::new(gl64 as nat, |k: int| wrap16(vals[k] + refs[m as int] + hmin));
            }
            let mut c: usize = 0;
            let ghost hlen0 = h@.len();
            while c < gl
                invariant
                    c <= gl,
                    gl <= vals_v@.len(),
                    vals.len() == vals_v@.len(),
                    h@.len() == hlen0 + c,
                    forall|k: int| 0 <= k < hlen0 ==> h@[k] as int == acc0[k],
                    acc0.len() == hlen0,
                    m < ng <= refs.len(),
                    refs_v@.len() == refs.len(),
                    refs_v@[m as int] as int == refs[m as int],
                    0 <= refs[m as int] < 0x8000,
                    hmin as int == sign_magnitude16(be_u16(buf@, 4)),
                    hplus as int == hmin + 0x1_0000,
                    forall|k: int| 0 <= k < vals.len() ==> vals_v@[k] as int == vals[k],
                    forall|k: int| 0 <= k < vals.len() ==> 0 <= #[trigger] vals[k] < 0x8000,
                    forall|k: int|
                        hlen0 <= k < h@.len() ==> h@[k] as int == wrap16(
                            vals[k - hlen0] + refs[m as int] + hmin,
                        ),
                decreases gl - c,
            {
                let x: u32 = (vals_v[c] as u32) + (refs_v[m] as u32) + hplus;
                let val: u16 = (x % 0x1_0000) as u16;
                proof {
                    let t = vals[c as int] + refs[m as int] + hmin;
                    assert(x as int == t + 0x1_0000);
                    lemma_mod_multiples_vanish(1, t, 0x1_0000);
                    assert(val as int == wrap16(t));
                }
                h.push(val);
                c = c + 1;
            }
            off = end;
            proof {
                assert forall|k: int| 0 <= k < acc.len() implies h@[k] as int == #[trigger] acc[k] by {
                    if k >= hlen0 {
                        assert(acc[k] == wrap16(vals[k - hlen0] + refs[m as int] + hmin));
                    }
                }
            }
        }
        m = m + 1;
        proof {
            assert(groups_rec(buf@, p, refs, widths, lens, hmin as int, m as int) == Some(
                (off as int, acc),
            ));
        }
    }
    if h.len() < 2 {
        return Err(Grib2Error::DecodeMismatch);
    }
    h[0] = h1;
    h[1] = h2;
    let ghost hs = complex_flat(buf@, p).unwrap();
    proof {
        assert(hs =~= acc.update(0, be_u16(buf@, 0)).update(1, be_u16(buf@, 2)));
        assert(forall|k: int| 0 <= k < hs.len() ==> h@[k] as int == #[trigger] hs[k]);
        assert(forall|k: int| 0 <= k < hs.len() ==> 0 <= #[trigger] hs[k] < 0x1_0000);
    }
    let mut g: Vec<u16> = Vec::new();
    let first = h[0];
    let second = h[1];
    g.push(first);
    g.push(second);
    let mut n: usize = 2;
    while n < h.len()
        invariant
            2 <= n <= h@.len(),
            g@.len() == n,
            hs.len() == h@.len(),
            forall|k: int| 0 <= k < hs.len() ==> h@[k] as int == #[trigger] hs[k],
            forall|k: int| 0 <= k < hs.len() ==> 0 <= #[trigger] hs[k] < 0x1_0000,
            forall|k: int| 0 <= k < n ==> g@[k] as int == second_order_at(hs, k),
        decreases h@.len() - n,
    {
        let x: u32 = (h[n] as u32) + 2 * (g[n - 1] as u32) + 0x1_0000 - (g[n - 2] as u32);
        let val: u16 = (x % 0x1_0000) as u16;
        proof {
            let t = hs[n as int] + 2 * second_order_at(hs, n as int - 1) - second_order_at(
                hs,
                n as int - 2,
            );
            assert(g@[n as int - 1] as int == second_order_at(hs, n as int - 1));
            assert(g@[n as int - 2] as int == second_order_at(hs, n as int - 2));
            assert(x as int == t + 0x1_0000);
            lemma_mod_multiples_vanish(1, t, 0x1_0000);
            assert(val as int == wrap16(t));
            assert(second_order_at(hs, n as int) == wrap16(t));
        }
        g.push(val);
        n = n + 1;
    }
    proof {
        assert(second_order_at(hs, 0) == hs[0]);
        assert(second_order_at(hs, 1) == hs[1]);
        assert(complex_of(buf@, p) == second_order(hs));
    }
    Ok(g)
}

} // verus!

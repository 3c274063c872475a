//! Bit-stream unpacking: extracting unsigned values of arbitrary bit width,
//! packed contiguously and MSB-first, from a byte buffer. Values may straddle
//! byte boundaries. A packing counterpart exists at the specification level
//! so that the unpacker can be proved to invert it.

use vstd::arithmetic::div_mod::{
    lemma_div_denominator, lemma_div_is_ordered, lemma_div_multiples_vanish,
    lemma_fundamental_div_mod, lemma_fundamental_div_mod_converse_div,
    lemma_fundamental_div_mod_converse_mod,
};
use vstd::arithmetic::power2::{lemma2_to64, lemma_pow2_unfold, pow2};
use vstd::prelude::*;

verus! {

/// Bit `i` of the buffer, counting MSB-first within each byte.
pub open spec fn bit_at(s: Seq<u8>, i: int) -> u8 {
    (s[i / 8] >> ((7 - (i % 8)) as u8)) & 1
}

/// The unsigned value of the `width` bits starting at bit offset `start`,
/// most significant bit first.
pub open spec fn bits_value(s: Seq<u8>, start: int, width: nat) -> int
    decreases width,
{
    if width == 0 {
        0
    } else {
        bits_value(s, start, (width - 1) as nat) * 2 + bit_at(s, start + width - 1)
    }
}

/// Everything the bit-stream unpacker yields from `s` at width `bits`:
/// one value per full `bits`-wide group, a trailing partial group discarded.
pub open spec fn unpack_seq(s: Seq<u8>, bits: nat) -> Seq<int> {
    Seq::new((8 * s.len()) / bits, |k: int| bits_value(s, k * bits, bits))
}

/// Bit `j` (MSB-first) of `v` read as a `w`-bit value.
pub open spec fn val_bit(v: int, w: nat, j: int) -> int {
    (v / pow2((w - 1 - j) as nat) as int) % 2
}

/// Bit `i` of the bit stream formed by concatenating the `w`-bit
/// renderings of `values`; zero past the end of the stream.
pub open spec fn stream_bit(values: Seq<int>, w: nat, i: int) -> int {
    if 0 <= i < values.len() * w {
        val_bit(values[i / w as int], w, i % w as int)
    } else {
        0
    }
}

/// Byte `b` of the packed rendering of `values` at width `w`.
pub open spec fn pack_byte(values: Seq<int>, w: nat, b: int) -> int {
    stream_bit(values, w, 8 * b) * 128 + stream_bit(values, w, 8 * b + 1) * 64 + stream_bit(
        values,
        w,
        8 * b + 2,
    ) * 32 + stream_bit(values, w, 8 * b + 3) * 16 + stream_bit(values, w, 8 * b + 4) * 8
        + stream_bit(values, w, 8 * b + 5) * 4 + stream_bit(values, w, 8 * b + 6) * 2 + stream_bit(
        values,
        w,
        8 * b + 7,
    )
}

/// The bit-exact buffer holding `values` packed at width `w`, MSB-first,
/// zero-padded up to a whole number of bytes.
pub open spec fn pack_seq(values: Seq<int>, w: nat) -> Seq<u8> {
    Seq::new((values.len() * w + 7) / 8, |b: int| pack_byte(values, w, b) as u8)
}

proof fn lemma_bit_at_le_one(s: Seq<u8>, i: int)
    ensures
        bit_at(s, i) <= 1,
{
    let x = s[i / 8];
    let sh = (7 - (i % 8)) as u8;
    assert((x >> sh) & 1 <= 1) by (bit_vector);
}

/// The value of a `w`-bit group is always below `pow2(w)`.
pub proof fn lemma_bits_value_bound(s: Seq<u8>, start: int, width: nat)
    ensures
        0 <= bits_value(s, start, width) < pow2(width),
    decreases width,
{
    if width == 0 {
        lemma2_to64();
    } else {
        lemma_bits_value_bound(s, start, (width - 1) as nat);
        lemma_bit_at_le_one(s, start + width - 1);
        lemma_pow2_unfold(width);
    }
}

/// Unpacks consecutive `bits`-wide unsigned values from `buf`, starting at
/// bit offset 0 and continuing while at least `bits` bits remain; a trailing
/// partial group is discarded. Yields exactly one value for each full group,
/// each strictly below `pow2(bits)`.
pub fn unpack(buf: &[u8], bits: usize) -> (r: Vec<u16>)
    requires
        1 <= bits < 16,
        8 * buf@.len() + 16 <= usize::MAX,
    ensures
        r@.len() == unpack_seq(buf@, bits as nat).len(),
        forall|k: int|
            0 <= k < r@.len() ==> r@[k] as int == unpack_seq(buf@, bits as nat)[k],
        forall|k: int| 0 <= k < r@.len() ==> r@[k] < pow2(bits as nat),
{
    let total_bits: usize = buf.len() * 8;
    let mut r: Vec<u16> = Vec::new();
    let mut bit_pos: usize = 0;
    proof {
        assert(r@.len() * bits == 0) by (nonlinear_arith)
            requires
                r@.len() == 0,
        ;
    }
    while bit_pos + bits <= total_bits
        invariant
            1 <= bits < 16,
            total_bits == 8 * buf@.len(),
            total_bits + 16 <= usize::MAX,
            bit_pos == r@.len() * bits,
            bit_pos <= total_bits,
            forall|k: int|
                0 <= k < r@.len() ==> r@[k] as int == bits_value(buf@, k * bits, bits as nat),
            forall|k: int| 0 <= k < r@.len() ==> r@[k] < pow2(bits as nat),
        decreases total_bits - bit_pos,
    {
        let ghost k0 = r@.len() as int;
        proof {
            lemma2_to64();
        }
        let mut v: u16 = 0;
        let mut j: usize = 0;
        while j < bits
            invariant
                1 <= bits < 16,
                j <= bits,
                bit_pos + bits <= total_bits,
                total_bits == 8 * buf@.len(),
                total_bits + 16 <= usize::MAX,
                v as int == bits_value(buf@, bit_pos as int, j as nat),
                v < pow2(j as nat),
            decreases bits - j,
        {
            let p: usize = bit_pos + j;
            assert(p < 8 * buf@.len());
            assert(p / 8 < buf@.len()) by {
                lemma_fundamental_div_mod(p as int, 8);
            }
            let byte: u8 = buf[p / 8];
            let sh: usize = 7 - (p % 8);
            let b: u8 = (byte >> (sh as u8)) & 1;
            proof {
                assert(byte == buf@[p as int / 8]);
                assert(b == bit_at(buf@, p as int));
                lemma_bit_at_le_one(buf@, p as int);
                lemma2_to64();
                lemma_pow2_unfold((j + 1) as nat);
                if (j as nat) < 14 {
                    vstd::arithmetic::power2::lemma_pow2_strictly_increases(j as nat, 14);
                }
            }
            assert(v < 16384);
            v = v * 2 + (b as u16);
            j = j + 1;
        }
        r.push(v);
        bit_pos = bit_pos + bits;
        proof {
            assert(r@.len() * bits == (r@.len() - 1) * bits + bits) by (nonlinear_arith);
            assert(bits_value(buf@, k0 * bits, bits as nat) == v);
        }
    }
    proof {
        let n = 8 * buf@.len() as int;
        let q = r@.len() as int;
        let b = bits as int;
        assert(q * b <= n < q * b + b);
        lemma_fundamental_div_mod_converse_div(n, b, q, n - q * b);
        assert(unpack_seq(buf@, bits as nat).len() == n / b);
    }
    r
}

proof fn lemma_byte_bits(x: u8, b0: u8, b1: u8, b2: u8, b3: u8, b4: u8, b5: u8, b6: u8, b7: u8)
    by (bit_vector)
    requires
        b0 <= 1,
        b1 <= 1,
        b2 <= 1,
        b3 <= 1,
        b4 <= 1,
        b5 <= 1,
        b6 <= 1,
        b7 <= 1,
        x == b0 * 128 + b1 * 64 + b2 * 32 + b3 * 16 + b4 * 8 + b5 * 4 + b6 * 2 + b7,
    ensures
        (x >> 7u8) & 1 == b0,
        (x >> 6u8) & 1 == b1,
        (x >> 5u8) & 1 == b2,
        (x >> 4u8) & 1 == b3,
        (x >> 3u8) & 1 == b4,
        (x >> 2u8) & 1 == b5,
        (x >> 1u8) & 1 == b6,
        (x >> 0u8) & 1 == b7,
{
}

proof fn lemma_stream_bit_le_one(values: Seq<int>, w: nat, i: int)
    requires
        forall|k: int| 0 <= k < values.len() ==> 0 <= #[trigger] values[k],
    ensures
        0 <= stream_bit(values, w, i) <= 1,
{
    if 0 <= i < values.len() * w {
        let v = values[i / w as int];
        let p = pow2((w - 1 - (i % w as int)) as nat) as int;
        vstd::arithmetic::power2::lemma_pow2_pos((w - 1 - (i % w as int)) as nat);
        assert(0 <= i / (w as int) < values.len()) by {
            lemma_fundamental_div_mod(i, w as int);
            vstd::arithmetic::div_mod::lemma_div_pos_is_pos(i, w as int);
            assert(i < values.len() * w);
            if i / (w as int) >= values.len() {
                assert(i >= values.len() * w) by (nonlinear_arith)
                    requires
                        i / (w as int) >= values.len(),
                        w > 0,
                        i == w * (i / (w as int)) + i % (w as int),
                        i % (w as int) >= 0,
                ;
                assert(false);
            }
        }
        assert(0 <= v);
        assert(0 <= v / p) by {
            vstd::arithmetic::div_mod::lemma_div_pos_is_pos(v, p);
        }
    }
}

proof fn lemma_pack_seq_bit(values: Seq<int>, w: nat, i: int)
    requires
        1 <= w,
        forall|k: int| 0 <= k < values.len() ==> 0 <= #[trigger] values[k],
        0 <= i < 8 * pack_seq(values, w).len(),
    ensures
        bit_at(pack_seq(values, w), i) as int == stream_bit(values, w, i),
{
    let s = pack_seq(values, w);
    let bi = i / 8;
    let t = i % 8;
    assert(0 <= bi < s.len()) by {
        lemma_fundamental_div_mod(i, 8);
    }
    let c0 = stream_bit(values, w, 8 * bi);
    let c1 = stream_bit(values, w, 8 * bi + 1);
    let c2 = stream_bit(values, w, 8 * bi + 2);
    let c3 = stream_bit(values, w, 8 * bi + 3);
    let c4 = stream_bit(values, w, 8 * bi + 4);
    let c5 = stream_bit(values, w, 8 * bi + 5);
    let c6 = stream_bit(values, w, 8 * bi + 6);
    let c7 = stream_bit(values, w, 8 * bi + 7);
    lemma_stream_bit_le_one(values, w, 8 * bi);
    lemma_stream_bit_le_one(values, w, 8 * bi + 1);
    lemma_stream_bit_le_one(values, w, 8 * bi + 2);
    lemma_stream_bit_le_one(values, w, 8 * bi + 3);
    lemma_stream_bit_le_one(values, w, 8 * bi + 4);
    lemma_stream_bit_le_one(values, w, 8 * bi + 5);
    lemma_stream_bit_le_one(values, w, 8 * bi + 6);
    lemma_stream_bit_le_one(values, w, 8 * bi + 7);
    let pb = pack_byte(values, w, bi);
    assert(0 <= pb <= 255);
    let x = s[bi];
    assert(x == pb as u8);
    assert(x as int == pb);
    lemma_byte_bits(
        x,
        c0 as u8,
        c1 as u8,
        c2 as u8,
        c3 as u8,
        c4 as u8,
        c5 as u8,
        c6 as u8,
        c7 as u8,
    );
    assert(i == 8 * bi + t) by {
        lemma_fundamental_div_mod(i, 8);
    }
    assert(bit_at(s, i) == (x >> ((7 - t) as u8)) & 1);
    if t == 0 {
        assert(bit_at(s, i) as int == c0);
    } else if t == 1 {
        assert(bit_at(s, i) as int == c1);
    } else if t == 2 {
        assert(bit_at(s, i) as int == c2);
    } else if t == 3 {
        assert(bit_at(s, i) as int == c3);
    } else if t == 4 {
        assert(bit_at(s, i) as int == c4);
    } else if t == 5 {
        assert(bit_at(s, i) as int == c5);
    } else if t == 6 {
        assert(bit_at(s, i) as int == c6);
    } else {
        assert(bit_at(s, i) as int == c7);
    }
}

proof fn lemma_bits_value_from_bits(s: Seq<u8>, start: int, v: int, w: nat)
    requires
        0 <= v < pow2(w),
        forall|j: int| 0 <= j < w ==> bit_at(s, start + j) as int == val_bit(v, w, j),
    ensures
        bits_value(s, start, w) == v,
    decreases w,
{
    if w == 0 {
        lemma2_to64();
    } else {
        let v2 = v / 2;
        lemma_fundamental_div_mod(v, 2);
        lemma_pow2_unfold(w);
        assert(v2 < pow2((w - 1) as nat)) by {
            if v2 >= pow2((w - 1) as nat) {
                assert(v >= 2 * v2);
            }
        }
        assert(0 <= v2) by {
            vstd::arithmetic::div_mod::lemma_div_pos_is_pos(v, 2);
        }
        assert forall|j: int| 0 <= j < w - 1 implies #[trigger] bit_at(s, start + j) as int
            == val_bit(v2, (w - 1) as nat, j) by {
            let k = (w - 2 - j) as nat;
            vstd::arithmetic::power2::lemma_pow2_pos(k);
            lemma_div_denominator(v, 2, pow2(k) as int);
            lemma_pow2_unfold((k + 1) as nat);
            assert((v / 2) / pow2(k) as int == v / (2 * pow2(k) as int));
            assert(val_bit(v2, (w - 1) as nat, j) == (v / pow2((k + 1) as nat) as int) % 2);
            assert(val_bit(v, w, j) == (v / pow2((w - 1 - j) as nat) as int) % 2);
            assert((w - 1 - j) as nat == (k + 1) as nat);
        }
        lemma_bits_value_from_bits(s, start, v2, (w - 1) as nat);
        assert(val_bit(v, w, w - 1) == v % 2) by {
            lemma2_to64();
            assert(pow2(0) == 1);
            vstd::arithmetic::div_mod::lemma_div_basics(v);
        }
        assert(bit_at(s, start + w - 1) as int == v % 2);
        assert(bits_value(s, start, w) == v2 * 2 + v % 2);
    }
}

/// Round trip: packing any sequence of `w`-bit values into a bit-exact
/// buffer and unpacking that buffer at the same width reproduces the
/// original sequence exactly; the values of the zero-padding tail, if any,
/// are zero.
pub proof fn lemma_pack_unpack_round_trip(values: Seq<int>, w: nat)
    requires
        1 <= w < 16,
        forall|k: int| 0 <= k < values.len() ==> 0 <= #[trigger] values[k] < pow2(w),
    ensures
        unpack_seq(pack_seq(values, w), w).len() >= values.len(),
        forall|k: int|
            0 <= k < values.len() ==> unpack_seq(pack_seq(values, w), w)[k] == values[k],
        forall|k: int|
            values.len() <= k < unpack_seq(pack_seq(values, w), w).len() ==> unpack_seq(
                pack_seq(values, w),
                w,
            )[k] == 0,
{
    let s = pack_seq(values, w);
    let n = values.len() as int;
    let u = unpack_seq(s, w);
    let cnt = (8 * s.len()) as int / w as int;
    assert(s.len() == (n * w + 7) / 8);
    assert(8 * s.len() >= n * w) by {
        lemma_fundamental_div_mod(n * w + 7, 8);
        assert(n * w >= 0) by (nonlinear_arith)
            requires
                n >= 0,
                w >= 0,
        ;
    }
    assert(cnt >= n) by {
        lemma_div_is_ordered(n * w, 8 * s.len() as int, w as int);
        lemma_div_multiples_vanish(n, w as int);
        assert(n * w == w as int * n) by (nonlinear_arith);
    }
    assert(cnt * w <= 8 * s.len()) by {
        lemma_fundamental_div_mod(8 * s.len() as int, w as int);
        assert((8 * s.len() as int) % (w as int) >= 0);
        assert(w as int * cnt == cnt * w);
    }
    assert forall|k: int| 0 <= k < cnt implies u[k] == if k < n {
        values[k]
    } else {
        0
    } by {
        let start = k * w;
        assert(start + w <= cnt * w) by (nonlinear_arith)
            requires
                k < cnt,
                w >= 1,
                start == k * w,
        ;
        assert(start >= 0) by (nonlinear_arith)
            requires
                k >= 0,
                w >= 1,
                start == k * w,
        ;
        let v = if k < n {
            values[k]
        } else {
            0
        };
        assert(0 <= v < pow2(w)) by {
            vstd::arithmetic::power2::lemma_pow2_pos(w);
        }
        assert forall|j: int| 0 <= j < w implies bit_at(s, start + j) as int == val_bit(v, w, j) by {
            let i = start + j;
            lemma_pack_seq_bit(values, w, i);
            if k < n {
                assert(i < n * w) by (nonlinear_arith)
                    requires
                        k < n,
                        j < w,
                        i == k * w + j,
                ;
                lemma_fundamental_div_mod_converse_div(i, w as int, k, j);
                lemma_fundamental_div_mod_converse_mod(i, w as int, k, j);
                assert(stream_bit(values, w, i) == val_bit(values[k], w, j));
            } else {
                assert(i >= n * w) by (nonlinear_arith)
                    requires
                        k >= n,
                        j >= 0,
                        w >= 1,
                        i == k * w + j,
                ;
                assert(stream_bit(values, w, i) == 0);
                assert(val_bit(0, w, j) == 0) by {
                    let p = pow2((w - 1 - j) as nat) as int;
                    vstd::arithmetic::power2::lemma_pow2_pos((w - 1 - j) as nat);
                    vstd::arithmetic::div_mod::lemma_basic_div(0, p);
                }
            }
        }
        lemma_bits_value_from_bits(s, start, v, w);
    }
}

} // verus!

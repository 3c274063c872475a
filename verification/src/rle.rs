//! Run-length packing with level values: a token at most `max_level` starts
//! a new run of that level; a larger token is one more digit of the current
//! run's length, written in a positional system whose base is what remains
//! of the token space above the levels.

use crate::bits::{unpack, unpack_seq};
use crate::Grib2Error;
use vstd::arithmetic::power::pow;
use vstd::arithmetic::power2::{lemma2_to64, lemma_pow2_unfold, pow2};
use vstd::prelude::*;

verus! {

/// `len` copies of `v`.
pub open spec fn repeat_val(v: int, len: int) -> Seq<int> {
    Seq::new(
        if len >= 0 {
            len as nat
        } else {
            0
        },
        |x: int| v,
    )
}

/// The base of the positional system run lengths are written in: the part
/// of the `bits`-wide token space above the level values. Zero when the
/// levels fill the token space, in which case no token can be a digit.
pub open spec fn rle_base(bits: nat, max_level: int) -> int {
    if max_level >= pow2(bits) - 1 {
        0
    } else {
        pow2(bits) - 1 - max_level
    }
}

/// A token stream is well formed when it is non-empty and opens with a
/// level token: a leading run-length digit would continue no run.
pub open spec fn rle_wf(tokens: Seq<int>, max_level: int) -> bool {
    tokens.len() > 0 && tokens[0] <= max_level
}

/// Expansion of the tokens from position `i` on, given the pending run
/// (level `v`, length `len` so far, `d` digits consumed): digits extend the
/// pending run; a level token flushes it and opens a new one; the end of
/// the stream flushes the last run.
pub open spec fn rle_rec(
    tokens: Seq<int>,
    max_level: int,
    base: int,
    i: int,
    v: int,
    len: int,
    d: nat,
) -> Seq<int>
    decreases tokens.len() - i,
{
    if i < 0 || i >= tokens.len() {
        repeat_val(v, len)
    } else if tokens[i] > max_level {
        rle_rec(
            tokens,
            max_level,
            base,
            i + 1,
            v,
            len + pow(base, d) * (tokens[i] - max_level - 1),
            (d + 1) as nat,
        )
    } else {
        repeat_val(v, len) + rle_rec(tokens, max_level, base, i + 1, tokens[i], 1, 0)
    }
}

/// The full expansion of a well-formed token stream into level indices.
pub open spec fn rle_expand(tokens: Seq<int>, max_level: int, base: int) -> Seq<int> {
    rle_rec(tokens, max_level, base, 1, tokens[0], 1, 0)
}

/// The level-index sequence encoded by `s` at width `bits` with levels up
/// to `max_level`.
pub open spec fn rle_of(s: Seq<u8>, bits: nat, max_level: int) -> Seq<int> {
    rle_expand(unpack_seq(s, bits), max_level, rle_base(bits, max_level))
}

/// Whether decoding `s` succeeds: the token stream is well formed and the
/// expansion fits in memory.
pub open spec fn rle_ok(s: Seq<u8>, bits: nat, max_level: int) -> bool {
    &&& rle_wf(unpack_seq(s, bits), max_level)
    &&& rle_of(s, bits, max_level).len() <= usize::MAX
}

proof fn lemma_pow_nonneg(b: int, e: nat)
    requires
        b >= 0,
    ensures
        pow(b, e) >= 0,
    decreases e,
{
    if e > 0 {
        lemma_pow_nonneg(b, (e - 1) as nat);
        vstd::arithmetic::power::lemma_pow_adds(b, (e - 1) as nat, 1);
        vstd::arithmetic::power::lemma_pow1(b);
        assert(pow(b, e) == pow(b, (e - 1) as nat) * b);
        assert(pow(b, (e - 1) as nat) * b >= 0) by (nonlinear_arith)
            requires
                b >= 0,
                pow(b, (e - 1) as nat) >= 0,
        ;
    } else {
        vstd::arithmetic::power::lemma_pow0(b);
    }
}

/// The expansion from any state is at least as long as the pending run.
proof fn lemma_rle_rec_len_ge(
    tokens: Seq<int>,
    max_level: int,
    base: int,
    i: int,
    v: int,
    len: int,
    d: nat,
)
    requires
        base >= 0,
        len >= 0,
    ensures
        rle_rec(tokens, max_level, base, i, v, len, d).len() >= len,
    decreases tokens.len() - i,
{
    if i < 0 || i >= tokens.len() {
    } else if tokens[i] > max_level {
        lemma_pow_nonneg(base, d);
        assert(pow(base, d) * (tokens[i] - max_level - 1) >= 0) by (nonlinear_arith)
            requires
                pow(base, d) >= 0,
                tokens[i] - max_level - 1 >= 0,
        ;
        lemma_rle_rec_len_ge(
            tokens,
            max_level,
            base,
            i + 1,
            v,
            len + pow(base, d) * (tokens[i] - max_level - 1),
            (d + 1) as nat,
        );
    } else {
        lemma_rle_rec_len_ge(tokens, max_level, base, i + 1, tokens[i], 1, 0);
    }
}

/// Computes `pow2(e)` for small exponents.
pub fn pow2_exec(e: usize) -> (r: usize)
    requires
        e <= 16,
    ensures
        r == pow2(e as nat),
        r >= 1,
{
    let mut r: usize = 1;
    let mut i: usize = 0;
    proof {
        lemma2_to64();
    }
    while i < e
        invariant
            i <= e <= 16,
            r == pow2(i as nat),
            r <= 0x1_0000,
        decreases e - i,
    {
        proof {
            lemma_pow2_unfold((i + 1) as nat);
            lemma2_to64();
            if i + 1 < 16 {
                vstd::arithmetic::power2::lemma_pow2_strictly_increases((i + 1) as nat, 16);
            }
        }
        r = r * 2;
        i = i + 1;
    }
    r
}

/// Decodes a run-length packed payload into the flat sequence of 8-bit
/// level indices it encodes. Rejects a malformed stream (empty, or opening
/// with a run-length digit) and an expansion too large to build.
pub fn unpack_run_length_packing(buf: &[u8], bits: usize, max_level: usize) -> (r: Result<
    Vec<u8>,
    Grib2Error,
>)
    requires
        1 <= bits < 16,
        8 * buf@.len() + 16 <= usize::MAX,
    ensures
        r is Ok <==> rle_ok(buf@, bits as nat, max_level as int),
        r matches Ok(out) ==> out@.len() == rle_of(buf@, bits as nat, max_level as int).len(),
        r matches Ok(out) ==> forall|j: int|
            0 <= j < out@.len() ==> out@[j] as int == rle_of(buf@, bits as nat, max_level as int)[j]
                % 256,
        r matches Err(e) ==> e == Grib2Error::DecodeMismatch,
{
    let values = unpack(buf, bits);
    let ghost toks = unpack_seq(buf@, bits as nat);
    let ghost ml = max_level as int;
    let ghost base = rle_base(bits as nat, ml);
    let ghost ex = rle_expand(toks, ml, base);

    if values.len() == 0 {
        return Err(Grib2Error::DecodeMismatch);
    }
    let t0 = values[0];
    if (t0 as usize) > max_level {
        return Err(Grib2Error::DecodeMismatch);
    }
    let p2 = pow2_exec(bits);
    let base_e: usize = if max_level >= p2 - 1 {
        0
    } else {
        p2 - 1 - max_level
    };
    assert(base_e as int == base);

    let mut dest: Vec<u8> = Vec::new();
    let ghost mut done: Seq<int> = Seq::empty();
    let mut v: u16 = t0;
    let mut len: usize = 1;
    let mut scale: usize = 1;
    let mut scale_ok: bool = true;
    let ghost mut d: nat = 0;
    let mut i: usize = 1;
    proof {
        vstd::arithmetic::power::lemma_pow0(base);
        assert(ex =~= done + rle_rec(toks, ml, base, 1, t0 as int, 1, 0));
    }
    while i < values.len()
        invariant
            1 <= bits < 16,
            base == base_e,
            base >= 0,
            ml == max_level,
            base == rle_base(bits as nat, ml),
            toks == unpack_seq(buf@, bits as nat),
            ex == rle_of(buf@, bits as nat, max_level as int),
            rle_wf(toks, ml),
            toks.len() == values@.len(),
            forall|k: int| 0 <= k < toks.len() ==> values@[k] as int == toks[k],
            forall|k: int| 0 <= k < values@.len() ==> values@[k] < pow2(bits as nat),
            ex == rle_expand(toks, ml, base),
            1 <= i <= values.len(),
            len >= 1,
            v as int <= ml,
            scale_ok ==> scale as int == pow(base, d),
            !scale_ok ==> pow(base, d) > usize::MAX,
            ex == done + rle_rec(toks, ml, base, i as int, v as int, len as int, d),
            dest@.len() == done.len(),
            forall|j: int| 0 <= j < dest@.len() ==> dest@[j] as int == done[j] % 256,
        decreases values.len() - i,
    {
        let t = values[i];
        let ghost rest0 = rle_rec(toks, ml, base, i as int, v as int, len as int, d);
        if (t as usize) > max_level {
            proof {
                assert(toks[i as int] < pow2(bits as nat));
                assert(base >= 1);
            }
            let mag = (t as usize) - max_level - 1;
            let ghost contribution = pow(base, d) * (toks[i as int] - ml - 1);
            let ghost len_next = len + contribution;
            assert(rle_rec(toks, ml, base, i as int + 1, v as int, len_next, (d + 1) as nat)
                == rest0);
            if mag == 0 {
                assert(contribution == 0) by (nonlinear_arith)
                    requires
                        contribution == pow(base, d) * (toks[i as int] - ml - 1),
                        toks[i as int] - ml - 1 == 0,
                ;
            } else {
                if !scale_ok {
                    proof {
                        assert(contribution >= pow(base, d)) by (nonlinear_arith)
                            requires
                                contribution == pow(base, d) * (toks[i as int] - ml - 1),
                                toks[i as int] - ml - 1 >= 1,
                                pow(base, d) >= 0,
                        ;
                        lemma_rle_rec_len_ge(
                            toks,
                            ml,
                            base,
                            i as int + 1,
                            v as int,
                            len_next,
                            (d + 1) as nat,
                        );
                    }
                    return Err(Grib2Error::DecodeMismatch);
                }
                let c = match scale.checked_mul(mag) {
                    Some(c) => c,
                    None => {
                        proof {
                            assert(contribution > usize::MAX) by (nonlinear_arith)
                                requires
                                    contribution == pow(base, d) * (toks[i as int] - ml - 1),
                                    pow(base, d) == scale as int,
                                    scale as int * (toks[i as int] - ml - 1) > usize::MAX,
                            ;
                            lemma_rle_rec_len_ge(
                                toks,
                                ml,
                                base,
                                i as int + 1,
                                v as int,
                                len_next,
                                (d + 1) as nat,
                            );
                        }
                        return Err(Grib2Error::DecodeMismatch);
                    },
                };
                assert(c as int == contribution);
                len = match len.checked_add(c) {
                    Some(l) => l,
                    None => {
                        proof {
                            lemma_rle_rec_len_ge(
                                toks,
                                ml,
                                base,
                                i as int + 1,
                                v as int,
                                len_next,
                                (d + 1) as nat,
                            );
                        }
                        return Err(Grib2Error::DecodeMismatch);
                    },
                };
            }
            // advance the digit position
            proof {
                vstd::arithmetic::power::lemma_pow_adds(base, d, 1);
                vstd::arithmetic::power::lemma_pow1(base);
            }
            if scale_ok {
                match scale.checked_mul(base_e) {
                    Some(s) => {
                        scale = s;
                        proof {
                            assert(s as int == pow(base, d) * base);
                        }
                    },
                    None => {
                        scale_ok = false;
                        proof {
                            assert(pow(base, (d + 1) as nat) > usize::MAX) by (nonlinear_arith)
                                requires
                                    pow(base, (d + 1) as nat) == pow(base, d) * base,
                                    pow(base, d) == scale as int,
                                    scale as int * base > usize::MAX,
                            ;
                        }
                    },
                }
            } else {
                proof {
                    assert(base >= 1);
                    assert(pow(base, (d + 1) as nat) >= pow(base, d)) by (nonlinear_arith)
                        requires
                            pow(base, (d + 1) as nat) == pow(base, d) * base,
                            base >= 1,
                            pow(base, d) >= 0,
                    ;
                    lemma_pow_nonneg(base, d);
                }
            }
            proof {
                d = (d + 1) as nat;
            }
        } else {
            // flush the pending run, then open a new one
            assert(rest0 == repeat_val(v as int, len as int) + rle_rec(
                toks,
                ml,
                base,
                i as int + 1,
                toks[i as int],
                1,
                0,
            ));
            let ghost dest0 = dest@;
            let ghost done0 = done;
            match dest.len().checked_add(len) {
                Some(_) => {},
                None => {
                    proof {
                        assert(ex.len() == done.len() + rest0.len());
                        assert(rest0.len() >= len);
                    }
                    return Err(Grib2Error::DecodeMismatch);
                },
            }
            let mut c: usize = 0;
            while c < len
                invariant
                    c <= len,
                    dest0.len() + len <= usize::MAX,
                    dest@.len() == dest0.len() + c,
                    forall|j: int| 0 <= j < dest0.len() ==> dest@[j] == dest0[j],
                    forall|j: int|
                        dest0.len() <= j < dest@.len() ==> dest@[j] as int == (v as int) % 256,
                decreases len - c,
            {
                proof {
                    assert((v as u8) as int == (v as int) % 256) by (bit_vector);
                }
                dest.push(#[verifier::truncate] (v as u8));
                c = c + 1;
            }
            proof {
                done = done0 + repeat_val(v as int, len as int);
                assert(done.len() == dest@.len());
                assert forall|j: int| 0 <= j < dest@.len() implies dest@[j] as int == done[j]
                    % 256 by {
                    assert(done0.len() == dest0.len());
                    if j < dest0.len() {
                        assert(dest@[j] == dest0[j]);
                        assert(done[j] == done0[j]);
                        assert(dest0[j] as int == done0[j] % 256);
                    } else {
                        assert(dest@[j] as int == (v as int) % 256);
                        assert(done[j] == v as int);
                    }
                }
                d = 0;
            }
            v = t;
            len = 1;
            scale = 1;
            scale_ok = true;
            proof {
                vstd::arithmetic::power::lemma_pow0(base);
                assert(ex =~= done + rle_rec(toks, ml, base, i as int + 1, toks[i as int], 1, 0));
            }
        }
        i = i + 1;
    }
    // flush the final run
    let ghost rest0 = rle_rec(toks, ml, base, i as int, v as int, len as int, d);
    assert(rest0 == repeat_val(v as int, len as int));
    let ghost dest0 = dest@;
    let ghost done0 = done;
    match dest.len().checked_add(len) {
        Some(_) => {},
        None => {
            proof {
                assert(ex.len() == done.len() + rest0.len());
                assert(rest0.len() >= len);
            }
            return Err(Grib2Error::DecodeMismatch);
        },
    }
    let mut c: usize = 0;
    while c < len
        invariant
            c <= len,
            dest0.len() + len <= usize::MAX,
            dest@.len() == dest0.len() + c,
            forall|j: int| 0 <= j < dest0.len() ==> dest@[j] == dest0[j],
            forall|j: int| dest0.len() <= j < dest@.len() ==> dest@[j] as int == (v as int) % 256,
        decreases len - c,
    {
        proof {
            assert((v as u8) as int == (v as int) % 256) by (bit_vector);
        }
        dest.push(#[verifier::truncate] (v as u8));
        c = c + 1;
    }
    let total = dest.len();
    proof {
        done = done0 + repeat_val(v as int, len as int);
        assert(ex =~= done);
        assert(ex.len() == total);
        assert forall|j: int| 0 <= j < dest@.len() implies dest@[j] as int == ex[j] % 256 by {
            assert(done0.len() == dest0.len());
            assert(ex[j] == done[j]);
            if j < dest0.len() {
                assert(dest@[j] == dest0[j]);
                assert(done[j] == done0[j]);
                assert(dest0[j] as int == done0[j] % 256);
            } else {
                assert(dest@[j] as int == (v as int) % 256);
                assert(done[j] == v as int);
            }
        }
    }
    Ok(dest)
}

} // verus!

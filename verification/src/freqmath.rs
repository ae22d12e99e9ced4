use vstd::prelude::*;
use vstd::arithmetic::div_mod::lemma_basic_div;
use vstd::arithmetic::div_mod::lemma_div_by_multiple;
use vstd::arithmetic::div_mod::lemma_div_is_ordered;
use vstd::arithmetic::div_mod::lemma_fundamental_div_mod_converse;
use vstd::arithmetic::div_mod::lemma_multiply_divide_lt;
use vstd::arithmetic::mul::lemma_mul_inequality;
use vstd::arithmetic::power2::lemma2_to64;
use vstd::arithmetic::power2::lemma2_to64_rest;
use vstd::arithmetic::power2::lemma_pow2_adds;
use vstd::arithmetic::power2::lemma_pow2_pos;
use vstd::arithmetic::power2::lemma_pow2_strictly_increases;
use vstd::arithmetic::power2::lemma_pow2_unfold;
use vstd::arithmetic::power2::pow2;
use crate::curve::FREQ_CLAMP_UHZ;
use crate::curve::MICRO;

verus! {

/// Fixed-point one for the octave table: the accumulator scale, 2^30.
pub const ACC_ONE: u64 = 1_073_741_824;

/// Largest value the octave-fraction accumulator ever reaches; it stays below
/// 2^31 because the product of all table entries is below 2 in real terms.
pub const ACC_MAX: u64 = 2_147_482_217;

/// Entry `k` of the octave table: 2^(2^-(k+1)) in 2^30 fixed point, rounded
/// to nearest. Multiplying the entries selected by the bits of a binary
/// octave fraction yields 2 raised to that fraction of an octave.
pub open spec fn octave_table(k: int) -> int {
    if k == 0 {
        1518500250
    } else if k == 1 {
        1276901417
    } else if k == 2 {
        1170923762
    } else if k == 3 {
        1121280436
    } else if k == 4 {
        1097253708
    } else if k == 5 {
        1085434106
    } else if k == 6 {
        1079572136
    } else if k == 7 {
        1076653033
    } else if k == 8 {
        1075196443
    } else if k == 9 {
        1074468888
    } else if k == 10 {
        1074105294
    } else if k == 11 {
        1073923544
    } else if k == 12 {
        1073832680
    } else if k == 13 {
        1073787251
    } else if k == 14 {
        1073764537
    } else if k == 15 {
        1073753181
    } else if k == 16 {
        1073747502
    } else if k == 17 {
        1073744663
    } else if k == 18 {
        1073743244
    } else {
        1073742534
    }
}

/// Running upper bound for the accumulator after the first `k` table steps:
/// the exact floor product of the first `k` entries, starting from 2^30.
pub open spec fn acc_cap(k: int) -> int {
    if k <= 0 {
        1073741824
    } else if k == 1 {
        1518500250
    } else if k == 2 {
        1805811301
    } else if k == 3 {
        1969251187
    } else if k == 4 {
        2056437385
    } else if k == 5 {
        2101467499
    } else if k == 6 {
        2124350979
    } else if k == 7 {
        2135885994
    } else if k == 8 {
        2141676967
    } else if k == 9 {
        2144578338
    } else if k == 10 {
        2146030498
    } else if k == 11 {
        2146756946
    } else if k == 12 {
        2147120263
    } else if k == 13 {
        2147301944
    } else if k == 14 {
        2147392790
    } else if k == 15 {
        2147438214
    } else if k == 16 {
        2147460927
    } else if k == 17 {
        2147472282
    } else if k == 18 {
        2147477959
    } else if k == 19 {
        2147480798
    } else {
        2147482217
    }
}

/// One walk over the binary digits of the octave fraction, most significant
/// digit first: `rem` is what is left of the fraction, `w` the weight of the
/// next digit, `acc` the product so far in 2^30 fixed point.
pub open spec fn frac_pow2_rec(rem: int, w: int, acc: int, k: int) -> int
    decreases 20 - k,
{
    if k >= 20 {
        acc
    } else {
        let acc2 = if rem / w >= 1 {
            acc * octave_table(k) / (ACC_ONE as int)
        } else {
            acc
        };
        frac_pow2_rec(rem % w, w / 2, acc2, k + 1)
    }
}

/// 2 raised to `b / 2^20` of an octave, in 2^30 fixed point, for
/// `b` in `[0, 2^20)`.
pub open spec fn spec_frac_pow2(b: int) -> int {
    frac_pow2_rec(b, 524288, ACC_ONE as int, 0)
}

fn octave_table_entry(k: u64) -> (c: u64)
    requires
        k < 20,
    ensures
        c == octave_table(k as int),
        1073741824 < c <= 1518500250,
{
    if k == 0 {
        1518500250
    } else if k == 1 {
        1276901417
    } else if k == 2 {
        1170923762
    } else if k == 3 {
        1121280436
    } else if k == 4 {
        1097253708
    } else if k == 5 {
        1085434106
    } else if k == 6 {
        1079572136
    } else if k == 7 {
        1076653033
    } else if k == 8 {
        1075196443
    } else if k == 9 {
        1074468888
    } else if k == 10 {
        1074105294
    } else if k == 11 {
        1073923544
    } else if k == 12 {
        1073832680
    } else if k == 13 {
        1073787251
    } else if k == 14 {
        1073764537
    } else if k == 15 {
        1073753181
    } else if k == 16 {
        1073747502
    } else if k == 17 {
        1073744663
    } else if k == 18 {
        1073743244
    } else {
        1073742534
    }
}

/// 2 raised to a binary fraction of an octave: `b` counts in 2^-20 octaves,
/// the result in 2^30 fixed point.
pub fn frac_pow2(b: u64) -> (acc: u64)
    requires
        b < 1048576,
    ensures
        acc == spec_frac_pow2(b as int),
        ACC_ONE <= acc <= ACC_MAX,
{
    let mut acc: u64 = ACC_ONE;
    let mut rem: u64 = b;
    let mut w: u64 = 524288;
    let mut k: u64 = 0;
    proof {
        lemma2_to64();
        assert(w as int == pow2(19));
    }
    while k < 20
        invariant
            k <= 20,
            spec_frac_pow2(b as int) == frac_pow2_rec(rem as int, w as int, acc as int, k as int),
            k < 20 ==> w as int == pow2((19 - k) as nat),
            k < 20 ==> (rem as int) < 2 * (w as int),
            ACC_ONE as int <= acc as int <= acc_cap(k as int),
        decreases 20 - k,
    {
        let c = octave_table_entry(k);
        let ghost acc_in: int = acc as int;
        let digit = rem / w;
        if digit >= 1 {
            proof {
                assert((acc as int) * (c as int) <= acc_cap(k as int) * (c as int)) by {
                    lemma_mul_inequality(acc as int, acc_cap(k as int), c as int);
                };
                lemma_div_is_ordered(
                    (acc as int) * (c as int),
                    acc_cap(k as int) * (c as int),
                    ACC_ONE as int,
                );
                assert(acc_cap(k as int) * (c as int) / (ACC_ONE as int) == acc_cap(
                    k as int + 1,
                ));
                assert((ACC_ONE as int) * (acc as int) <= (c as int) * (acc as int)) by {
                    lemma_mul_inequality(ACC_ONE as int, c as int, acc as int);
                };
                lemma_div_is_ordered(
                    (acc as int) * (ACC_ONE as int),
                    (acc as int) * (c as int),
                    ACC_ONE as int,
                );
                lemma_div_by_multiple(acc as int, ACC_ONE as int);
            }
            acc = (acc * c) / ACC_ONE;
        }
        proof {
            assert(acc_cap(k as int) <= acc_cap(k as int + 1));
            if k < 19 {
                lemma_pow2_unfold((19 - k) as nat);
                assert(pow2((19 - k) as nat) / 2 == pow2((19 - (k + 1)) as nat));
            }
            let d = (rem as int) / (w as int);
            assert(d >= 1 <==> digit >= 1);
            assert(frac_pow2_rec(rem as int, w as int, acc_in, k as int) == frac_pow2_rec(
                (rem as int) % (w as int),
                (w as int) / 2,
                acc as int,
                k as int + 1,
            ));
        }
        rem = rem % w;
        w = w / 2;
        k = k + 1;
    }
    acc
}

/// A frequency swept by a signed number of octaves, clamped to the audible
/// ceiling: `freq * 2^(exp / MICRO)` where `freq` counts in microhertz and
/// `exp` in micro-octaves, the result clamped to `[0, FREQ_CLAMP_UHZ]`.
/// Division is euclidean, so the octave fraction is always in `[0, 1)`.
pub open spec fn spec_scale_pow2(freq: int, exp: int) -> int {
    if freq <= 0 {
        0
    } else {
        let n = exp / (MICRO as int);
        let r = exp % (MICRO as int);
        let b = r * 1048576 / (MICRO as int);
        let base = freq * spec_frac_pow2(b) / (ACC_ONE as int);
        let v = if n >= 0 {
            base * pow2(n as nat)
        } else {
            base / pow2((-n) as nat) as int
        };
        if v > FREQ_CLAMP_UHZ as int {
            FREQ_CLAMP_UHZ as int
        } else {
            v
        }
    }
}

fn pow2_u128(e: u64) -> (r: u128)
    requires
        e <= 127,
    ensures
        r as int == pow2(e as nat),
{
    let mut r: u128 = 1;
    let mut i: u64 = 0;
    proof {
        lemma2_to64();
    }
    while i < e
        invariant
            i <= e,
            e <= 127,
            r as int == pow2(i as nat),
        decreases e - i,
    {
        proof {
            lemma2_to64();
            lemma_pow2_adds(i as nat, 1);
            lemma_pow2_adds(64, 64);
            lemma_pow2_strictly_increases((i + 1) as nat, 128);
        }
        r = r * 2;
        i = i + 1;
    }
    r
}

/// Sweep `freq_uhz` (microhertz) by `exp_uoct` micro-octaves and clamp the
/// result to the audible ceiling of 20000 Hz.
pub fn scale_pow2(freq_uhz: u64, exp_uoct: i64) -> (r: u64)
    ensures
        r as int == spec_scale_pow2(freq_uhz as int, exp_uoct as int),
        r <= FREQ_CLAMP_UHZ,
{
    if freq_uhz == 0 {
        return 0;
    }
    let neg = exp_uoct < 0;
    let mag: u64 = if exp_uoct >= 0 {
        exp_uoct as u64
    } else {
        ((-(exp_uoct + 1)) as u64) + 1
    };
    proof {
        assert(mag as int == if exp_uoct >= 0 {
            exp_uoct as int
        } else {
            -(exp_uoct as int)
        });
    }
    let q = mag / 1_000_000;
    let rm = mag % 1_000_000;
    let n_neg: bool = neg && (q > 0 || rm > 0);
    let n_mag: u64 = if !neg {
        q
    } else if rm == 0 {
        q
    } else {
        q + 1
    };
    let rfrac: u64 = if !neg {
        rm
    } else if rm == 0 {
        0
    } else {
        1_000_000 - rm
    };
    proof {
        let e = exp_uoct as int;
        let m = MICRO as int;
        if !neg {
            lemma_fundamental_div_mod_converse(e, m, n_mag as int, rfrac as int);
        } else if rm == 0 {
            lemma_fundamental_div_mod_converse(e, m, -(n_mag as int), 0);
        } else {
            lemma_fundamental_div_mod_converse(e, m, -(n_mag as int), rfrac as int);
        }
        assert(e / m == if neg {
            -(n_mag as int)
        } else {
            n_mag as int
        });
        assert(e % m == rfrac as int);
    }
    let b = rfrac * 1048576 / 1_000_000;
    proof {
        lemma_multiply_divide_lt((rfrac * 1048576) as int, 1_000_000, 1048576);
    }
    let frac = frac_pow2(b);
    let ghost fi: int = freq_uhz as int;
    let ghost fr: int = frac as int;
    proof {
        // the unshifted product is at least one and at most twice the input
        assert(fr <= fi * fr && fi * fr <= fi * 2147483648) by (nonlinear_arith)
            requires
                1 <= fi,
                1073741824 <= fr <= 2147483647,
        ;
        assert(fi * 2147483648 <= 0xFFFFFFFFFFFFFFFF * 2147483648);
    }
    let wide: u128 = (freq_uhz as u128) * (frac as u128);
    let base: u128 = wide / (ACC_ONE as u128);
    proof {
        assert(wide as int == fi * fr);
        lemma_div_is_ordered(ACC_ONE as int, wide as int, ACC_ONE as int);
        lemma_div_by_multiple(1, ACC_ONE as int);
        assert(base as int >= 1);
        lemma_div_is_ordered(wide as int, fi * 2147483648, ACC_ONE as int);
        assert(fi * 2147483648 == (2 * fi) * (ACC_ONE as int));
        lemma_div_by_multiple(2 * fi, ACC_ONE as int);
        assert(base as int <= 2 * fi);
        lemma2_to64();
        lemma_pow2_adds(64, 2);
        assert((base as int) < pow2(66) as int);
    }
    if !n_neg {
        let ghost n = n_mag as nat;
        if base >= FREQ_CLAMP_UHZ as u128 {
            proof {
                lemma_pow2_pos(n);
                let p2 = pow2(n) as int;
                assert((base as int) <= (base as int) * p2) by (nonlinear_arith)
                    requires
                        (base as int) >= 0,
                        p2 >= 1,
                ;
            }
            return FREQ_CLAMP_UHZ;
        }
        if n_mag >= 35 {
            proof {
                lemma2_to64_rest();
                if n > 35 {
                    lemma_pow2_strictly_increases(35, n);
                }
                let p2 = pow2(n) as int;
                assert(p2 <= (base as int) * p2) by (nonlinear_arith)
                    requires
                        (base as int) >= 1,
                        p2 >= 0,
                ;
            }
            return FREQ_CLAMP_UHZ;
        }
        let p = pow2_u128(n_mag);
        proof {
            lemma2_to64_rest();
            lemma_pow2_strictly_increases(n, 35);
            assert((base as int) * (p as int) <= 20_000_000_000 * 34359738368) by (
            nonlinear_arith)
                requires
                    0 <= (base as int) <= 20_000_000_000,
                    0 <= (p as int) <= 34359738368,
            ;
        }
        let v = base * p;
        if v > FREQ_CLAMP_UHZ as u128 {
            return FREQ_CLAMP_UHZ;
        }
        return v as u64;
    } else {
        if n_mag >= 66 {
            proof {
                if n_mag > 66 {
                    lemma_pow2_strictly_increases(66, n_mag as nat);
                }
                lemma_basic_div(base as int, pow2(n_mag as nat) as int);
            }
            return 0;
        }
        let p = pow2_u128(n_mag);
        proof {
            lemma_pow2_pos(n_mag as nat);
        }
        let v = base / p;
        if v > FREQ_CLAMP_UHZ as u128 {
            return FREQ_CLAMP_UHZ;
        }
        return v as u64;
    }
}

} // verus!

//! Fixed-point scale constants and small arithmetic helpers.

use vstd::prelude::*;

verus! {

/// Largest magnitude a fixed-point position coordinate may take.
pub const POS_LIMIT: i64 = 1_000_000_000;

/// Widest dividend magnitude `div_floor` accepts.
pub const DIV_LIMIT: i64 = 4_000_000_000_000;

/// Floor division by a positive divisor, matching mathematical (Euclidean)
/// division also for negative dividends.
pub fn div_floor(v: i64, d: i64) -> (r: i64)
    requires
        d > 0,
        -DIV_LIMIT <= v <= DIV_LIMIT,
    ensures
        r == v as int / d as int,
        v >= 0 ==> 0 <= r <= v,
        v < 0 ==> v <= r <= 0,
{
    proof {
        vstd::arithmetic::div_mod::lemma_fundamental_div_mod(v as int, d as int);
        let q = v as int / d as int;
        let r0 = v as int % d as int;
        if v >= 0 {
            assert(0 <= q <= v) by (nonlinear_arith)
                requires
                    v == d * q + r0 && 0 <= r0 < d && v >= 0 && d >= 1,
            ;
        } else {
            assert(v <= q <= 0) by (nonlinear_arith)
                requires
                    v == d * q + r0 && 0 <= r0 < d && v < 0 && d >= 1,
            ;
        }
    }
    if v >= 0 {
        v / d
    } else {
        let m = -v;
        let q = m / d;
        proof {
            vstd::arithmetic::div_mod::lemma_fundamental_div_mod(m as int, d as int);
            let r0 = m as int % d as int;
            assert(m == d * (q as int) + r0);
            assert((q as int) * d == m - r0) by (nonlinear_arith)
                requires
                    m == d * (q as int) + r0,
            ;
            if r0 == 0 {
                assert(v == (-(q as int)) * d + 0) by (nonlinear_arith)
                    requires
                        v == -m && m == d * (q as int) + 0,
                ;
                vstd::arithmetic::div_mod::lemma_fundamental_div_mod_converse(
                    v as int,
                    d as int,
                    -(q as int),
                    0,
                );
            } else {
                assert(v == (-(q as int) - 1) * d + (d - r0)) by (nonlinear_arith)
                    requires
                        v == -m && m == d * (q as int) + r0,
                ;
                vstd::arithmetic::div_mod::lemma_fundamental_div_mod_converse(
                    v as int,
                    d as int,
                    -(q as int) - 1,
                    d - r0,
                );
            }
        }
        if q * d == m {
            -q
        } else {
            -q - 1
        }
    }
}

} // verus!

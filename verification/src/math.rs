//! Integer (floor) square root: specification, supporting lemmas, and the
//! binary digit-by-digit implementation used to seed an empty pool.

use vstd::prelude::*;

verus! {

use vstd::arithmetic::power2::{
    pow2,
    lemma2_to64,
    lemma2_to64_rest,
    lemma_pow2_adds,
    lemma_pow2_pos,
    lemma_pow2_strictly_increases,
};

/// Floor of the square root of `n`, defined by recursion on the radicand:
/// the root grows by one exactly when the next perfect square is reached.
pub open spec fn isqrt_spec(n: int) -> int
    decreases n,
{
    if n <= 0 {
        0
    } else {
        let r = isqrt_spec(n - 1);
        if (r + 1) * (r + 1) <= n {
            r + 1
        } else {
            r
        }
    }
}

/// The defining property of the floor square root:
/// `isqrt_spec(n)` squared is at most `n`, and the next square exceeds `n`.
pub proof fn lemma_isqrt_bounds(n: int)
    requires
        n >= 0,
    ensures
        isqrt_spec(n) >= 0,
        isqrt_spec(n) * isqrt_spec(n) <= n,
        n < (isqrt_spec(n) + 1) * (isqrt_spec(n) + 1),
    decreases n,
{
    if n == 0 {
    } else {
        lemma_isqrt_bounds(n - 1);
        let r = isqrt_spec(n - 1);
        if (r + 1) * (r + 1) <= n {
            assert((r + 2) * (r + 2) > (r + 1) * (r + 1)) by (nonlinear_arith)
                requires
                    r >= 0,
            ;
        }
    }
}

/// Any `r` satisfying the floor-square-root bounds for `n` is `isqrt_spec(n)`.
pub proof fn lemma_isqrt_unique(n: int, r: int)
    requires
        n >= 0,
        r >= 0,
        r * r <= n,
        n < (r + 1) * (r + 1),
    ensures
        r == isqrt_spec(n),
{
    lemma_isqrt_bounds(n);
    let s = isqrt_spec(n);
    if r < s {
        assert((r + 1) * (r + 1) <= s * s) by (nonlinear_arith)
            requires
                0 <= r,
                r + 1 <= s,
        ;
    }
    if s < r {
        assert((s + 1) * (s + 1) <= r * r) by (nonlinear_arith)
            requires
                0 <= s,
                s + 1 <= r,
        ;
    }
}

/// A radicand no larger than `u64::MAX` squared has a root that fits in a `u64`.
pub proof fn lemma_isqrt_fits_u64(n: int)
    requires
        0 <= n <= (u64::MAX as int) * (u64::MAX as int),
    ensures
        0 <= isqrt_spec(n) <= u64::MAX as int,
{
    lemma_isqrt_bounds(n);
    let r = isqrt_spec(n);
    if r > u64::MAX as int {
        assert((u64::MAX as int + 1) * (u64::MAX as int + 1) <= r * r) by (nonlinear_arith)
            requires
                u64::MAX as int + 1 <= r,
        ;
        assert((u64::MAX as int) * (u64::MAX as int) < (u64::MAX as int + 1) * (u64::MAX as int + 1))
            by (nonlinear_arith);
    }
}

/// Trial-bit scale used by the digit-by-digit square root: while a trial bit
/// is live the accumulator and remainder are scaled by four times the bit;
/// once the bit is exhausted the scale collapses to one.
pub open spec fn scale_of(bit: int) -> int {
    if bit == 0 {
        1
    } else {
        4 * bit
    }
}

/// Concrete powers of two at the `u128` boundary.
proof fn lemma_pow2_128()
    ensures
        pow2(126) == 0x40000000000000000000000000000000,
        pow2(128) == 0x100000000000000000000000000000000,
{
    lemma2_to64();
    lemma2_to64_rest();
    lemma_pow2_adds(64, 62);
    lemma_pow2_adds(64, 64);
}

/// Integer (floor) square root of `radicand`, by the binary digit-by-digit
/// method: the trial bit starts at the largest power of four not exceeding
/// the radicand and is halved two bits at a time, the result accumulating
/// through conditional subtraction.  No intermediate addition can overflow,
/// so the root is always returned.
pub fn sqrt(radicand: u128) -> (root: Option<u128>)
    ensures
        root == Some((isqrt_spec(radicand as int) as u128)),
        isqrt_spec(radicand as int) * isqrt_spec(radicand as int) <= radicand as int,
        (radicand as int) < (isqrt_spec(radicand as int) + 1) * (isqrt_spec(radicand as int) + 1),
{
    proof {
        lemma_isqrt_bounds(radicand as int);
    }
    if radicand == 0 {
        return Some(0);
    }
    // Largest power of four that does not exceed the radicand.
    let mut bit: u128 = 1;
    let ghost mut k: nat = 0;
    proof {
        lemma2_to64();
    }
    while bit <= radicand / 4
        invariant
            radicand >= 1,
            1 <= bit <= radicand,
            bit == pow2(2 * k),
            k <= 63,
        decreases radicand - bit,
    {
        proof {
            lemma_pow2_128();
            if k == 63 {
                assert(radicand >= 4 * bit);
                assert(false);
            }
            lemma_pow2_adds(2 * k, 2);
            assert(pow2(2) == 4) by {
                lemma2_to64();
            }
            k = k + 1;
        }
        bit = bit * 4;
    }
    assert((radicand as int) < 4 * (bit as int));

    let mut n: u128 = radicand;
    let mut result: u128 = 0;
    let ghost mut p: int = 0;
    proof {
        assert((bit as int) * 4 == pow2(2 * k + 2)) by {
            lemma_pow2_adds(2 * k, 2);
            lemma2_to64();
        }
        assert(pow2(2 * k + 2) <= pow2(128)) by {
            lemma_pow2_128();
            if 2 * k + 2 < 128 {
                lemma_pow2_strictly_increases(2 * k + 2, 128);
            }
        }
        assert((0 + 1) * (0 + 1) * scale_of(bit as int) == 4 * (bit as int)) by (nonlinear_arith)
            requires
                bit >= 1,
        ;
    }
    while bit != 0
        invariant
            radicand >= 1,
            p >= 0,
            bit != 0 ==> bit == pow2(2 * k),
            result == p * scale_of(bit as int),
            n + p * p * scale_of(bit as int) == radicand as int,
            (radicand as int) < (p + 1) * (p + 1) * scale_of(bit as int),
            (p + 1) * (p + 1) * scale_of(bit as int) <= pow2(128),
        decreases bit,
    {
        let ghost pp: int = p;
        let ghost ob: int = bit as int;
        let ghost n0: int = n as int;
        let ghost r0: int = result as int;
        proof {
            lemma_pow2_128();
            assert(r0 + ob == (4 * pp + 1) * ob && (4 * pp + 1) * ob < (pp + 1) * (pp + 1) * (4
                * ob) && r0 / 2 == 2 * pp * ob) by (nonlinear_arith)
                requires
                    pp >= 0,
                    ob >= 1,
                    r0 == pp * (4 * ob),
            ;
        }
        let result_with_bit: u128 = result + bit;
        if n >= result_with_bit {
            n = n - result_with_bit;
            result = result / 2 + bit;
            proof {
                p = 2 * pp + 1;
                assert(result == p * ob && n + p * p * ob == radicand as int && (radicand as int)
                    < (p + 1) * (p + 1) * ob && (p + 1) * (p + 1) * ob <= pow2(128))
                    by (nonlinear_arith)
                    requires
                        pp >= 0,
                        ob >= 1,
                        p == 2 * pp + 1,
                        r0 == pp * (4 * ob),
                        result == r0 / 2 + ob,
                        n == n0 - (r0 + ob),
                        n0 + pp * pp * (4 * ob) == radicand as int,
                        (radicand as int) < (pp + 1) * (pp + 1) * (4 * ob),
                        (pp + 1) * (pp + 1) * (4 * ob) <= pow2(128),
                ;
            }
        } else {
            result = result / 2;
            proof {
                p = 2 * pp;
                assert(result == p * ob && n + p * p * ob == radicand as int && (radicand as int)
                    < (p + 1) * (p + 1) * ob && (p + 1) * (p + 1) * ob <= pow2(128))
                    by (nonlinear_arith)
                    requires
                        pp >= 0,
                        ob >= 1,
                        p == 2 * pp,
                        r0 == pp * (4 * ob),
                        result == r0 / 2,
                        n == n0,
                        n0 < r0 + ob,
                        n0 + pp * pp * (4 * ob) == radicand as int,
                        (pp + 1) * (pp + 1) * (4 * ob) <= pow2(128),
                ;
            }
        }
        proof {
            if bit > 1 {
                if k == 0 {
                    assert(bit == pow2(0));
                    assert(false) by {
                        lemma2_to64();
                    }
                }
                assert(bit == 4 * pow2((2 * ((k - 1) as nat)) as nat)) by {
                    lemma_pow2_adds((2 * ((k - 1) as nat)) as nat, 2);
                    lemma2_to64();
                }
                k = (k - 1) as nat;
            }
        }
        let ghost obit: u128 = bit;
        bit = bit / 4;
        proof {
            if obit > 1 {
                assert(bit == pow2(2 * k));
                assert(bit >= 1) by {
                    lemma_pow2_pos(2 * k);
                }
                assert(scale_of(bit as int) == ob);
            } else {
                assert(bit == 0);
                assert(scale_of(bit as int) == 1);
                assert(ob == 1);
            }
        }
    }
    proof {
        assert(result == p && n + p * p == radicand as int && (radicand as int) < (p + 1) * (p
            + 1));
        assert(p * p <= radicand as int);
        lemma_isqrt_unique(radicand as int, p);
    }
    Some(result)
}

/// A positive radicand has a positive floor square root.
pub proof fn lemma_isqrt_pos(n: int)
    requires
        n >= 1,
    ensures
        isqrt_spec(n) >= 1,
{
    lemma_isqrt_bounds(n);
    let r = isqrt_spec(n);
    if r == 0 {
        assert(false) by (nonlinear_arith)
            requires
                r == 0,
                n < (r + 1) * (r + 1),
                n >= 1,
        ;
    }
}

} // verus!

//! Fixed-point integer arithmetic: truncating scaled multiply-divide and
//! integer square roots, the primitives the motion and collision code builds
//! on.

use vstd::arithmetic::div_mod::lemma_fundamental_div_mod;
use vstd::prelude::*;

verus! {

/// Absolute value of a mathematical integer.
pub open spec fn iabs(x: int) -> int {
    if x >= 0 {
        x
    } else {
        -x
    }
}

/// Division rounding toward zero, the behaviour of machine division.
pub open spec fn tdiv(p: int, q: int) -> int
    recommends
        q != 0,
{
    if (p >= 0) == (q >= 0) {
        iabs(p) / iabs(q)
    } else {
        -(iabs(p) / iabs(q))
    }
}

/// `a * b / c` in exact integer arithmetic, rounded toward zero.
pub open spec fn muldiv(a: int, b: int, c: int) -> int
    recommends
        c != 0,
{
    tdiv(a * b, c)
}

/// `a / b <= k` whenever `a <= k * b` (all quantities non-negative).
pub proof fn lemma_div_le_k(a: int, b: int, k: int)
    requires
        a >= 0,
        b >= 1,
        a <= k * b,
    ensures
        a / b <= k,
{
    lemma_fundamental_div_mod(a, b);
    assert((a / b) * b <= k * b ==> a / b <= k) by (nonlinear_arith)
        requires
            b >= 1,
    ;
}

/// Division of non-negative numbers never goes below zero.
pub proof fn lemma_div_nonneg(a: int, b: int)
    requires
        a >= 0,
        b >= 1,
    ensures
        a / b >= 0,
{
    lemma_fundamental_div_mod(a, b);
    assert((a / b) * b >= 0 && b >= 1 ==> a / b >= 0) by (nonlinear_arith);
}

/// Zero divided by anything positive is zero.
pub proof fn lemma_zero_div(c: int)
    requires
        c >= 1,
    ensures
        0int / c == 0,
{
    lemma_div_nonneg(0, c);
    lemma_div_le_k(0, c, 0);
}

/// A quotient of something at least as large as the divisor is at least one.
pub proof fn lemma_div_ge_one(x: int, c: int)
    requires
        c >= 1,
        x >= c,
    ensures
        x / c >= 1,
{
    lemma_fundamental_div_mod(x, c);
    assert(x == c * (x / c) + x % c && 0 <= x % c < c && x >= c ==> x / c >= 1)
        by (nonlinear_arith)
        requires
            c >= 1,
    ;
}

/// Dividing an exact multiple gives back the factor.
pub proof fn lemma_mul_div_exact(k: int, d: int)
    requires
        d >= 1,
    ensures
        (k * d) / d == k,
{
    lemma_fundamental_div_mod(k * d, d);
    assert(d * ((k * d) / d) + (k * d) % d == k * d && 0 <= (k * d) % d < d ==> (k * d) / d == k)
        by (nonlinear_arith)
        requires
            d >= 1,
    ;
}

/// `a * b / c` scales like its arguments: the magnitude of the result is at
/// most `m * b / c` once `iabs(a) <= m`.
pub proof fn lemma_muldiv_mag(a: int, b: int, c: int, m: int)
    requires
        b >= 0,
        c >= 1,
        iabs(a) <= m,
    ensures
        iabs(muldiv(a, b, c)) <= m * b / c,
        iabs(muldiv(a, b, c)) == iabs(a) * b / c,
{
    assert(iabs(a * b) == iabs(a) * b) by (nonlinear_arith)
        requires
            b >= 0,
    ;
    assert(iabs(a) * b <= m * b) by (nonlinear_arith)
        requires
            b >= 0,
            iabs(a) <= m,
    ;
    lemma_div_nonneg(iabs(a) * b, c);
    assert(iabs(a) * b / c <= m * b / c) by {
        lemma_fundamental_div_mod(iabs(a) * b, c);
        lemma_fundamental_div_mod(m * b, c);
        assert((iabs(a) * b / c) * c <= (m * b / c) * c + c - 1 ==> iabs(a) * b / c <= m * b / c)
            by (nonlinear_arith)
            requires
                c >= 1,
        ;
    }
}

/// The scaled product `a * b / c` is no larger in magnitude than `a * b`.
pub proof fn lemma_muldiv_le_prod(a: int, b: int, c: int)
    requires
        b >= 0,
        c >= 1,
    ensures
        iabs(muldiv(a, b, c)) <= iabs(a) * b,
{
    lemma_muldiv_mag(a, b, c, iabs(a));
    assert(iabs(a) * b >= 0 && iabs(a) * b <= iabs(a) * b * c) by (nonlinear_arith)
        requires
            c >= 1,
            b >= 0,
            iabs(a) >= 0,
    ;
    lemma_div_le_k(iabs(a) * b, c, iabs(a) * b);
}

/// Scaling by a ratio of at most one never grows the magnitude.
pub proof fn lemma_muldiv_le_first(a: int, b: int, c: int)
    requires
        0 <= b <= c,
        c >= 1,
    ensures
        iabs(muldiv(a, b, c)) <= iabs(a),
{
    lemma_muldiv_mag(a, b, c, iabs(a));
    assert(iabs(a) * b <= iabs(a) * c) by (nonlinear_arith)
        requires
            0 <= b <= c,
            iabs(a) >= 0,
    ;
    assert(iabs(a) * b >= 0) by (nonlinear_arith)
        requires
            b >= 0,
            iabs(a) >= 0,
    ;
    lemma_div_le_k(iabs(a) * b, c, iabs(a));
}

/// A fraction of the whole, scaled into thousandths, lies in `[0, 1000]`.
pub proof fn lemma_ratio_milli(a: int, b: int)
    requires
        0 <= a <= b,
        b >= 1,
    ensures
        0 <= muldiv(a, 1000, b) <= 1000,
{
    assert(a * 1000 >= 0 && a * 1000 <= 1000 * b) by (nonlinear_arith)
        requires
            0 <= a <= b,
    ;
    lemma_div_nonneg(a * 1000, b);
    lemma_div_le_k(a * 1000, b, 1000);
}

/// Computes `a * b / c` rounded toward zero, exactly, through 128-bit
/// intermediates.
pub fn mul_div(a: i64, b: i64, c: i64) -> (r: i64)
    requires
        c != 0,
        iabs(muldiv(a as int, b as int, c as int)) <= i64::MAX,
    ensures
        r == muldiv(a as int, b as int, c as int),
{
    let an: bool = a < 0;
    let bn: bool = b < 0;
    let cn: bool = c < 0;
    let aa: u128 = if an {
        (-(a as i128)) as u128
    } else {
        a as u128
    };
    let bb: u128 = if bn {
        (-(b as i128)) as u128
    } else {
        b as u128
    };
    let cc: u128 = if cn {
        (-(c as i128)) as u128
    } else {
        c as u128
    };
    assert(aa == iabs(a as int) && bb == iabs(b as int) && cc == iabs(c as int));
    assert(aa * bb <= u128::MAX) by (nonlinear_arith)
        requires
            aa <= i64::MAX as u128 + 1,
            bb <= i64::MAX as u128 + 1,
    ;
    let prod: u128 = aa * bb;
    assert(prod == iabs((a as int) * (b as int))) by (nonlinear_arith)
        requires
            prod == iabs(a as int) * iabs(b as int),
    ;
    let q: u128 = prod / cc;
    proof {
        lemma_div_nonneg(prod as int, cc as int);
        let p = (a as int) * (b as int);
        assert(q == iabs(p) / iabs(c as int));
        if a == 0 || b == 0 {
            assert(p == 0) by (nonlinear_arith)
                requires
                    p == (a as int) * (b as int),
                    a == 0 || b == 0,
            ;
            lemma_div_le_k(0, iabs(c as int), 0);
            assert(q == 0);
        } else {
            assert((p > 0) == (an == bn) && p != 0) by (nonlinear_arith)
                requires
                    p == (a as int) * (b as int),
                    a != 0,
                    b != 0,
                    an == (a < 0),
                    bn == (b < 0),
            ;
        }
        assert(q == iabs(muldiv(a as int, b as int, c as int)));
        assert(q <= i64::MAX as u128);
    }
    if (an != bn) != cn {
        -((q as i128) as i64)
    } else {
        q as i64
    }
}

/// Computes the Euclidean remainder `v % c` for a positive modulus: the
/// result always lies in `[0, c)`, also for negative `v`.
pub fn emod(v: i64, c: i64) -> (r: i64)
    requires
        1 <= c,
        iabs(v as int) <= i64::MAX,
    ensures
        r == (v as int) % (c as int),
        0 <= r < c,
{
    if v >= 0 {
        v % c
    } else {
        let m: i64 = (-v) % c;
        proof {
            let d = (-(v as int)) / (c as int);
            lemma_fundamental_div_mod(-(v as int), c as int);
            if m == 0 {
                assert(v as int == (-d) * (c as int) + 0) by (nonlinear_arith)
                    requires
                        -(v as int) == (c as int) * d,
                ;
                vstd::arithmetic::div_mod::lemma_fundamental_div_mod_converse(
                    v as int,
                    c as int,
                    -d,
                    0,
                );
            } else {
                assert(v as int == (-d - 1) * (c as int) + ((c as int) - m)) by (nonlinear_arith)
                    requires
                        -(v as int) == (c as int) * d + m,
                ;
                vstd::arithmetic::div_mod::lemma_fundamental_div_mod_converse(
                    v as int,
                    c as int,
                    -d - 1,
                    c - m,
                );
            }
        }
        if m == 0 {
            0
        } else {
            c - m
        }
    }
}

/// Computes `a * b / c` rounded toward zero into a 128-bit result, for
/// quotients that may not fit a machine word.
pub fn mul_div_wide(a: i64, b: i64, c: i64) -> (r: i128)
    requires
        c != 0,
    ensures
        r == muldiv(a as int, b as int, c as int),
        iabs(r as int) <= 0x4000_0000_0000_0000_0000_0000_0000_0000,
{
    let an: bool = a < 0;
    let bn: bool = b < 0;
    let cn: bool = c < 0;
    let aa: u128 = if an {
        (-(a as i128)) as u128
    } else {
        a as u128
    };
    let bb: u128 = if bn {
        (-(b as i128)) as u128
    } else {
        b as u128
    };
    let cc: u128 = if cn {
        (-(c as i128)) as u128
    } else {
        c as u128
    };
    assert(aa == iabs(a as int) && bb == iabs(b as int) && cc == iabs(c as int));
    assert(aa * bb <= 0x4000_0000_0000_0000_0000_0000_0000_0000) by (nonlinear_arith)
        requires
            aa <= i64::MAX as u128 + 1,
            bb <= i64::MAX as u128 + 1,
    ;
    let prod: u128 = aa * bb;
    assert(prod == iabs((a as int) * (b as int))) by (nonlinear_arith)
        requires
            prod == iabs(a as int) * iabs(b as int),
    ;
    let q: u128 = prod / cc;
    proof {
        lemma_div_nonneg(prod as int, cc as int);
        assert(prod <= prod * cc) by (nonlinear_arith)
            requires
                cc >= 1,
        ;
        lemma_div_le_k(prod as int, cc as int, prod as int);
        let p = (a as int) * (b as int);
        assert(q == iabs(p) / iabs(c as int));
        if a == 0 || b == 0 {
            assert(p == 0) by (nonlinear_arith)
                requires
                    p == (a as int) * (b as int),
                    a == 0 || b == 0,
            ;
            lemma_div_le_k(0, iabs(c as int), 0);
            assert(q == 0);
        } else {
            assert((p > 0) == (an == bn) && p != 0) by (nonlinear_arith)
                requires
                    p == (a as int) * (b as int),
                    a != 0,
                    b != 0,
                    an == (a < 0),
                    bn == (b < 0),
            ;
        }
    }
    if (an != bn) != cn {
        -(q as i128)
    } else {
        q as i128
    }
}

/// `r` is the integer square root of `s`, rounded down.
pub open spec fn is_sqrt_floor(s: int, r: int) -> bool {
    0 <= r && r * r <= s && s < (r + 1) * (r + 1)
}

/// The integer square root of `s`, rounded down.
pub open spec fn sqrt_floor_of(s: int) -> int {
    choose|r: int| is_sqrt_floor(s, r)
}

/// Every non-negative integer has a rounded-down square root, and
/// `sqrt_floor_of` denotes it.
pub proof fn lemma_sqrt_floor_exists(s: int)
    requires
        s >= 0,
    ensures
        is_sqrt_floor(s, sqrt_floor_of(s)),
    decreases s,
{
    if s == 0 {
        assert(is_sqrt_floor(0, 0));
    } else {
        lemma_sqrt_floor_exists(s - 1);
        let r = sqrt_floor_of(s - 1);
        if (r + 1) * (r + 1) <= s {
            assert((r + 1) * (r + 1) < (r + 2) * (r + 2)) by (nonlinear_arith)
                requires
                    r >= 0,
            ;
            assert(is_sqrt_floor(s, r + 1));
        } else {
            assert(is_sqrt_floor(s, r));
        }
    }
    assert(exists|r: int| is_sqrt_floor(s, r));
}

/// Two rounded-down square roots of the same number are equal.
pub proof fn lemma_sqrt_floor_unique(s: int, r1: int, r2: int)
    by (nonlinear_arith)
    requires
        is_sqrt_floor(s, r1),
        is_sqrt_floor(s, r2),
    ensures
        r1 == r2,
{
}

/// Any number whose square is at most `s` is bounded by the rounded-down
/// square root of `s`.
pub proof fn lemma_sqrt_floor_dominates(s: int, r: int, x: int)
    by (nonlinear_arith)
    requires
        is_sqrt_floor(s, r),
        x * x <= s,
    ensures
        iabs(x) <= r,
{
}

/// Computes the integer square root of `s`, rounded down, by binary search.
pub fn sqrt_floor(s: u128) -> (r: u64)
    requires
        s < 0x1_0000_0000_0000_0000_0000_0000_0000,
    ensures
        r == sqrt_floor_of(s as int),
        is_sqrt_floor(s as int, r as int),
{
    let mut lo: u64 = 0;
    let mut hi: u64 = 0x200_0000_0000_0000;
    assert((hi as int) * (hi as int) == 0x4_0000_0000_0000_0000_0000_0000_0000);
    while lo + 1 < hi
        invariant
            lo < hi,
            hi <= 0x200_0000_0000_0000,
            (lo as int) * (lo as int) <= s as int,
            (s as int) < (hi as int) * (hi as int),
        decreases hi - lo,
    {
        let mid: u64 = lo + (hi - lo) / 2;
        assert(lo < mid < hi);
        assert((mid as u128) * (mid as u128) <= u128::MAX) by (nonlinear_arith)
            requires
                mid <= 0x200_0000_0000_0000u64,
        ;
        let sq: u128 = (mid as u128) * (mid as u128);
        if sq <= s {
            lo = mid;
        } else {
            hi = mid;
        }
    }
    proof {
        lemma_sqrt_floor_exists(s as int);
        lemma_sqrt_floor_unique(s as int, lo as int, sqrt_floor_of(s as int));
    }
    lo
}

/// The integer square root of `s`, rounded up.
pub open spec fn sqrt_ceil_of(s: int) -> int {
    if sqrt_floor_of(s) * sqrt_floor_of(s) == s {
        sqrt_floor_of(s)
    } else {
        sqrt_floor_of(s) + 1
    }
}

/// Computes the integer square root of `s`, rounded up.
pub fn sqrt_ceil(s: u128) -> (r: u64)
    requires
        s < 0x1_0000_0000_0000_0000_0000_0000_0000,
    ensures
        r == sqrt_ceil_of(s as int),
        s <= (r as int) * (r as int),
        s == 0 <==> r == 0,
        r <= 0x200_0000_0000_0000,
{
    let f = sqrt_floor(s);
    assert((f as u128) * (f as u128) <= u128::MAX) by (nonlinear_arith)
        requires
            f <= u64::MAX,
    ;
    let ff: u128 = (f as u128) * (f as u128);
    if ff == s {
        proof {
            if s == 0 {
                assert(f == 0) by (nonlinear_arith)
                    requires
                        (f as int) * (f as int) == 0,
                ;
            }
            if f == 0 {
                assert(ff == 0) by (nonlinear_arith)
                    requires
                        ff == (f as int) * (f as int),
                        f == 0,
                ;
            }
            assert(f <= 0x200_0000_0000_0000u64) by (nonlinear_arith)
                requires
                    (f as int) * (f as int) <= s as int,
                    (s as int) < 0x1_0000_0000_0000_0000_0000_0000_0000,
            ;
        }
        f
    } else {
        proof {
            if s == 0 {
                assert((f as int) * (f as int) == 0) by (nonlinear_arith)
                    requires
                        (f as int) * (f as int) <= 0,
                        f >= 0,
                ;
            }
        }
        assert(f < 0x200_0000_0000_0000u64) by (nonlinear_arith)
            requires
                (f as int) * (f as int) <= s as int,
                (s as int) < 0x1_0000_0000_0000_0000_0000_0000_0000,
        ;
        f + 1
    }
}

} // verus!

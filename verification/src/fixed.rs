//! Fixed-point arithmetic.
//!
//! Every scalar quantity of the motion model (an angle in degrees, a speed, an
//! acceleration, a time step in seconds, a pointer displacement) is an integer
//! count of millionths: the integer `1_500_000` stands for `1.5`. Products of
//! such numbers are scaled back with a division that rounds toward zero, so
//! that a motion and its mirror image are treated alike.

use vstd::prelude::*;
use vstd::arithmetic::div_mod::{lemma_fundamental_div_mod, lemma_mod_pos_bound};

verus! {

/// The integer that stands for one whole unit.
pub const UNIT: i64 = 1_000_000;

/// The quotient of `a` by a positive `b`, rounded toward zero.
pub open spec fn trunc_div(a: int, b: int) -> int
    recommends
        b > 0,
{
    if a >= 0 {
        a / b
    } else {
        -((-a) / b)
    }
}

/// The magnitude of an integer.
pub open spec fn magnitude(a: int) -> int {
    if a < 0 {
        -a
    } else {
        a
    }
}

/// The larger of two integers.
pub open spec fn larger(a: int, b: int) -> int {
    if a < b {
        b
    } else {
        a
    }
}

/// Division toward zero is odd in its numerator, keeps the numerator's sign,
/// and its magnitude is the floor of the quotient of the magnitudes.
pub proof fn lemma_trunc_div(a: int, b: int)
    requires
        b > 0,
    ensures
        trunc_div(-a, b) == -trunc_div(a, b),
        a >= 0 ==> trunc_div(a, b) >= 0,
        a <= 0 ==> trunc_div(a, b) <= 0,
        magnitude(trunc_div(a, b)) == magnitude(a) / b,
        magnitude(trunc_div(a, b)) * b <= magnitude(a),
        magnitude(a) < (magnitude(trunc_div(a, b)) + 1) * b,
{
    let m = magnitude(a);
    let q = m / b;
    lemma_fundamental_div_mod(m, b);
    lemma_mod_pos_bound(m, b);
    assert(q * b == b * q) by (nonlinear_arith);
    assert((q + 1) * b == q * b + b) by (nonlinear_arith);
    if q < 0 {
        assert(b * q <= -b) by (nonlinear_arith)
            requires
                q <= -1,
                b > 0,
        ;
    }
    assert(0int / b == 0) by (nonlinear_arith)
        requires
            b > 0,
    ;
}

/// `x` confined to the interval from `lo` to `hi`.
pub open spec fn clamp(x: int, lo: int, hi: int) -> int {
    if x < lo {
        lo
    } else if x > hi {
        hi
    } else {
        x
    }
}

/// Whether `r` is the integer square root of `n`: the largest integer whose
/// square does not exceed `n`.
pub open spec fn is_sqrt(n: int, r: int) -> bool {
    0 <= r && r * r <= n && n < (r + 1) * (r + 1)
}

/// The integer square root of `n`.
pub open spec fn sqrt(n: nat) -> nat {
    choose|r: nat| is_sqrt(n as int, r as int)
}

/// At most one integer is the integer square root of `n`.
pub proof fn lemma_sqrt_unique(n: int, r: int, s: int)
    requires
        is_sqrt(n, r),
        is_sqrt(n, s),
    ensures
        r == s,
{
    if r < s {
        assert((r + 1) * (r + 1) <= s * s) by (nonlinear_arith)
            requires
                0 <= r,
                r + 1 <= s,
        ;
    } else if s < r {
        assert((s + 1) * (s + 1) <= r * r) by (nonlinear_arith)
            requires
                0 <= s,
                s + 1 <= r,
        ;
    }
}

/// Every natural number has an integer square root, and `sqrt` names it.
pub proof fn lemma_sqrt_exists(n: nat)
    ensures
        is_sqrt(n as int, sqrt(n) as int),
    decreases n,
{
    if n == 0 {
        assert(is_sqrt(0, 0));
    } else {
        lemma_sqrt_exists((n - 1) as nat);
        let r: nat = sqrt((n - 1) as nat);
        if (r + 1) * (r + 1) <= n {
            assert((r + 2) * (r + 2) > (r + 1) * (r + 1)) by (nonlinear_arith);
            assert(is_sqrt(n as int, (r + 1) as int));
        } else {
            assert(is_sqrt(n as int, r as int));
        }
    }
}

/// Whatever meets `is_sqrt` is the value of `sqrt`.
pub proof fn lemma_sqrt_is(n: nat, r: nat)
    requires
        is_sqrt(n as int, r as int),
    ensures
        sqrt(n) == r,
{
    lemma_sqrt_unique(n as int, r as int, sqrt(n) as int);
}

/// Computes the integer square root by bisection.
pub fn isqrt(n: u128) -> (r: u64)
    ensures
        r == sqrt(n as nat),
        is_sqrt(n as int, r as int),
{
    let mut lo: u128 = 0;
    let mut hi: u128 = 0x1_0000_0000_0000_0000;
    while hi - lo > 1
        invariant
            lo < hi <= 0x1_0000_0000_0000_0000,
            lo * lo <= n,
            n < hi * hi,
        decreases hi - lo,
    {
        let mid: u128 = lo + (hi - lo) / 2;
        assert(mid * mid <= 0xffff_ffff_ffff_ffff * 0xffff_ffff_ffff_ffff) by (nonlinear_arith)
            requires
                0 <= mid <= 0xffff_ffff_ffff_ffff,
        ;
        if mid * mid <= n {
            lo = mid;
        } else {
            hi = mid;
        }
    }
    proof {
        lemma_sqrt_is(n as nat, lo as nat);
    }
    lo as u64
}

} // verus!

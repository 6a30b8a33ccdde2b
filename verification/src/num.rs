//! Exact integer helpers used by every quantisation step of the pipeline:
//! division that rounds toward zero, and the floor of a square root.

use vstd::prelude::*;

verus! {

use vstd::arithmetic::div_mod::{
    lemma_div_by_multiple, lemma_div_is_ordered, lemma_div_pos_is_pos,
};

/// Integer division rounding toward zero. Every rounding step in this crate
/// is stated in terms of this function. For a non-negative dividend it agrees
/// with Euclidean division.
pub open spec fn trunc_div(a: int, b: int) -> int {
    if a >= 0 {
        a / b
    } else {
        -((-a) / b)
    }
}

/// The floor of the square root: the unique r with r * r <= n < (r+1) * (r+1).
pub open spec fn sqrt_floor(n: nat) -> nat {
    choose|r: nat| #[trigger] (r * r) <= n < (r + 1) * (r + 1)
}

/// A quotient rounded toward zero is bounded by any bound on the dividend,
/// divided by the divisor: |a| <= c * b implies |trunc_div(a, b)| <= c.
pub proof fn lemma_trunc_div_bound(a: int, b: int, c: int)
    requires
        b >= 1,
        c >= 0,
        -(c * b) <= a <= c * b,
    ensures
        -c <= trunc_div(a, b) <= c,
{
    if a >= 0 {
        lemma_div_pos_is_pos(a, b);
        lemma_div_is_ordered(a, c * b, b);
        lemma_div_by_multiple(c, b);
    } else {
        lemma_div_pos_is_pos(-a, b);
        lemma_div_is_ordered(-a, c * b, b);
        lemma_div_by_multiple(c, b);
    }
}

/// Division rounding toward zero, computed on 128-bit integers.
pub fn trunc_div_i128(a: i128, b: i128) -> (q: i128)
    requires
        b >= 1,
        a > i128::MIN,
    ensures
        q == trunc_div(a as int, b as int),
{
    if a >= 0 {
        let m: u128 = (a as u128) / (b as u128);
        proof {
            lemma_div_pos_is_pos(a as int, b as int);
            vstd::arithmetic::div_mod::lemma_div_nonincreasing(a as int, b as int);
        }
        m as i128
    } else {
        let neg: i128 = -a;
        let m: u128 = (neg as u128) / (b as u128);
        proof {
            lemma_div_pos_is_pos(neg as int, b as int);
            vstd::arithmetic::div_mod::lemma_div_nonincreasing(neg as int, b as int);
        }
        -(m as i128)
    }
}

/// Two floor square roots of the same number agree.
pub proof fn lemma_sqrt_floor_is(n: nat, r: nat)
    requires
        r * r <= n,
        n < (r + 1) * (r + 1),
    ensures
        sqrt_floor(n) == r,
{
    assert(exists|q: nat| #[trigger] (q * q) <= n < (q + 1) * (q + 1)) by {
        assert(r * r <= n < (r + 1) * (r + 1));
    }
    let q = sqrt_floor(n);
    assert(q * q <= n < (q + 1) * (q + 1));
    assert(q == r) by (nonlinear_arith)
        requires
            q * q <= n < (q + 1) * (q + 1),
            r * r <= n < (r + 1) * (r + 1),
            q >= 0,
            r >= 0,
    ;
}

/// The floor of the square root, by binary search.
pub fn isqrt(n: u128) -> (r: u64)
    ensures
        (r as nat) * (r as nat) <= n as nat,
        (n as nat) < ((r as nat) + 1) * ((r as nat) + 1),
        r as nat == sqrt_floor(n as nat),
{
    let mut lo: u128 = 0;
    let mut hi: u128 = u64::MAX as u128;
    proof {
        assert((n as nat) < ((hi as nat) + 1) * ((hi as nat) + 1)) by (nonlinear_arith)
            requires
                hi == 0xffff_ffff_ffff_ffffu64,
                n <= 0xffff_ffff_ffff_ffff_ffff_ffff_ffff_ffffu128,
        ;
    }
    while lo < hi
        invariant
            lo <= hi <= u64::MAX,
            (lo as nat) * (lo as nat) <= n as nat,
            (n as nat) < ((hi as nat) + 1) * ((hi as nat) + 1),
        decreases hi - lo,
    {
        let mid: u128 = lo + (hi - lo + 1) / 2;
        proof {
            assert((mid as nat) * (mid as nat) <= 0xffff_ffff_ffff_ffff_ffff_ffff_ffff_fffenat)
                by (nonlinear_arith)
                requires
                    0 <= mid <= 0xffff_ffff_ffff_ffffu64,
            ;
        }
        if mid * mid <= n {
            lo = mid;
        } else {
            hi = mid - 1;
        }
    }
    proof {
        lemma_sqrt_floor_is(n as nat, lo as nat);
    }
    lo as u64
}

} // verus!

//! Integer helpers: floor square root and saturating products.
use vstd::prelude::*;
use vstd::arithmetic::div_mod::{lemma_fundamental_div_mod, lemma_mod_bound};

use crate::state::Pallet;

verus! {

/// `r` is the floor of the square root of `n`.
pub open spec fn is_floor_sqrt(n: int, r: int) -> bool {
    0 <= r && r * r <= n && n < (r + 1) * (r + 1)
}

/// The floor of the square root of `n`.
pub open spec fn floor_sqrt(n: nat) -> nat {
    choose|r: nat| is_floor_sqrt(n as int, r as int)
}

/// A floor square root is unique.
pub proof fn lemma_floor_sqrt_unique(n: int, a: int, b: int)
    requires
        is_floor_sqrt(n, a),
        is_floor_sqrt(n, b),
    ensures
        a == b,
{
    if a < b {
        assert((a + 1) * (a + 1) <= b * b) by (nonlinear_arith)
            requires
                0 <= a,
                a + 1 <= b,
        ;
    } else if b < a {
        assert((b + 1) * (b + 1) <= a * a) by (nonlinear_arith)
            requires
                0 <= b,
                b + 1 <= a,
        ;
    }
}

/// Any floor square root is the one `floor_sqrt` names.
pub proof fn lemma_floor_sqrt_is(n: nat, r: nat)
    requires
        is_floor_sqrt(n as int, r as int),
    ensures
        floor_sqrt(n) == r,
{
    let c = floor_sqrt(n);
    assert(is_floor_sqrt(n as int, c as int));
    lemma_floor_sqrt_unique(n as int, c as int, r as int);
}

/// Every natural number has a floor square root.
pub proof fn lemma_floor_sqrt_exists(n: nat)
    ensures
        is_floor_sqrt(n as int, floor_sqrt(n) as int),
    decreases n,
{
    if n == 0 {
        assert(is_floor_sqrt(0, 0));
        lemma_floor_sqrt_is(0, 0);
    } else {
        lemma_floor_sqrt_exists((n - 1) as nat);
        let q = floor_sqrt((n - 1) as nat);
        if (q + 1) * (q + 1) <= n {
            assert(n < (q + 2) * (q + 2)) by (nonlinear_arith)
                requires
                    n - 1 < (q + 1) * (q + 1),
                    q >= 0,
            ;
            lemma_floor_sqrt_is(n, q + 1);
        } else {
            lemma_floor_sqrt_is(n, q);
        }
    }
}

/// A Newton step from any positive estimate lands at or above the root.
proof fn lemma_newton_step(n: int, x: int)
    requires
        n >= 0,
        x >= 1,
    ensures
        n < ((x + n / x) / 2 + 1) * ((x + n / x) / 2 + 1),
{
    let q = n / x;
    let m = n % x;
    lemma_fundamental_div_mod(n, x);
    lemma_mod_bound(n, x);
    let s = (x + q) / 2 + 1;
    assert(n < x * (q + 1)) by (nonlinear_arith)
        requires
            n == x * q + m,
            0 <= m < x,
    ;
    if s * s <= n {
        assert(x + q <= 2 * s - 1);
        assert(x * (q + 1) <= x * (2 * s - x)) by (nonlinear_arith)
            requires
                x >= 1,
                q + 1 <= 2 * s - x,
        ;
        assert(x * (2 * s - x) <= s * s) by (nonlinear_arith);
    }
}

/// Floor of `(a + b) / 2` without an intermediate sum.
fn half_sum(a: u128, b: u128) -> (r: u128)
    ensures
        r == (a + b) / 2,
{
    a / 2 + b / 2 + (a % 2 + b % 2) / 2
}

impl Pallet {
    /// Integer square root (floor) by Newton's method.
    pub fn isqrt(n: u128) -> (r: u128)
        ensures
            is_floor_sqrt(n as int, r as int),
            r == floor_sqrt(n as nat),
    {
        if n == 0 {
            proof {
                lemma_floor_sqrt_is(0, 0);
            }
            return 0;
        }
        let mut x: u128 = n;
        let mut y: u128 = half_sum(x, 1);
        assert(n / n == 1) by {
            lemma_fundamental_div_mod(n as int, n as int);
            lemma_mod_bound(n as int, n as int);
            assert(n == n * (n / n) + n % n);
            assert(n * 1 == n);
            if n / n >= 2 {
                assert(n * (n / n) >= n * 2) by (nonlinear_arith)
                    requires
                        n / n >= 2,
                        n >= 1,
                ;
            }
            if n / n <= 0 {
                assert(n * (n / n) <= 0) by (nonlinear_arith)
                    requires
                        n / n <= 0,
                        n >= 1,
                ;
            }
        }
        assert(n < (n + 1) * (n + 1)) by (nonlinear_arith)
            requires
                n >= 1,
        ;
        while y < x
            invariant
                x >= 1,
                x <= n,
                n < (x + 1) * (x + 1),
                y == (x + n / x) / 2,
            decreases x,
        {
            proof {
                lemma_newton_step(n as int, x as int);
            }
            x = y;
            assert(x >= 1) by {
                if x == 0 {
                    assert((0 + 1) * (0 + 1) == 1);
                }
            }
            y = half_sum(x, n / x);
        }
        proof {
            lemma_fundamental_div_mod(n as int, x as int);
            lemma_mod_bound(n as int, x as int);
            let q = n / x;
            assert(q >= x);
            assert(x * x <= x * q) by (nonlinear_arith)
                requires
                    q >= x,
                    x >= 1,
            ;
            assert(x * q <= n);
            lemma_floor_sqrt_is(n as nat, x as nat);
        }
        x
    }
}

/// `a * b`, or `u32::MAX` where the product does not fit.
pub open spec fn sat_mul_u32(a: u32, b: u32) -> u32 {
    if a * b > u32::MAX {
        u32::MAX
    } else {
        (a * b) as u32
    }
}

pub fn saturating_mul_u32(a: u32, b: u32) -> (r: u32)
    ensures
        r == sat_mul_u32(a, b),
{
    match a.checked_mul(b) {
        Some(p) => p,
        None => u32::MAX,
    }
}

} // verus!

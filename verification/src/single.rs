//! Single-precision arithmetic on exact fractions.
//!
//! A result of single-precision arithmetic is the fraction nearest to the exact
//! one among those with a 24-bit numerator and a power of two below. Working on
//! numerator and denominator keeps every rounding in integers.
use vstd::prelude::*;

verus! {

/// `n / d` to the nearest integer, a half going to the even neighbour.
pub open spec fn half_even(n: nat, d: nat) -> nat {
    if 2 * (n % d) > d || (2 * (n % d) == d && (n / d) % 2 == 1) {
        n / d + 1
    } else {
        n / d
    }
}

/// `n / d` to the nearest integer, a half going up.
pub open spec fn half_up(n: nat, d: nat) -> nat {
    (2 * n + d) / (2 * d)
}

/// The single-precision value nearest to `n / d`, as numerator and denominator.
/// It is defined for values below 2^24.
pub open spec fn single(n: nat, d: nat) -> (nat, nat)
    decreases d * 0x100_0000 - n,
{
    if n == 0 || d == 0 {
        (0, 1)
    } else if n >= d * 0x80_0000 {
        (half_even(n, d), 1)
    } else {
        let (m, p) = single(2 * n, d);
        (m, 2 * p)
    }
}

/// The bounds of a single-precision value: its numerator takes 24 bits, and its
/// denominator is the scale that brings `n / d` there.
pub proof fn lemma_single_bounds(n: nat, d: nat)
    requires
        0 < n < d * 0x100_0000,
    ensures
        0x80_0000 <= single(n, d).0 <= 0x100_0000,
        1 <= single(n, d).1,
        d * 0x80_0000 <= n * single(n, d).1 < d * 0x100_0000 || single(n, d).1 == 1,
        single(n, d).1 <= d * 0x100_0000,
        n < d * 0x80_0000 ==> single(n, d).1 >= 2,
    decreases d * 0x100_0000 - n,
{
    if n >= d * 0x80_0000 {
        assert(0x80_0000 <= n / d < 0x100_0000) by (nonlinear_arith)
            requires
                d * 0x80_0000 <= n < d * 0x100_0000,
                d > 0,
        ;
    } else {
        lemma_single_bounds(2 * n, d);
        let p = single(2 * n, d).1;
        assert(n * (2 * p) == (2 * n) * p) by (nonlinear_arith);
        assert(2 * p <= d * 0x100_0000) by {
            if p == 1 {
            } else {
                assert(n * (2 * p) >= 2 * p) by (nonlinear_arith)
                    requires
                        n >= 1,
                ;
            }
        }
    }
}

/// A single-precision value is off by half a unit of its last place at most.
pub proof fn lemma_single_error(n: nat, d: nat)
    requires
        0 < n < d * 0x100_0000,
    ensures
        -(d as int) <= 2 * (single(n, d).0 * d - n * single(n, d).1) <= d,
    decreases d * 0x100_0000 - n,
{
    if n >= d * 0x80_0000 {
        let q = n / d;
        let rest = n % d;
        assert(n == q * d + rest) by (nonlinear_arith)
            requires
                q == n / d,
                rest == n % d,
                d > 0,
        ;
        assert((q + 1) * d == q * d + d) by (nonlinear_arith);
        assert(n * 1 == n);
    } else {
        lemma_single_error(2 * n, d);
        let p = single(2 * n, d).1;
        assert(n * (2 * p) == (2 * n) * p) by (nonlinear_arith);
    }
}

/// Divide to the nearest integer, a half going to the even neighbour.
pub fn divide_half_even(n: u128, d: u128) -> (r: u128)
    requires
        0 < d < 0x1_0000_0000_0000_0000_0000,
    ensures
        r as nat == half_even(n as nat, d as nat),
{
    let q: u128 = n / d;
    let rest: u128 = n % d;
    if 2 * rest > d || (2 * rest == d && q % 2 == 1) {
        assert(q < u128::MAX) by (nonlinear_arith)
            requires
                q == n / d,
                rest == n % d,
                d >= 1,
                rest > 0,
        ;
        q + 1
    } else {
        q
    }
}

/// The single-precision value nearest to `n / d`.
pub fn nearest(n: u128, d: u128) -> (r: (u128, u128))
    requires
        0 < d < 0x1_0000_0000_0000_0000,
        n < d * 0x100_0000,
    ensures
        (r.0 as nat, r.1 as nat) == single(n as nat, d as nat),
{
    if n == 0 {
        return (0, 1);
    }
    let mut scaled: u128 = n;
    let mut p: u128 = 1;
    while scaled < d * 0x80_0000
        invariant
            0 < n,
            0 < d < 0x1_0000_0000_0000_0000,
            1 <= p <= scaled < d * 0x100_0000,
            single(n as nat, d as nat).0 == single(scaled as nat, d as nat).0,
            single(n as nat, d as nat).1 == p * single(scaled as nat, d as nat).1,
        decreases d * 0x100_0000 - scaled,
    {
        let ghost next = single((2 * scaled) as nat, d as nat).1;
        assert(p * (2 * next) == (2 * p) * next) by (nonlinear_arith);
        scaled = 2 * scaled;
        p = 2 * p;
    }
    (divide_half_even(scaled, d), p)
}

/// Rounding gives a nearest integer; of two, the even one or the upper one.
pub proof fn law_nearest_integer(n: nat, d: nat)
    requires
        d > 0,
    ensures
        -(d as int) <= 2 * (half_even(n, d) * d - n) <= d,
        2 * (half_even(n, d) * d - n) == d || 2 * (half_even(n, d) * d - n) == -(d as int)
            ==> half_even(n, d) % 2 == 0,
        -(d as int) < 2 * (half_up(n, d) * d - n) <= d,
{
    let (q, rest) = (n / d, n % d);
    assert(n == q * d + rest && rest < d) by (nonlinear_arith)
        requires
            q == n / d,
            rest == n % d,
            d > 0,
    ;
    assert((q + 1) * d == q * d + d) by (nonlinear_arith);
    let h = half_up(n, d);
    assert(h * (2 * d) <= 2 * n + d < h * (2 * d) + 2 * d) by (nonlinear_arith)
        requires
            h == (2 * n + d) / (2 * d),
            d > 0,
    ;
    assert(h * (2 * d) == 2 * (h * d)) by (nonlinear_arith);
}

} // verus!

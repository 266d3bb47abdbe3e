//! Exact integer model of IEEE 754 double-precision rounding.
//!
//! A non-negative value is written as a count of fixed units (a power of two
//! chosen by the caller, fine enough that every double the computation meets is
//! a whole number of units). Doubles carry 53 significant bits, so near a value
//! of `n` units they are spaced by the smallest power of two `u` with
//! `n / u < 2^53`; rounding to nearest picks the closer multiple of `u`, and
//! on a tie the one with an even multiplier.

use vstd::arithmetic::power2::pow2;
use vstd::prelude::*;

verus! {

/// `2^53`: one more than the largest significand of a double.
pub open spec fn significand_limit() -> nat {
    0x20_0000_0000_0000
}

/// The spacing of doubles near the quotient `n / d` (in units), searched from
/// the power of two `u` upward.
pub open spec fn spacing_from(n: nat, d: nat, u: nat) -> nat
    decreases n + 1 - u,
{
    if u == 0 || d == 0 || n / (d * u) < significand_limit() {
        u
    } else {
        proof {
            assert(d * u > 0) by (nonlinear_arith)
                requires
                    d > 0,
                    u > 0,
            ;
            assert(u <= d * u) by (nonlinear_arith)
                requires
                    d > 0,
            ;
            lemma_quotient_large(n, d * u);
        }
        spacing_from(n, d, 2 * u)
    }
}

/// The spacing of doubles near the quotient `n / d`, in units.
pub open spec fn spacing(n: nat, d: nat) -> nat {
    spacing_from(n, d, 1)
}

/// The double nearest to the quotient `n / d` (in units), ties to even: the
/// result of an IEEE 754 operation whose exact result is `n / d`.
pub open spec fn nearest(n: nat, d: nat) -> nat {
    let u = spacing(n, d);
    let q = n / (d * u);
    let r = n % (d * u);
    if 2 * r > d * u || (2 * r == d * u && q % 2 == 1) {
        (q + 1) * u
    } else {
        q * u
    }
}

/// A quotient of at least `2^53` has a divisor well below its dividend.
pub proof fn lemma_quotient_large(n: nat, m: nat)
    requires
        m > 0,
        n / m >= significand_limit(),
    ensures
        m * significand_limit() <= n,
        2 * m <= n,
{
    vstd::arithmetic::div_mod::lemma_fundamental_div_mod(n as int, m as int);
    let q = n / m;
    assert(m * significand_limit() <= m * q) by (nonlinear_arith)
        requires
            q >= significand_limit(),
    ;
}

/// Where the quotient is below `2^83` units, doubles are spaced by at most
/// `2^30` units.
pub proof fn lemma_spacing_at_most(n: nat, d: nat, i: nat)
    requires
        d > 0,
        i <= 30,
        n / d < 0x8_0000_0000_0000_0000_0000,
    ensures
        1 <= spacing_from(n, d, pow2(i)) <= 0x4000_0000,
    decreases 30 - i,
{
    let u = pow2(i);
    vstd::arithmetic::power2::lemma2_to64();
    vstd::arithmetic::power2::lemma_pow2_pos(i);
    if i < 30 {
        vstd::arithmetic::power2::lemma_pow2_strictly_increases(i, 30);
    }
    if n / (d * u) >= significand_limit() {
        if i == 30 {
            vstd::arithmetic::div_mod::lemma_div_denominator(n as int, d as int, u as int);
            let q = (n / d) / u;
            vstd::arithmetic::div_mod::lemma_fundamental_div_mod((n / d) as int, u as int);
            assert(false) by (nonlinear_arith)
                requires
                    u == 0x4000_0000,
                    q >= significand_limit(),
                    u * q + (n / d) % u == n / d,
                    (n / d) % u >= 0,
                    n / d < 0x8_0000_0000_0000_0000_0000,
            ;
        }
        vstd::arithmetic::power2::lemma_pow2_unfold(i + 1);
        lemma_spacing_at_most(n, d, i + 1);
    }
}

/// Where the quotient `n / d` is below `2^83` units, rounding it to the
/// nearest double moves it by at most `2^30` units.
pub proof fn lemma_nearest_close(n: nat, d: nat)
    requires
        d > 0,
        n / d < 0x8_0000_0000_0000_0000_0000,
    ensures
        nearest(n, d) <= n / d + 0x4000_0000,
        n / d <= nearest(n, d) + 0x4000_0000,
{
    vstd::arithmetic::power2::lemma2_to64();
    lemma_spacing_at_most(n, d, 0);
    let u = spacing(n, d);
    vstd::arithmetic::div_mod::lemma_div_denominator(n as int, d as int, u as int);
    let m = n / d;
    vstd::arithmetic::div_mod::lemma_fundamental_div_mod(m as int, u as int);
    let q = m / u;
    let r = m % u;
    assert(n / (d * u) == q);
    assert(q * u <= m < (q + 1) * u) by (nonlinear_arith)
        requires
            u * q + r == m,
            0 <= r < u,
    ;
    assert((q + 1) * u == q * u + u) by (nonlinear_arith);
}

/// Zero is a double: rounding it gives zero.
pub proof fn lemma_nearest_zero(d: nat)
    requires
        d > 0,
    ensures
        nearest(0, d) == 0,
{
    vstd::arithmetic::power2::lemma2_to64();
    lemma_spacing_at_most(0, d, 0);
    let u = spacing(0, d);
    assert(d * u > 0) by (nonlinear_arith)
        requires
            d > 0,
            u >= 1,
    ;
    assert(0nat / (d * u) == 0);
    assert(0nat % (d * u) == 0);
}

/// The double nearest to a signed value `x / d`: rounding to nearest is
/// symmetric about zero.
pub open spec fn nearest_signed(x: int, d: nat) -> int {
    if x >= 0 {
        nearest(x as nat, d) as int
    } else {
        -(nearest((-x) as nat, d) as int)
    }
}

/// Signed form of `lemma_nearest_close`, for a divisor of 1.
pub proof fn lemma_nearest_signed_close(x: int)
    requires
        -0x8_0000_0000_0000_0000_0000 < x < 0x8_0000_0000_0000_0000_0000,
    ensures
        x - 0x4000_0000 <= nearest_signed(x, 1) <= x + 0x4000_0000,
{
    if x >= 0 {
        lemma_nearest_close(x as nat, 1);
    } else {
        lemma_nearest_close((-x) as nat, 1);
    }
}

/// The double nearest to `n / d`.
pub fn nearest_exec(n: u128, d: u128) -> (res: u128)
    requires
        0 < d,
        n < 0x4000_0000_0000_0000_0000_0000_0000_0000,
    ensures
        res == nearest(n as nat, d as nat),
{
    let mut u: u128 = 1;
    while n / (d * u) >= 0x20_0000_0000_0000
        invariant
            0 < d,
            1 <= u,
            d * u > 0,
            d * u <= n || u == 1,
            u == 1 || u * significand_limit() <= 2 * n,
            n < 0x4000_0000_0000_0000_0000_0000_0000_0000,
            spacing_from(n as nat, d as nat, u as nat) == spacing(n as nat, d as nat),
        decreases n + 1 - u,
    {
        proof {
            lemma_quotient_large(n as nat, (d * u) as nat);
            assert(d * (2 * u) == 2 * (d * u)) by (nonlinear_arith);
            assert(u <= d * u) by (nonlinear_arith)
                requires
                    d > 0,
            ;
            assert(u * significand_limit() <= (d * u) * significand_limit()) by (nonlinear_arith)
                requires
                    u <= d * u,
            ;
        }
        u = 2 * u;
    }
    let du = d * u;
    let q = n / du;
    let r = n % du;
    proof {
        assert(q < significand_limit());
        assert(u <= du) by (nonlinear_arith)
            requires
                d > 0,
                du == d * u,
        ;
        assert((q + 1) * u <= significand_limit() * u) by (nonlinear_arith)
            requires
                q < significand_limit(),
        ;
    }
    assert(q * u <= (q + 1) * u) by (nonlinear_arith);
    if r > du - r || (r == du - r && q % 2 == 1) {
        (q + 1) * u
    } else {
        q * u
    }
}

} // verus!

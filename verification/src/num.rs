//! Round-to-nearest integer division, the rounding rule every derived
//! metric uses: halves are rounded away from zero.

use vstd::prelude::*;
use vstd::arithmetic::div_mod::lemma_fundamental_div_mod;
use vstd::arithmetic::div_mod::lemma_div_is_ordered;

verus! {

/// Nearest integer to `n / d` for `n >= 0`, `d >= 1`; halves round up.
pub open spec fn round_div_up(n: int, d: int) -> int {
    (2 * n + d) / (2 * d)
}

/// Nearest integer to `n / d` for `d >= 1`; halves round away from zero.
pub open spec fn round_div_away(n: int, d: int) -> int {
    if n >= 0 {
        round_div_up(n, d)
    } else {
        -round_div_up(-n, d)
    }
}

/// The rounded quotient never exceeds the dividend (for `n >= 0`, `d >= 1`).
pub proof fn lemma_round_div_up_le(n: int, d: int)
    requires
        n >= 0,
        d >= 1,
    ensures
        0 <= round_div_up(n, d) <= n,
{
    let q = (2 * n + d) / (2 * d);
    lemma_fundamental_div_mod(2 * n + d, 2 * d);
    let r = (2 * n + d) % (2 * d);
    assert(2 * n + d == 2 * d * q + r);
    assert(q >= 0) by {
        if q < 0 {
            assert(2 * d * q <= -(2 * d)) by (nonlinear_arith)
                requires d >= 1 && q <= -1;
            assert(2 * n + d <= -(2 * d) + r);
        }
    }
    assert(q <= n) by {
        if q > n {
            assert(2 * d * q >= 2 * d * (n + 1)) by (nonlinear_arith)
                requires d >= 1 && q >= n + 1;
            assert(2 * d * (n + 1) >= 2 * n + 2 * d) by (nonlinear_arith)
                requires d >= 1 && n >= 0;
            assert(2 * n + d >= 2 * n + 2 * d + r);
        }
    }
}

/// Division keeps order: a bound on the dividend bounds the rounded quotient.
pub proof fn lemma_round_div_up_bound(n: int, d: int, bound: int)
    requires
        0 <= n <= bound,
        d >= 1,
    ensures
        0 <= round_div_up(n, d) <= round_div_up(bound, d),
{
    lemma_round_div_up_le(n, d);
    lemma_div_is_ordered(2 * n + d, 2 * bound + d, 2 * d);
}

/// Executable round-to-nearest for non-negative operands.
pub fn round_u128(n: u128, d: u128) -> (r: u128)
    requires
        1 <= d,
        2 * n + d <= u128::MAX,
        2 * d <= u128::MAX,
    ensures
        r == round_div_up(n as int, d as int),
        r <= n,
{
    proof {
        lemma_round_div_up_le(n as int, d as int);
    }
    (2 * n + d) / (2 * d)
}

/// Executable round-to-nearest with halves away from zero; the sign is
/// carried separately so the division itself is on non-negative values.
pub fn round_i128(n: i128, d: i128) -> (r: i128)
    requires
        1 <= d,
        -i128::MAX <= n <= i128::MAX,
        2 * n + d <= i128::MAX,
        -(2 * n) + d <= i128::MAX,
        2 * d <= i128::MAX,
    ensures
        r == round_div_away(n as int, d as int),
        n >= 0 ==> 0 <= r <= n,
        n < 0 ==> n <= r <= 0,
{
    if n >= 0 {
        let m: u128 = n as u128;
        let q: u128 = round_u128(m, d as u128);
        q as i128
    } else {
        let m: u128 = (-n) as u128;
        let q: u128 = round_u128(m, d as u128);
        -(q as i128)
    }
}

} // verus!

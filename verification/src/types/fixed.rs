//! Decimal numbers written as a mantissa and a count of decimal places, and
//! how two of them compare.

use vstd::arithmetic::power::{lemma_pow_adds, lemma_pow_increases, lemma_pow_positive, pow};
use vstd::prelude::*;

verus! {

/// The largest magnitude of a mantissa that the comparison takes: `2^64`,
/// which covers every `i64`, every `u64`, and the negative of each.
pub const MANTISSA_LIMIT: i128 = 0x1_0000_0000_0000_0000;

/// Ten to the power 18: the largest power of ten whose product with any
/// mantissa within `MANTISSA_LIMIT` fits an `i128`.
pub const POW10_18: i128 = 1_000_000_000_000_000_000;

/// Ten to the power 19: the largest power of ten within `MANTISSA_LIMIT`.
pub const POW10_19: i128 = 10_000_000_000_000_000_000;

/// Ten to the power `n`.
pub open spec fn pow10(n: nat) -> int {
    pow(10, n)
}

/// Whether `m1 / 10^s1` is no greater than `m2 / 10^s2`, stated over integers:
/// both sides are multiplied by `10^s1 * 10^s2`, which is positive.
pub open spec fn decimal_le(m1: int, s1: nat, m2: int, s2: nat) -> bool {
    m1 * pow10(s2) <= m2 * pow10(s1)
}

/// Each power of ten is ten times the one before it.
pub proof fn lemma_pow10_step(n: nat)
    ensures
        pow10(0) == 1,
        pow10(n + 1) == 10 * pow10(n),
{
    reveal_with_fuel(pow, 2);
}

/// The powers of ten at which the comparison changes its method.
pub proof fn lemma_pow10_values()
    ensures
        pow10(18) == POW10_18,
        pow10(19) == POW10_19,
        pow10(20) == 10 * POW10_19,
{
    reveal_with_fuel(pow, 22);
}

/// `decimal_le` orders decimal numbers as `<=` orders the rationals: any two
/// numbers compare one way or the other, and the comparison carries over a
/// number in between.
pub proof fn lemma_decimal_le_is_a_total_preorder(
    m1: int,
    s1: nat,
    m2: int,
    s2: nat,
    m3: int,
    s3: nat,
)
    ensures
        decimal_le(m1, s1, m1, s1),
        decimal_le(m1, s1, m2, s2) || decimal_le(m2, s2, m1, s1),
        decimal_le(m1, s1, m2, s2) && decimal_le(m2, s2, m3, s3) ==> decimal_le(m1, s1, m3, s3),
{
    let p1: int = pow10(s1);
    let p2: int = pow10(s2);
    let p3: int = pow10(s3);
    lemma_pow_positive(10, s1);
    lemma_pow_positive(10, s2);
    lemma_pow_positive(10, s3);
    if m1 * p2 <= m2 * p1 && m2 * p3 <= m3 * p2 {
        assert(m1 * p3 <= m3 * p1) by (nonlinear_arith)
            requires
                m1 * p2 <= m2 * p1,
                m2 * p3 <= m3 * p2,
                p1 > 0,
                p2 > 0,
                p3 > 0,
        ;
    }
}

/// Two decimal numbers compare as they do once the scale they share is taken
/// away: only the difference of the scales matters.
pub proof fn lemma_decimal_le_by_difference(m1: int, s1: nat, m2: int, s2: nat)
    ensures
        s1 <= s2 ==> (decimal_le(m1, s1, m2, s2) <==> m1 * pow10((s2 - s1) as nat) <= m2),
        s1 >= s2 ==> (decimal_le(m1, s1, m2, s2) <==> m1 <= m2 * pow10((s1 - s2) as nat)),
{
    if s1 <= s2 {
        let d: nat = (s2 - s1) as nat;
        let shared: int = pow10(s1);
        let rest: int = pow10(d);
        let whole: int = pow10(s2);
        lemma_pow_adds(10, s1, d);
        lemma_pow_positive(10, s1);
        assert(whole == shared * rest);
        assert((m1 * whole <= m2 * shared) <==> (m1 * rest <= m2)) by (nonlinear_arith)
            requires
                whole == shared * rest,
                shared > 0,
        ;
    }
    if s1 >= s2 {
        let d: nat = (s1 - s2) as nat;
        let shared: int = pow10(s2);
        let rest: int = pow10(d);
        let whole: int = pow10(s1);
        lemma_pow_adds(10, s2, d);
        lemma_pow_positive(10, s2);
        assert(whole == shared * rest);
        assert((m1 * shared <= m2 * whole) <==> (m1 <= m2 * rest)) by (nonlinear_arith)
            requires
                whole == shared * rest,
                shared > 0,
        ;
    }
}

/// A mantissa times a power of ten lies beyond `MANTISSA_LIMIT`, on the side of
/// its sign, once the power is `10^20` or more, or `10^19` with a mantissa of
/// magnitude two or more.
pub proof fn lemma_out_of_reach(m: int, d: nat)
    requires
        m != 0,
        d >= 19,
        d >= 20 || m >= 2 || m <= -2,
    ensures
        m > 0 ==> m * pow10(d) > MANTISSA_LIMIT,
        m < 0 ==> m * pow10(d) < -MANTISSA_LIMIT,
{
    let p: int = pow10(d);
    lemma_pow10_values();
    lemma_pow_increases(10, 19, d);
    if d >= 20 {
        lemma_pow_increases(10, 20, d);
    }
    assert((m > 0 ==> m * p > MANTISSA_LIMIT) && (m < 0 ==> m * p < -MANTISSA_LIMIT))
        by (nonlinear_arith)
        requires
            m != 0,
            p >= POW10_19,
            p >= 10 * POW10_19 || m >= 2 || m <= -2,
    ;
}

/// Computes ten to the power `n`.
pub(crate) fn pow10_i128(n: u8) -> (r: i128)
    requires
        n <= 18,
    ensures
        r == pow10(n as nat),
        1 <= r <= POW10_18,
{
    let mut r: i128 = 1;
    let mut i: u8 = 0;
    proof {
        lemma_pow10_step(0);
    }
    while i < n
        invariant
            i <= n <= 18,
            r == pow10(i as nat),
            1 <= r <= POW10_18,
        decreases n - i,
    {
        proof {
            lemma_pow10_step(i as nat);
            lemma_pow10_values();
            lemma_pow_increases(10, (i + 1) as nat, 18);
        }
        r = r * 10;
        i = i + 1;
    }
    r
}

/// Decides whether `m * 10^d <= bound`.
///
/// Up to `10^18` the product is computed. Beyond that it is computed only for a
/// mantissa of magnitude one at `10^19`; any other product is zero or lies
/// beyond every bound, on the side of its sign.
pub(crate) fn scaled_le(m: i128, d: u8, bound: i128) -> (r: bool)
    requires
        -MANTISSA_LIMIT <= m <= MANTISSA_LIMIT,
        -MANTISSA_LIMIT <= bound <= MANTISSA_LIMIT,
    ensures
        r == (m * pow10(d as nat) <= bound),
{
    if m == 0 {
        assert(m * pow10(d as nat) == 0) by (nonlinear_arith)
            requires
                m == 0,
        ;
        0 <= bound
    } else if d <= 18 {
        let p: i128 = pow10_i128(d);
        assert(-MANTISSA_LIMIT * POW10_18 <= m * p <= MANTISSA_LIMIT * POW10_18)
            by (nonlinear_arith)
            requires
                -MANTISSA_LIMIT <= m <= MANTISSA_LIMIT,
                1 <= p <= POW10_18,
        ;
        m * p <= bound
    } else if d == 19 && -1 <= m && m <= 1 {
        proof {
            lemma_pow10_values();
        }
        m * POW10_19 <= bound
    } else {
        proof {
            lemma_out_of_reach(m as int, d as nat);
        }
        m < 0
    }
}

/// Decides whether `m1 / 10^s1` is no greater than `m2 / 10^s2`.
pub(crate) fn decimal_le_exec(m1: i128, s1: u8, m2: i128, s2: u8) -> (r: bool)
    requires
        -MANTISSA_LIMIT <= m1 <= MANTISSA_LIMIT,
        -MANTISSA_LIMIT <= m2 <= MANTISSA_LIMIT,
    ensures
        r == decimal_le(m1 as int, s1 as nat, m2 as int, s2 as nat),
{
    proof {
        lemma_decimal_le_by_difference(m1 as int, s1 as nat, m2 as int, s2 as nat);
    }
    if s1 <= s2 {
        scaled_le(m1, s2 - s1, m2)
    } else {
        // m1 <= m2 * 10^d exactly when (-m2) * 10^d <= -m1
        let d: u8 = s1 - s2;
        assert((-m2) * pow10(d as nat) == -(m2 * pow10(d as nat))) by (nonlinear_arith);
        scaled_le(-m2, d, -m1)
    }
}

} // verus!

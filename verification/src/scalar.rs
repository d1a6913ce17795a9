//! Binary32 numbers as bit patterns: their exact value, their order, and what
//! can be done to them without rounding.

use vstd::arithmetic::power2::{
    lemma2_to64, lemma_pow2_adds, lemma_pow2_pos, lemma_pow2_strictly_increases, pow2,
};
use vstd::prelude::*;

verus! {

/// A binary32 number, as its bit pattern: the sign in the top bit, eight bits
/// of exponent, twenty-three bits of fraction.
pub type Scalar = u32;

/// The value of a bit pattern without its sign, in units of `2^-149`, the
/// smallest positive binary32 number. The pattern of infinity counts as the
/// number that would follow the largest finite one.
pub open spec fn magnitude_value(magnitude: int) -> int {
    let exponent = magnitude / 0x80_0000;
    let fraction = magnitude % 0x80_0000;
    if exponent == 0 {
        fraction
    } else {
        (fraction + 0x80_0000) * pow2((exponent - 1) as nat)
    }
}

/// The whole number `n`, in the units of [`value`].
pub open spec fn whole(n: int) -> int {
    n * pow2(149)
}

/// The bit pattern without its sign.
pub open spec fn magnitude(v: Scalar) -> int {
    v as int % 0x8000_0000
}

pub open spec fn is_negative(v: Scalar) -> bool {
    v >= 0x8000_0000
}

pub open spec fn is_nan(v: Scalar) -> bool {
    magnitude(v) > 0x7f80_0000
}

/// The exact value of a number, in units of `2^-149`.
pub open spec fn value(v: Scalar) -> int {
    if is_negative(v) {
        -magnitude_value(magnitude(v))
    } else {
        magnitude_value(magnitude(v))
    }
}

/// Whether both are numbers and the first is the smaller one.
pub open spec fn less(a: Scalar, b: Scalar) -> bool {
    !is_nan(a) && !is_nan(b) && value(a) < value(b)
}

/// Whether both are numbers and the first is not the larger one.
pub open spec fn at_most(a: Scalar, b: Scalar) -> bool {
    !is_nan(a) && !is_nan(b) && value(a) <= value(b)
}

/// The same pattern with the other sign.
pub open spec fn negated(v: Scalar) -> Scalar {
    if is_negative(v) {
        (v - 0x8000_0000) as u32
    } else {
        (v + 0x8000_0000) as u32
    }
}

/// The smaller of two numbers, the first where they are equal; where one is
/// not a number, the other.
pub open spec fn lesser(a: Scalar, b: Scalar) -> Scalar {
    if is_nan(a) || less(b, a) {
        b
    } else {
        a
    }
}

/// The larger of two numbers, the first where they are equal; where one is
/// not a number, the other.
pub open spec fn greater(a: Scalar, b: Scalar) -> Scalar {
    if is_nan(a) || less(a, b) {
        b
    } else {
        a
    }
}

/// A whole number whose order is that of the values.
spec fn key(v: Scalar) -> int {
    if is_negative(v) {
        -magnitude(v)
    } else {
        magnitude(v)
    }
}

fn order_key(v: Scalar) -> (r: i64)
    ensures
        r == key(v),
{
    if v >= 0x8000_0000 {
        -((v - 0x8000_0000) as i64)
    } else {
        v as i64
    }
}

/// Whether the pattern is not a number.
pub fn nan(v: Scalar) -> (r: bool)
    ensures
        r == is_nan(v),
{
    v % 0x8000_0000 > 0x7f80_0000
}

/// `a < b`: false where one of them is not a number.
pub fn lt(a: Scalar, b: Scalar) -> (r: bool)
    ensures
        r == less(a, b),
{
    proof {
        lemma_key_order(a, b);
    }
    !nan(a) && !nan(b) && order_key(a) < order_key(b)
}

/// `a <= b`: false where one of them is not a number.
pub fn le(a: Scalar, b: Scalar) -> (r: bool)
    ensures
        r == at_most(a, b),
{
    proof {
        lemma_key_order(b, a);
    }
    !nan(a) && !nan(b) && order_key(a) <= order_key(b)
}

/// `-v`.
pub fn neg(v: Scalar) -> (r: Scalar)
    ensures
        r == negated(v),
        is_nan(r) == is_nan(v),
        value(r) == -value(v),
{
    if v >= 0x8000_0000 {
        v - 0x8000_0000
    } else {
        v + 0x8000_0000
    }
}

/// The smaller of the two.
pub fn min(a: Scalar, b: Scalar) -> (r: Scalar)
    ensures
        r == lesser(a, b),
{
    if nan(a) || lt(b, a) {
        b
    } else {
        a
    }
}

/// The larger of the two.
pub fn max(a: Scalar, b: Scalar) -> (r: Scalar)
    ensures
        r == greater(a, b),
{
    if nan(a) || lt(a, b) {
        b
    } else {
        a
    }
}

/// What [`clamp`] makes of `v`.
pub open spec fn clamped(v: Scalar, a: Scalar, b: Scalar) -> Scalar {
    greater(lesser(v, b), a)
}

/// `v`, but no larger than `b`, and then no smaller than `a`.
pub fn clamp(v: Scalar, a: Scalar, b: Scalar) -> (r: Scalar)
    ensures
        r == clamped(v, a, b),
{
    max(min(v, b), a)
}

/// Between two bounds in their order, clamping lands within the bounds, leaves
/// alone what was within them, and takes what is not a number to the upper one.
pub proof fn clamp_lands_within(v: Scalar, a: Scalar, b: Scalar)
    requires
        at_most(a, b),
    ensures
        at_most(a, clamped(v, a, b)),
        at_most(clamped(v, a, b), b),
        at_most(a, v) && at_most(v, b) ==> clamped(v, a, b) == v,
        less(v, a) ==> clamped(v, a, b) == a,
        less(b, v) ==> clamped(v, a, b) == b,
        is_nan(v) ==> clamped(v, a, b) == b,
{
}

/// Clamping twice between the same bounds is clamping once, whatever the bounds.
pub proof fn clamp_is_idempotent(v: Scalar, a: Scalar, b: Scalar)
    ensures
        clamped(clamped(v, a, b), a, b) == clamped(v, a, b),
{
}

/// Negating twice gives the number back, to the bit.
pub proof fn negation_is_an_involution(v: Scalar)
    ensures
        negated(negated(v)) == v,
{
}

/// Negating changes the sign of the value and the top bit of the pattern, and
/// nothing else.
pub proof fn negation_flips_the_sign(v: Scalar)
    ensures
        value(negated(v)) == -value(v),
        is_nan(negated(v)) == is_nan(v),
        negated(v) - v == 0x8000_0000 || v - negated(v) == 0x8000_0000,
{
}

/// The patterns that are no numbers: those past the pattern of infinity, of
/// either sign.
pub proof fn nans_lie_past_infinity(v: Scalar)
    ensures
        is_nan(v) == (0x7f80_0000 < v < 0x8000_0000 || 0xff80_0000 < v),
{
}

/// The first patterns count the smallest steps; one more in the exponent
/// doubles the value; the top bit negates it.
pub proof fn exponents_double(v: Scalar)
    ensures
        v < 0x100_0000 ==> value(v) == v,
        0x80_0000 <= v < 0x7f00_0000 ==> value((v + 0x80_0000) as u32) == 2 * value(v),
        v < 0x8000_0000 ==> value((v + 0x8000_0000) as u32) == -value(v),
{
    lemma2_to64();
    if 0x80_0000 <= v < 0x100_0000 {
        assert(v as int / 0x80_0000 == 1);
        assert(pow2((1 - 1) as nat) == 1);
        assert(v as int % 0x80_0000 + 0x80_0000 == v);
    }
    if 0x80_0000 <= v < 0x7f00_0000 {
        let e = v as int / 0x80_0000;
        let f = v as int % 0x80_0000;
        let w = (v + 0x80_0000) as u32;
        assert(w as int / 0x80_0000 == e + 1 && w as int % 0x80_0000 == f);
        lemma_pow2_adds(1, (e - 1) as nat);
        let q = pow2((e - 1) as nat) as int;
        assert((f + 0x80_0000) * (2 * q) == 2 * ((f + 0x80_0000) * q)) by (nonlinear_arith);
    }
}

/// Numbers without a sign are ordered as their patterns, numbers with a sign
/// the other way round, and these come before those but for the two zeros,
/// which are equal; what is not a number is not ordered at all.
pub proof fn order_follows_patterns(a: Scalar, b: Scalar)
    ensures
        a <= 0x7f80_0000 && b <= 0x7f80_0000 ==> less(a, b) == (a < b) && at_most(a, b) == (a <= b),
        0x8000_0000 <= a <= 0xff80_0000 && 0x8000_0000 <= b <= 0xff80_0000 ==> less(a, b) == (a > b)
            && at_most(a, b) == (a >= b),
        0x8000_0000 <= a <= 0xff80_0000 && b <= 0x7f80_0000 ==> {
            &&& less(a, b) == !(a == 0x8000_0000 && b == 0)
            &&& at_most(a, b)
            &&& !less(b, a)
            &&& at_most(b, a) == (a == 0x8000_0000 && b == 0)
        },
        0x7f80_0000 < a < 0x8000_0000 || 0xff80_0000 < a ==> {
            &&& !less(a, b)
            &&& !less(b, a)
            &&& !at_most(a, b)
            &&& !at_most(b, a)
        },
{
    lemma_key_order(a, b);
    lemma_key_order(b, a);
}

/// The smaller and the larger of two numbers are two of them, in their order,
/// and the first of equals; of a number and what is none, both are the number.
pub proof fn extremes_are_of_the_two(a: Scalar, b: Scalar)
    ensures
        !is_nan(a) && !is_nan(b) ==> {
            &&& value(a) <= value(b) ==> lesser(a, b) == a
            &&& value(a) > value(b) ==> lesser(a, b) == b
            &&& value(a) >= value(b) ==> greater(a, b) == a
            &&& value(a) < value(b) ==> greater(a, b) == b
        },
        is_nan(a) ==> lesser(a, b) == b && greater(a, b) == b,
        is_nan(b) && !is_nan(a) ==> lesser(a, b) == a && greater(a, b) == a,
{
}

/// Where the bounds are not in their order, the lower one wins over the upper;
/// a bound that is not a number is none.
pub proof fn clamp_prefers_the_lower_bound(v: Scalar, a: Scalar, b: Scalar)
    ensures
        !is_nan(a) && !is_nan(b) && value(a) > value(b) ==> clamped(v, a, b) == a,
        !is_nan(v) && is_nan(a) && !is_nan(b) ==> clamped(v, a, b) == (if value(v) <= value(b) {
            v
        } else {
            b
        }),
        !is_nan(v) && is_nan(b) && !is_nan(a) ==> clamped(v, a, b) == (if value(v) >= value(a) {
            v
        } else {
            a
        }),
        is_nan(a) && is_nan(b) && !is_nan(v) ==> clamped(v, a, b) == v,
{
}

proof fn lemma_magnitude_increases(m: int, n: int)
    requires
        0 <= m < n,
    ensures
        0 <= magnitude_value(m) < magnitude_value(n),
{
    let e = m / 0x80_0000;
    let f = m % 0x80_0000;
    let d = n / 0x80_0000;
    let g = n % 0x80_0000;
    if d > 0 {
        let q = pow2((d - 1) as nat) as int;
        lemma_pow2_pos((d - 1) as nat);
        assert((g + 0x80_0000) * q >= 0x80_0000 * q) by (nonlinear_arith)
            requires
                g >= 0,
                q > 0,
        ;
        if e > 0 {
            let p = pow2((e - 1) as nat) as int;
            lemma_pow2_pos((e - 1) as nat);
            assert(0 <= (f + 0x80_0000) * p) by (nonlinear_arith)
                requires
                    f >= 0,
                    p > 0,
            ;
            if e == d {
                assert((f + 0x80_0000) * p < (g + 0x80_0000) * p) by (nonlinear_arith)
                    requires
                        f < g,
                        p > 0,
                ;
            } else {
                lemma2_to64();
                lemma_pow2_adds(1, (e - 1) as nat);
                if e < d - 1 {
                    lemma_pow2_strictly_increases(e as nat, (d - 1) as nat);
                }
                assert((f + 0x80_0000) * p < 0x80_0000 * (2 * p)) by (nonlinear_arith)
                    requires
                        f < 0x80_0000,
                        p > 0,
                ;
            }
        }
    }
}

proof fn lemma_key_order(a: Scalar, b: Scalar)
    ensures
        key(a) < key(b) <==> value(a) < value(b),
{
    let m = magnitude(a);
    let n = magnitude(b);
    if m < n {
        lemma_magnitude_increases(m, n);
    } else if n < m {
        lemma_magnitude_increases(n, m);
    }
    if m > 0 {
        lemma_magnitude_increases(0, m);
    }
    if n > 0 {
        lemma_magnitude_increases(0, n);
    }
}

/// A pattern whose significand is `n * 2^k`, and whose exponent takes those
/// `k` places back, stands for the whole number `n`.
pub proof fn lemma_whole_value(v: Scalar, n: int, k: nat)
    requires
        k <= 23,
        v < 0x7f80_0000,
        v as int / 0x80_0000 == 150 - k,
        v as int % 0x80_0000 + 0x80_0000 == n * pow2(k),
    ensures
        !is_nan(v),
        value(v) == whole(n),
{
    lemma_pow2_adds(k, (149 - k) as nat);
    assert((n * pow2(k)) * pow2((149 - k) as nat) == n * (pow2(k) * pow2((149 - k) as nat)))
        by (nonlinear_arith);
}

} // verus!

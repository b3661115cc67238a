//! What the bit patterns of single precision numbers tell about the numbers.
use crate::float32::{lemma_magnitude_orders_like_bits, Float32};
use vstd::arithmetic::power2::{lemma_pow2_unfold, pow2};
use vstd::prelude::*;

verus! {

/// A pattern denotes no number exactly if it lies beyond the one of infinity,
/// the sign left aside; the sign is the highest bit.
pub proof fn law_patterns_beyond_infinity_are_no_numbers(a: Float32)
    ensures
        a.is_not_a_number() <==> a.bits % 0x8000_0000 > 0x7f80_0000,
        a.is_negative() <==> a.bits / 0x8000_0000 == 1,
        a.is_negative() ==> a.value() == -a.magnitude(),
        !a.is_negative() ==> a.value() == a.magnitude(),
{
}

/// Counting the patterns up counts the numbers up: zero comes first, and each
/// number lies one step of its binade above the one before, with steps that are
/// twice as wide from binade to binade. The sign makes no difference to the
/// magnitude.
pub proof fn law_patterns_count_the_numbers_up(a: Float32)
    requires
        a.bits < 0x7f80_0000,
    ensures
        (Float32 { bits: 0 }).magnitude() == 0,
        (Float32 { bits: (a.bits + 1) as u32 }).magnitude() == a.magnitude() + pow2(
            if a.bits < 0x80_0000 {
                0
            } else {
                (a.bits as nat / 0x80_0000 - 1) as nat
            },
        ),
        (Float32 { bits: (a.bits + 0x8000_0000) as u32 }).magnitude() == a.magnitude(),
{
    let next = Float32 { bits: (a.bits + 1) as u32 };
    let e = a.exponent();
    let f = a.fraction();
    vstd::arithmetic::power2::lemma2_to64();
    assert(a.bits == e * 0x80_0000 + f);
    if f + 1 < 0x80_0000 {
        assert(next.exponent() == e && next.fraction() == f + 1);
        if e > 0 {
            let p = pow2((e - 1) as nat);
            assert((0x80_0000 + (f + 1)) * p == (0x80_0000 + f) * p + p) by (nonlinear_arith);
        }
    } else {
        assert(next.exponent() == e + 1 && next.fraction() == 0);
        if e > 0 {
            let p = pow2((e - 1) as nat);
            lemma_pow2_unfold(e);
            assert(pow2(e) == 2 * p);
            assert(0x80_0000 * (2 * p) == 0xff_ffff * p + p) by (nonlinear_arith);
            assert(next.magnitude() == 0x80_0000 * pow2(e));
            assert(a.magnitude() == 0xff_ffff * p);
        } else {
            assert(next.magnitude() == 0x80_0000 * pow2(0));
        }
    }
    lemma_magnitude_orders_like_bits(Float32 { bits: (a.bits + 0x8000_0000) as u32 }, a);
}

/// Two patterns denote the same number if they are the same, and both zeros do;
/// what is not a number is the same as nothing.
pub proof fn law_equal_numbers_have_equal_patterns(a: Float32, b: Float32)
    ensures
        a.same_number(b) <==> {
            &&& a.bits % 0x8000_0000 <= 0x7f80_0000
            &&& b.bits % 0x8000_0000 <= 0x7f80_0000
            &&& a.bits == b.bits || (a.bits % 0x8000_0000 == 0 && b.bits % 0x8000_0000 == 0)
        },
{
    lemma_magnitude_orders_like_bits(a, b);
    lemma_magnitude_orders_like_bits(b, a);
    lemma_magnitude_orders_like_bits(Float32 { bits: 0 }, a);
    lemma_magnitude_orders_like_bits(Float32 { bits: 0 }, b);
    assert((Float32 { bits: 0 }).magnitude() == 0);
}

/// Without their signs, patterns compare as the numbers do.
pub proof fn law_larger_numbers_have_larger_patterns(a: Float32, limit: Float32)
    ensures
        a.lies_beyond(limit) <==> limit.bits % 0x8000_0000 < a.bits % 0x8000_0000 <= 0x7f80_0000,
{
    lemma_magnitude_orders_like_bits(a, limit);
    lemma_magnitude_orders_like_bits(limit, a);
}

/// Two singles lie less than the machine epsilon from 1: the number itself and
/// the one just below.
pub proof fn law_two_singles_are_about_one(a: Float32)
    ensures
        a.is_within_epsilon_of_one() <==> a.bits == 0x3f80_0000 || a.bits + 1 == 0x3f80_0000,
{
    crate::float32::lemma_singles_around_one(a);
}

} // verus!

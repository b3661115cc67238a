//! IEEE 754 single precision numbers, held by their bit patterns.
//!
//! Settings and head positions reach the stream as 32-bit floats. The library
//! never calculates with them: it carries them, compares them, and asks how far
//! from the origin they lie. The bit pattern answers all of these.
//!
//! Contracts speak of the number that a pattern denotes, counted in units of
//! two to the power of -149, the smallest positive single. In these units every
//! finite single is a whole number.
use vstd::arithmetic::power2::{
    lemma_pow2_pos, lemma_pow2_strictly_increases, lemma_pow2_unfold, pow2,
};
use vstd::prelude::*;

verus! {

/// A single precision number. `==` on this type compares bit patterns; the
/// numeric comparison is [`Float32::equals`].
#[derive(Clone, Copy, Debug, PartialEq, Eq, Structural)]
pub struct Float32 {
    /// The pattern that `f32::to_bits` gives.
    pub bits: u32,
}

/// The number 1, in units of the smallest positive single.
pub open spec fn one_in_units() -> nat {
    pow2(149)
}

/// The machine epsilon of single precision, the distance from 1 to the next
/// larger single, in units of the smallest positive single.
pub open spec fn epsilon_in_units() -> nat {
    pow2(126)
}

/// Where an infinity stands, in units of the smallest positive single.
pub open spec fn infinity_in_units() -> nat {
    0x80_0000 * pow2(254)
}

impl Float32 {
    /// Whether the sign bit is set.
    pub open spec fn is_negative(self) -> bool {
        self.bits >= 0x8000_0000
    }

    /// The eight exponent bits.
    pub open spec fn exponent(self) -> nat {
        (self.bits as nat / 0x80_0000) % 256
    }

    /// The 23 fraction bits.
    pub open spec fn fraction(self) -> nat {
        self.bits as nat % 0x80_0000
    }

    /// Whether the pattern denotes no number at all.
    pub open spec fn is_not_a_number(self) -> bool {
        self.exponent() == 255 && self.fraction() != 0
    }

    /// The absolute value. An infinity counts as the power of two that follows
    /// the largest finite single.
    pub open spec fn magnitude(self) -> nat {
        if self.exponent() == 0 {
            self.fraction()
        } else {
            (0x80_0000 + self.fraction()) * pow2((self.exponent() - 1) as nat)
        }
    }

    /// The number that the pattern denotes, if it denotes one.
    pub open spec fn value(self) -> int {
        if self.is_negative() {
            -(self.magnitude() as int)
        } else {
            self.magnitude() as int
        }
    }

    /// Whether the two patterns denote the same number. Both zeros are one
    /// number, and what is not a number equals nothing, itself included.
    pub open spec fn same_number(self, other: Float32) -> bool {
        &&& !self.is_not_a_number()
        &&& !other.is_not_a_number()
        &&& self.value() == other.value()
    }

    /// Whether the number lies less than the machine epsilon away from 1.
    pub open spec fn is_within_epsilon_of_one(self) -> bool {
        &&& !self.is_not_a_number()
        &&& -(epsilon_in_units() as int) < self.value() - one_in_units() < epsilon_in_units()
    }

    /// Whether the number is farther from zero than `limit` is.
    pub open spec fn lies_beyond(self, limit: Float32) -> bool {
        &&& !self.is_not_a_number()
        &&& self.magnitude() > limit.magnitude()
    }

    /// The pattern of twice the number: the exponent goes up by one. The small
    /// numbers below the first exponent are doubled in their fraction, and from
    /// half the largest power of two on the result is infinite.
    pub open spec fn doubled(self) -> Float32 {
        let unsigned = self.bits % 0x8000_0000;
        if unsigned >= 0x7f80_0000 {
            self
        } else if unsigned >= 0x7f00_0000 {
            Float32 { bits: (self.bits - unsigned + 0x7f80_0000) as u32 }
        } else if unsigned >= 0x80_0000 {
            Float32 { bits: (self.bits + 0x80_0000) as u32 }
        } else {
            Float32 { bits: (self.bits + unsigned) as u32 }
        }
    }

    /// Twice the number, as `* 2.0` on `f32`. Every result is exact, except that
    /// it is infinite where twice the number is too large.
    pub fn double(&self) -> (r: Float32)
        ensures
            r == self.doubled(),
            r.is_not_a_number() == self.is_not_a_number(),
            r.is_negative() == self.is_negative(),
            !self.is_not_a_number() ==> r.magnitude() == if 2 * self.magnitude()
                <= infinity_in_units() {
                2 * self.magnitude()
            } else {
                infinity_in_units()
            },
    {
        let unsigned: u32 = self.bits % 0x8000_0000;
        proof {
            lemma_doubled(*self);
        }
        if unsigned >= 0x7f80_0000 {
            *self
        } else if unsigned >= 0x7f00_0000 {
            Float32 { bits: self.bits - unsigned + 0x7f80_0000 }
        } else if unsigned >= 0x80_0000 {
            Float32 { bits: self.bits + 0x80_0000 }
        } else {
            Float32 { bits: self.bits + unsigned }
        }
    }

    /// Whether the pattern denotes no number at all.
    pub fn is_nan(&self) -> (r: bool)
        ensures
            r == self.is_not_a_number(),
    {
        self.bits % 0x8000_0000 > 0x7f80_0000
    }

    /// Numeric equality, as `==` on `f32`.
    pub fn equals(&self, other: &Float32) -> (r: bool)
        ensures
            r == self.same_number(*other),
    {
        let this: u32 = self.bits % 0x8000_0000;
        let that: u32 = other.bits % 0x8000_0000;
        proof {
            lemma_magnitude_orders_like_bits(*self, *other);
            lemma_magnitude_orders_like_bits(*other, *self);
            lemma_zero_magnitude(*self);
            lemma_zero_magnitude(*other);
        }
        !self.is_nan() && !other.is_nan() && (self.bits == other.bits || (this == 0 && that == 0))
    }

    /// Whether the number lies less than the machine epsilon away from 1.
    ///
    /// Two singles do: 1 itself, and the largest single below it, which lies
    /// half an epsilon away.
    pub fn is_about_one(&self) -> (r: bool)
        ensures
            r == self.is_within_epsilon_of_one(),
    {
        proof {
            lemma_singles_around_one(*self);
        }
        self.bits == 0x3f7f_ffff || self.bits == 0x3f80_0000
    }

    /// Whether the absolute value exceeds that of `limit`.
    pub fn magnitude_exceeds(&self, limit: &Float32) -> (r: bool)
        ensures
            r == self.lies_beyond(*limit),
    {
        proof {
            lemma_magnitude_orders_like_bits(*self, *limit);
            lemma_magnitude_orders_like_bits(*limit, *self);
        }
        !self.is_nan() && self.bits % 0x8000_0000 > limit.bits % 0x8000_0000
    }
}

/// Without their sign bits, patterns are ordered as the absolute values that
/// they denote.
pub proof fn lemma_magnitude_orders_like_bits(a: Float32, b: Float32)
    ensures
        a.bits % 0x8000_0000 < b.bits % 0x8000_0000 ==> a.magnitude() < b.magnitude(),
        a.bits % 0x8000_0000 == b.bits % 0x8000_0000 ==> a.magnitude() == b.magnitude(),
{
    let (ea, eb) = (a.exponent(), b.exponent());
    let (fa, fb) = (a.fraction(), b.fraction());
    assert(a.bits % 0x8000_0000 == ea * 0x80_0000 + fa);
    assert(b.bits % 0x8000_0000 == eb * 0x80_0000 + fb);
    if a.bits % 0x8000_0000 < b.bits % 0x8000_0000 {
        if ea == eb {
            if ea > 0 {
                let p = pow2((ea - 1) as nat);
                lemma_pow2_pos((ea - 1) as nat);
                assert((0x80_0000 + fa) * p < (0x80_0000 + fb) * p) by (nonlinear_arith)
                    requires
                        fa < fb,
                        p > 0,
                ;
            }
        } else {
            let q = pow2((eb - 1) as nat);
            lemma_pow2_pos((eb - 1) as nat);
            assert(0x80_0000 * q <= b.magnitude()) by (nonlinear_arith)
                requires
                    q > 0,
                    b.magnitude() == (0x80_0000 + fb) * q,
            ;
            if ea > 0 {
                let p = pow2((ea - 1) as nat);
                lemma_pow2_pos((ea - 1) as nat);
                lemma_pow2_unfold(ea);
                assert(2 * p <= q) by {
                    if ea < eb - 1 {
                        lemma_pow2_strictly_increases(ea, (eb - 1) as nat);
                    }
                }
                assert((0x80_0000 + fa) * p < 0x80_0000 * q) by (nonlinear_arith)
                    requires
                        fa < 0x80_0000,
                        p > 0,
                        2 * p <= q,
                ;
            }
        }
    }
}

/// A pattern denotes zero exactly if nothing but its sign bit is set.
proof fn lemma_zero_magnitude(a: Float32)
    ensures
        (a.bits % 0x8000_0000 == 0) == (a.magnitude() == 0),
{
    lemma_magnitude_orders_like_bits(Float32 { bits: 0 }, a);
}

/// Doubling a pattern doubles the number that it denotes, up to infinity.
pub proof fn lemma_doubled(a: Float32)
    ensures
        a.doubled().is_not_a_number() == a.is_not_a_number(),
        a.doubled().is_negative() == a.is_negative(),
        !a.is_not_a_number() ==> a.doubled().magnitude() == if 2 * a.magnitude()
            <= infinity_in_units() {
            2 * a.magnitude()
        } else {
            infinity_in_units()
        },
{
    let e = a.exponent();
    let f = a.fraction();
    let r = a.doubled();
    let unsigned = a.bits % 0x8000_0000;
    assert(unsigned == e * 0x80_0000 + f);
    let infinity = Float32 { bits: 0x7f80_0000 };
    lemma_pow2_pos(254);
    assert(infinity.magnitude() == infinity_in_units());
    if unsigned >= 0x7f80_0000 {
        lemma_magnitude_orders_like_bits(infinity, a);
    } else if unsigned >= 0x80_0000 {
        let p = pow2((e - 1) as nat);
        lemma_pow2_unfold(e);
        assert((0x80_0000 + f) * (2 * p) == 2 * ((0x80_0000 + f) * p)) by (nonlinear_arith);
        assert(pow2(e) == 2 * p);
        if unsigned >= 0x7f00_0000 {
            assert((0x80_0000 + f) * (2 * p) >= 0x80_0000 * (2 * p)) by (nonlinear_arith);
            assert(r.exponent() == 255 && r.fraction() == 0);
        } else {
            assert(r.exponent() == e + 1 && r.fraction() == f);
            lemma_magnitude_orders_like_bits(r, infinity);
        }
    } else {
        vstd::arithmetic::power2::lemma2_to64();
        lemma_magnitude_orders_like_bits(r, infinity);
        if 2 * f < 0x80_0000 {
            assert(r.exponent() == 0 && r.fraction() == 2 * f);
        } else {
            assert(r.exponent() == 1 && r.fraction() == 2 * f - 0x80_0000);
            assert((2 * f) * pow2(0) == 2 * f) by (nonlinear_arith)
                requires
                    pow2(0) == 1,
            ;
        }
    }
}

/// The singles on both sides of 1 and their distances from it.
pub proof fn lemma_singles_around_one(a: Float32)
    ensures
        a.is_within_epsilon_of_one() == (a.bits == 0x3f7f_ffff || a.bits == 0x3f80_0000),
{
    let above = Float32 { bits: 0x3f80_0001 };
    let one = Float32 { bits: 0x3f80_0000 };
    let half_below = Float32 { bits: 0x3f7f_ffff };
    let below = Float32 { bits: 0x3f7f_fffe };
    let eps = pow2(126);
    lemma_pow2_pos(126);
    lemma_pow2_pos(125);
    lemma_pow2_unfold(126);
    lemma_pow2_product(126, 23);
    assert(one_in_units() == 0x80_0000 * eps);
    assert(one.magnitude() == 0x80_0000 * eps);
    assert(above.magnitude() == 0x80_0001 * eps);
    assert(half_below.magnitude() == 0xff_ffff * pow2(125));
    assert(below.magnitude() == 0xff_fffe * pow2(125));
    lemma_magnitude_orders_like_bits(above, a);
    lemma_magnitude_orders_like_bits(a, below);
}

/// A power of two splits into a product, with the second factor small enough to
/// be written out.
pub proof fn lemma_pow2_product(n: nat, k: nat)
    ensures
        k == 23 ==> pow2(n + k) == 0x80_0000 * pow2(n),
        k == 33 ==> pow2(n + k) == 0x2_0000_0000 * pow2(n),
{
    vstd::arithmetic::power2::lemma_pow2_adds(n, k);
    vstd::arithmetic::power2::lemma2_to64();
    vstd::arithmetic::power2::lemma2_to64_rest();
    assert(pow2(n) * pow2(k) == pow2(k) * pow2(n)) by (nonlinear_arith);
}

} // verus!

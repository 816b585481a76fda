//! The numbers that the patterns stand for.
//!
//! Without its sign a pattern is an exponent field of eight bits above a
//! fraction field of twenty-three. With the exponent field at 255 it is an
//! infinity or a NaN. Below that it is a finite number: the fraction alone
//! where the exponent field is zero, and the fraction under a leading one,
//! doubled once for each step of the exponent field above one, otherwise;
//! either way in units of 2⁻¹⁴⁹. This module proves that the order of ranks,
//! by which the library compares, is the order of these numbers, and that
//! the constants of the library are the patterns of the numbers they are
//! named after.
use crate::render::TWO_PI;
use crate::scalar::{Scalar, INFINITY, ONE, SIGN_BIT, ZERO};
use crate::EPSILON;
use vstd::arithmetic::power2::{lemma2_to64, lemma_pow2_pos, lemma_pow2_strictly_increases, pow2};
use vstd::prelude::*;

verus! {

/// The number of fractions: 2²³, the weight of the exponent field within a
/// magnitude and the leading one of a normal number.
pub const FRACTION_RANGE: u32 = 0x0080_0000;

impl Scalar {
    /// The exponent field of the pattern.
    pub open spec fn exponent(self) -> int {
        self.magnitude() / (FRACTION_RANGE as int)
    }

    /// The fraction field of the pattern.
    pub open spec fn fraction(self) -> int {
        self.magnitude() % (FRACTION_RANGE as int)
    }

    /// Whether the pattern stands for a finite number.
    pub open spec fn is_finite(self) -> bool {
        self.magnitude() < INFINITY
    }

    /// Whether the pattern stands for an infinity.
    pub open spec fn is_infinite(self) -> bool {
        self.magnitude() == INFINITY
    }

    /// The size of a finite number, in units of 2⁻¹⁴⁹.
    pub open spec fn size(self) -> int {
        if self.exponent() == 0 {
            self.fraction()
        } else {
            (FRACTION_RANGE + self.fraction()) * pow2((self.exponent() - 1) as nat)
        }
    }

    /// A finite number, in units of 2⁻¹⁴⁹.
    pub open spec fn value(self) -> int {
        if self.negative() {
            -self.size()
        } else {
            self.size()
        }
    }

    /// The distance from a finite number to the next of greater size, in
    /// units of 2⁻¹⁴⁹.
    pub open spec fn unit_in_last_place(self) -> int {
        if self.exponent() == 0 {
            1
        } else {
            pow2((self.exponent() - 1) as nat) as int
        }
    }
}

/// A product of two numbers that are not negative grows with each of them.
proof fn lemma_product_grows(a: int, b: int, c: int, d: int)
    requires
        0 <= a <= c,
        0 <= b <= d,
    ensures
        a * b <= c * d,
{
    assert(a * b <= c * b) by (nonlinear_arith)
        requires
            0 <= a <= c,
            0 <= b,
    ;
    assert(c * b <= c * d) by (nonlinear_arith)
        requires
            0 <= c,
            0 <= b <= d,
    ;
}

/// Of two finite patterns without sign, the lesser stands for the lesser
/// size.
pub proof fn lemma_size_grows_with_magnitude(a: Scalar, b: Scalar)
    requires
        a.is_finite(),
        b.is_finite(),
        a.magnitude() < b.magnitude(),
    ensures
        a.size() < b.size(),
{
    let range = FRACTION_RANGE as int;
    let (ea, fa) = (a.exponent(), a.fraction());
    let (eb, fb) = (b.exponent(), b.fraction());
    assert(a.magnitude() == ea * range + fa && 0 <= fa < range && 0 <= ea) by {
        vstd::arithmetic::div_mod::lemma_fundamental_div_mod(a.magnitude(), range);
        vstd::arithmetic::div_mod::lemma_div_pos_is_pos(a.magnitude(), range);
        assert(range * ea == ea * range) by (nonlinear_arith);
    }
    assert(b.magnitude() == eb * range + fb && 0 <= fb < range && 0 <= eb) by {
        vstd::arithmetic::div_mod::lemma_fundamental_div_mod(b.magnitude(), range);
        vstd::arithmetic::div_mod::lemma_div_pos_is_pos(b.magnitude(), range);
        assert(range * eb == eb * range) by (nonlinear_arith);
    }
    assert(ea <= eb) by {
        if ea > eb {
            assert(ea * range >= (eb + 1) * range) by (nonlinear_arith)
                requires
                    ea >= eb + 1,
                    range > 0,
            ;
            assert((eb + 1) * range == eb * range + range) by (nonlinear_arith);
        }
    }
    if ea == eb {
        assert(fa < fb);
        if ea > 0 {
            let p = pow2((ea - 1) as nat) as int;
            lemma_pow2_pos((ea - 1) as nat);
            assert((range + fa) * p < (range + fb) * p) by (nonlinear_arith)
                requires
                    fa < fb,
                    p > 0,
            ;
        }
    } else {
        // The size of `a` stays below the least size of the next exponent.
        let q = pow2((eb - 1) as nat) as int;
        lemma_pow2_pos((eb - 1) as nat);
        assert(range * q <= (range + fb) * q) by (nonlinear_arith)
            requires
                0 <= fb,
                q > 0,
        ;
        if ea == 0 {
            assert(range * 1 <= range * q) by (nonlinear_arith)
                requires
                    q >= 1,
                    range > 0,
            ;
        } else {
            let p = pow2((ea - 1) as nat) as int;
            lemma_pow2_pos((ea - 1) as nat);
            let doubled = pow2(ea as nat) as int;
            vstd::arithmetic::power2::lemma_pow2_unfold(ea as nat);
            assert(doubled == 2 * p);
            assert((range + fa) * p < (2 * range) * p) by (nonlinear_arith)
                requires
                    fa < range,
                    p > 0,
            ;
            assert((2 * range) * p == range * doubled) by (nonlinear_arith)
                requires
                    doubled == 2 * p,
            ;
            assert(doubled <= q) by {
                if ea < eb - 1 {
                    lemma_pow2_strictly_increases(ea as nat, (eb - 1) as nat);
                }
            }
            lemma_product_grows(range, doubled, range, q);
        }
    }
}

/// The order of ranks is the order of the numbers: of two finite patterns,
/// one has the lesser rank exactly if it stands for the lesser number, and
/// the two have one rank exactly if they stand for one number.
pub proof fn lemma_rank_orders_as_value(a: Scalar, b: Scalar)
    requires
        a.is_finite(),
        b.is_finite(),
    ensures
        a.rank() < b.rank() <==> a.value() < b.value(),
        a.rank() == b.rank() <==> a.value() == b.value(),
{
    lemma_size_is_zero_for_zero_only(a);
    lemma_size_is_zero_for_zero_only(b);
    if a.magnitude() < b.magnitude() {
        lemma_size_grows_with_magnitude(a, b);
    } else if b.magnitude() < a.magnitude() {
        lemma_size_grows_with_magnitude(b, a);
    }
}

/// The comparisons of the library are those of the numbers: of two finite
/// patterns, one is less than, at most, or the same number as the other
/// exactly if the number it stands for is.
pub proof fn lemma_comparisons_are_those_of_values(a: Scalar, b: Scalar)
    requires
        a.is_finite(),
        b.is_finite(),
    ensures
        a.spec_lt(b) <==> a.value() < b.value(),
        a.spec_le(b) <==> a.value() <= b.value(),
        a.same_number(b) <==> a.value() == b.value(),
{
    lemma_rank_orders_as_value(a, b);
}

/// A finite pattern stands for a size that is not negative, and for zero
/// only if it is one of the two zeros.
pub proof fn lemma_size_is_zero_for_zero_only(a: Scalar)
    requires
        a.is_finite(),
    ensures
        a.size() >= 0,
        a.size() == 0 <==> a.magnitude() == 0,
{
    let range = FRACTION_RANGE as int;
    vstd::arithmetic::div_mod::lemma_fundamental_div_mod(a.magnitude(), range);
    vstd::arithmetic::div_mod::lemma_div_pos_is_pos(a.magnitude(), range);
    if a.exponent() != 0 {
        let p = pow2((a.exponent() - 1) as nat) as int;
        lemma_pow2_pos((a.exponent() - 1) as nat);
        assert((range + a.fraction()) * p > 0) by (nonlinear_arith)
            requires
                range + a.fraction() > 0,
                p > 0,
        ;
        assert(range * a.exponent() != 0) by (nonlinear_arith)
            requires
                a.exponent() != 0,
                range > 0,
        ;
    } else {
        assert(range * a.exponent() == 0) by (nonlinear_arith)
            requires
                a.exponent() == 0,
        ;
    }
}

/// The two infinities bound the finite numbers: every finite pattern has a
/// rank between theirs.
pub proof fn lemma_infinities_bound_the_finite(a: Scalar)
    requires
        a.is_finite(),
    ensures
        (Scalar { bits: (SIGN_BIT + INFINITY) as u32 }).rank() < a.rank() < (Scalar {
            bits: INFINITY,
        }).rank(),
{
}

/// `ZERO` and the sign bit alone are the patterns of zero.
pub proof fn lemma_zero_is_zero()
    ensures
        (Scalar { bits: ZERO }).value() == 0,
        (Scalar { bits: SIGN_BIT }).value() == 0,
{
}

/// `ONE` is the pattern of one, which is 2¹⁴⁹ units.
pub proof fn lemma_one_is_one()
    ensures
        (Scalar { bits: ONE }).is_finite(),
        (Scalar { bits: ONE }).value() == pow2(149),
{
    let one = Scalar { bits: ONE };
    assert(one.exponent() == 127 && one.fraction() == 0);
    lemma2_to64();
    vstd::arithmetic::power2::lemma_pow2_adds(23, 126);
}

/// `EPSILON` is the pattern of the single-precision number nearest to one
/// ten-thousandth: ten thousand times its number differs from one by no
/// more than ten thousand times half a unit in its last place.
pub proof fn lemma_epsilon_is_a_ten_thousandth()
    ensures
        (Scalar { bits: EPSILON }).is_finite(),
        !(Scalar { bits: EPSILON }).negative(),
        2 * (pow2(149) - 10000 * (Scalar { bits: EPSILON }).value()) <= 10000 * (Scalar {
            bits: EPSILON,
        }).unit_in_last_place(),
        10000 * (Scalar { bits: EPSILON }).value() <= pow2(149),
{
    let epsilon = Scalar { bits: EPSILON };
    assert(epsilon.exponent() == 113 && epsilon.fraction() == 5355287);
    let unit = pow2(112) as int;
    assert(epsilon.value() == 13743895 * unit);
    lemma2_to64();
    vstd::arithmetic::power2::lemma2_to64_rest();
    vstd::arithmetic::power2::lemma_pow2_adds(37, 112);
    assert(pow2(149) == 137438953472 * unit);
    lemma_pow2_pos(112);
    assert(10000 * (13743895 * unit) == 137438950000 * unit) by (nonlinear_arith);
    assert(2 * (137438953472 * unit - 137438950000 * unit) == 6944 * unit) by (nonlinear_arith);
    assert(6944 * unit <= 10000 * unit) by (nonlinear_arith)
        requires
            unit > 0,
    ;
    assert(137438950000 * unit <= 137438953472 * unit) by (nonlinear_arith)
        requires
            unit > 0,
    ;
}

/// `TWO_PI` is the pattern of the single-precision number nearest to 2π:
/// its number differs by less than half a unit in its last place from twice
/// any fraction `n / d` between 3.14159265 and 3.14159266, as π is.
pub proof fn lemma_two_pi_is_two_pi(n: int, d: int)
    requires
        d > 0,
        314159265 * d < 100000000 * n,
        100000000 * n < 314159266 * d,
    ensures
        (Scalar { bits: TWO_PI }).is_finite(),
        !(Scalar { bits: TWO_PI }).negative(),
        2 * (d * (Scalar { bits: TWO_PI }).value() - 2 * n * pow2(149)) < d * (Scalar {
            bits: TWO_PI,
        }).unit_in_last_place(),
        2 * n * pow2(149) < d * (Scalar { bits: TWO_PI }).value(),
{
    let two_pi = Scalar { bits: TWO_PI };
    assert(two_pi.exponent() == 129 && two_pi.fraction() == 4788187);
    let unit = pow2(128) as int;
    assert(two_pi.value() == 13176795 * unit);
    assert(two_pi.unit_in_last_place() == unit);
    lemma2_to64();
    vstd::arithmetic::power2::lemma_pow2_adds(21, 128);
    assert(pow2(149) == 2097152 * unit);
    lemma_pow2_pos(128);
    // In units of `unit`: the number is 13176795 d, and twice n / d is 4194304 n.
    let gap = 13176795 * d - 4194304 * n;
    assert(0 < gap && 2 * gap < d);
    assert(d * (13176795 * unit) - 2 * n * (2097152 * unit) == gap * unit) by (nonlinear_arith)
        requires
            gap == 13176795 * d - 4194304 * n,
    ;
    assert(2 * (gap * unit) < d * unit) by (nonlinear_arith)
        requires
            2 * gap < d,
            unit > 0,
    ;
    assert(0 < gap * unit) by (nonlinear_arith)
        requires
            0 < gap,
            unit > 0,
    ;
}

} // verus!

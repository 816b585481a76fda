//! Single-precision numbers by their bit patterns.
//!
//! A pattern has a sign bit, eight exponent bits and twenty-three fraction
//! bits. Read without the sign, the patterns up to `INFINITY` grow with the
//! magnitudes they stand for, and every pattern above it is a NaN. The order
//! of two numbers is therefore the order of their ranks: the magnitude,
//! taken negative under a set sign bit.
//!
//! In executable code `==`, `<`, `<=`, `>` and `>=` compare two scalars as
//! numbers. In contracts `==` is the equality of patterns, and the order of
//! numbers is written `spec_lt`, `spec_le`, `spec_gt`, `spec_ge` and
//! `same_number`.
use std::cmp::Ordering;
use vstd::prelude::*;
use vstd::std_specs::cmp::PartialEqSpecImpl;
use vstd::std_specs::cmp::PartialOrdSpecImpl;

verus! {

/// The sign bit of a pattern.
pub const SIGN_BIT: u32 = 0x8000_0000;

/// Every bit of a pattern but the sign.
pub const MAGNITUDE_MASK: u32 = 0x7FFF_FFFF;

/// The pattern of positive infinity: the greatest magnitude that is a number.
pub const INFINITY: u32 = 0x7F80_0000;

/// The pattern of positive zero.
pub const ZERO: u32 = 0x0000_0000;

/// The pattern of one.
pub const ONE: u32 = 0x3F80_0000;

/// A single-precision number, held as its bit pattern.
#[derive(Clone, Copy, Debug)]
pub struct Scalar {
    pub bits: u32,
}

impl Scalar {
    /// Whether the sign bit is set.
    pub open spec fn negative(self) -> bool {
        self.bits >= SIGN_BIT
    }

    /// The pattern without its sign bit.
    pub open spec fn magnitude(self) -> int {
        if self.negative() {
            self.bits - SIGN_BIT
        } else {
            self.bits as int
        }
    }

    /// Whether the pattern stands for no number.
    pub open spec fn spec_is_nan(self) -> bool {
        self.magnitude() > INFINITY
    }

    /// The place of the number on the line: both zeros have rank 0, and of
    /// two numbers the lesser has the lesser rank.
    pub open spec fn rank(self) -> int {
        if self.negative() {
            -self.magnitude()
        } else {
            self.magnitude()
        }
    }

    /// `self < other`: false whenever either side is a NaN.
    pub open spec fn spec_lt(self, other: Scalar) -> bool {
        !self.spec_is_nan() && !other.spec_is_nan() && self.rank() < other.rank()
    }

    /// `self <= other`: false whenever either side is a NaN.
    pub open spec fn spec_le(self, other: Scalar) -> bool {
        !self.spec_is_nan() && !other.spec_is_nan() && self.rank() <= other.rank()
    }

    /// `self > other`: false whenever either side is a NaN.
    pub open spec fn spec_gt(self, other: Scalar) -> bool {
        other.spec_lt(self)
    }

    /// `self >= other`: false whenever either side is a NaN.
    pub open spec fn spec_ge(self, other: Scalar) -> bool {
        other.spec_le(self)
    }

    /// `self == other` as numbers: a NaN equals nothing, not even itself,
    /// and the two zeros are equal.
    pub open spec fn same_number(self, other: Scalar) -> bool {
        !self.spec_is_nan() && !other.spec_is_nan() && self.rank() == other.rank()
    }

    /// How `self` compares with `other`: not at all where either is a NaN,
    /// and by rank otherwise.
    pub open spec fn comparison(self, other: Scalar) -> Option<Ordering> {
        if self.spec_is_nan() || other.spec_is_nan() {
            None
        } else if self.rank() < other.rank() {
            Some(Ordering::Less)
        } else if self.rank() > other.rank() {
            Some(Ordering::Greater)
        } else {
            Some(Ordering::Equal)
        }
    }

    /// The number without its sign.
    pub open spec fn spec_abs(self) -> Scalar {
        Scalar { bits: self.magnitude() as u32 }
    }

    /// The key of the total order on patterns: negative NaNs first, then the
    /// numbers from negative infinity to positive infinity with negative zero
    /// before positive zero, then the positive NaNs.
    pub open spec fn spec_order_key(self) -> u32 {
        if self.negative() {
            (u32::MAX - self.bits) as u32
        } else {
            (self.bits + SIGN_BIT) as u32
        }
    }

    /// Positive zero.
    pub open spec fn spec_zero() -> Scalar {
        Scalar { bits: ZERO }
    }

    /// One.
    pub open spec fn spec_one() -> Scalar {
        Scalar { bits: ONE }
    }

    /// Whether the number lies in `[0, 1]`. Negative zero does; no NaN does.
    pub open spec fn in_unit_interval(self) -> bool {
        self.spec_ge(Scalar::spec_zero()) && self.spec_le(Scalar::spec_one())
    }

    /// Positive zero.
    #[verifier::when_used_as_spec(spec_zero)]
    pub fn zero() -> (r: Scalar)
        ensures
            r == Scalar::spec_zero(),
    {
        Scalar { bits: ZERO }
    }

    /// One.
    #[verifier::when_used_as_spec(spec_one)]
    pub fn one() -> (r: Scalar)
        ensures
            r == Scalar::spec_one(),
    {
        Scalar { bits: ONE }
    }

    /// The number with the given pattern.
    pub fn from_bits(bits: u32) -> (r: Scalar)
        ensures
            r.bits == bits,
    {
        Scalar { bits }
    }

    /// The pattern of the number.
    pub fn to_bits(self) -> (r: u32)
        ensures
            r == self.bits,
    {
        self.bits
    }

    /// The pattern without its sign bit.
    fn magnitude_bits(self) -> (r: u32)
        ensures
            r == self.magnitude(),
    {
        let bits: u32 = self.bits;
        assert(bits & MAGNITUDE_MASK == if bits >= SIGN_BIT {
            (bits - SIGN_BIT) as u32
        } else {
            bits
        }) by (bit_vector);
        bits & MAGNITUDE_MASK
    }

    /// The rank, as a machine integer.
    fn signed_rank(self) -> (r: i64)
        ensures
            r == self.rank(),
    {
        let magnitude: u32 = self.magnitude_bits();
        if self.bits >= SIGN_BIT {
            -(magnitude as i64)
        } else {
            magnitude as i64
        }
    }

    /// Whether the pattern stands for no number.
    #[verifier::when_used_as_spec(spec_is_nan)]
    pub fn is_nan(self) -> (r: bool)
        ensures
            r == self.spec_is_nan(),
    {
        self.magnitude_bits() > INFINITY
    }

    /// The number without its sign.
    #[verifier::when_used_as_spec(spec_abs)]
    pub fn abs(self) -> (r: Scalar)
        ensures
            r == self.spec_abs(),
    {
        Scalar { bits: self.magnitude_bits() }
    }

    /// The key of the total order on patterns: of two patterns, the one
    /// with the lesser key comes first.
    #[verifier::when_used_as_spec(spec_order_key)]
    pub fn order_key(self) -> (r: u32)
        ensures
            r == self.spec_order_key(),
    {
        let bits: u32 = self.bits;
        assert(bits & SIGN_BIT == 0 <==> bits < SIGN_BIT) by (bit_vector);
        assert(bits < SIGN_BIT ==> bits | SIGN_BIT == (bits + SIGN_BIT) as u32) by (bit_vector);
        assert(!bits == (u32::MAX - bits) as u32) by (bit_vector);
        if bits & SIGN_BIT == 0 {
            bits | SIGN_BIT
        } else {
            !bits
        }
    }
}

impl PartialEq for Scalar {
    /// Equality of numbers: a NaN equals nothing, and the two zeros are equal.
    fn eq(&self, other: &Scalar) -> (r: bool) {
        !self.is_nan() && !other.is_nan() && self.signed_rank() == other.signed_rank()
    }
}

impl PartialEqSpecImpl for Scalar {
    open spec fn obeys_eq_spec() -> bool {
        true
    }

    open spec fn eq_spec(&self, other: &Scalar) -> bool {
        self.same_number(*other)
    }
}

impl PartialOrd for Scalar {
    /// The order of numbers: a NaN compares with nothing, and the two zeros
    /// are equal.
    fn partial_cmp(&self, other: &Scalar) -> (r: Option<Ordering>) {
        if self.is_nan() || other.is_nan() {
            None
        } else {
            let a: i64 = self.signed_rank();
            let b: i64 = other.signed_rank();
            if a < b {
                Some(Ordering::Less)
            } else if a > b {
                Some(Ordering::Greater)
            } else {
                Some(Ordering::Equal)
            }
        }
    }
}

impl PartialOrdSpecImpl for Scalar {
    open spec fn obeys_partial_cmp_spec() -> bool {
        true
    }

    open spec fn partial_cmp_spec(&self, other: &Scalar) -> Option<Ordering> {
        self.comparison(*other)
    }
}

/// The comparison of two scalars, which is what `<`, `<=`, `>` and `>=`
/// go by, is the order of numbers.
pub proof fn lemma_comparison_is_order(a: Scalar, b: Scalar)
    ensures
        a.comparison(b) == Some(Ordering::Less) <==> a.spec_lt(b),
        a.comparison(b) matches Some(Ordering::Less | Ordering::Equal) <==> a.spec_le(b),
        a.comparison(b) == Some(Ordering::Greater) <==> a.spec_gt(b),
        a.comparison(b) matches Some(Ordering::Greater | Ordering::Equal) <==> a.spec_ge(b),
        a.comparison(b) == Some(Ordering::Equal) <==> a.same_number(b),
        a.comparison(b) is None <==> a.spec_is_nan() || b.spec_is_nan(),
{
}

/// Of two numbers, the lesser has the lesser key.
pub proof fn lemma_order_key_follows_lt(a: Scalar, b: Scalar)
    requires
        a.spec_lt(b),
    ensures
        a.spec_order_key() < b.spec_order_key(),
{
}

/// The keys tell all patterns apart: the order by key is total.
pub proof fn lemma_order_key_injective(a: Scalar, b: Scalar)
    requires
        a.spec_order_key() == b.spec_order_key(),
    ensures
        a == b,
{
}

/// Where neither pattern has its sign bit set nor is a NaN, the order by key
/// is the order of the numbers.
pub proof fn lemma_order_key_of_positive(a: Scalar, b: Scalar)
    requires
        !a.negative(),
        !b.negative(),
        !a.spec_is_nan(),
        !b.spec_is_nan(),
    ensures
        a.spec_order_key() < b.spec_order_key() <==> a.spec_lt(b),
        a.spec_order_key() <= b.spec_order_key() <==> a.spec_le(b),
{
}

/// Of two patterns that are numbers, the first has the lesser key exactly if
/// it is the lesser number, or they are the two zeros with the negative one
/// first.
pub proof fn lemma_order_key_of_numbers(a: Scalar, b: Scalar)
    requires
        !a.spec_is_nan(),
        !b.spec_is_nan(),
    ensures
        a.spec_order_key() < b.spec_order_key() <==> a.spec_lt(b) || (a.bits == SIGN_BIT && b.bits
            == ZERO),
{
}

/// The order of numbers is strict and transitive, and `<=` is `<` or `==`.
pub proof fn lemma_order_of_numbers(a: Scalar, b: Scalar, c: Scalar)
    ensures
        !a.spec_lt(a),
        a.spec_lt(b) ==> !b.spec_lt(a),
        a.spec_lt(b) && b.spec_lt(c) ==> a.spec_lt(c),
        a.spec_le(b) <==> a.spec_lt(b) || a.same_number(b),
        !a.spec_is_nan() && !b.spec_is_nan() ==> a.spec_lt(b) || a.same_number(b) || b.spec_lt(a),
{
}

} // verus!

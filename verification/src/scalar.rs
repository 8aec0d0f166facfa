//! Exact rational magnitudes.
//!
//! Every CSS numeric magnitude in this crate is a `Scalar`: a numerator over
//! a positive denominator.  Keeping magnitudes rational makes the fixed-ratio
//! unit conversions of the CSS specification exact, so converting a value to
//! a compatible unit and back recovers a magnitude equal to the original.

use vstd::prelude::*;

use crate::errors::ValueError;

verus! {

/// An exact rational magnitude `num / den` with `den >= 1`.
#[derive(Clone, Copy, Debug, PartialEq, Eq, Structural)]
pub struct Scalar {
    num: i64,
    den: i64,
}

impl Scalar {
    /// The numerator.
    pub closed spec fn spec_num(self) -> int {
        self.num as int
    }

    /// The denominator.
    pub closed spec fn spec_den(self) -> int {
        self.den as int
    }

    /// Well-formed: the denominator is positive.  Every `Scalar` a caller
    /// can build satisfies this; it is also the type's invariant.
    pub open spec fn wf(self) -> bool {
        self.spec_den() >= 1
    }

    #[verifier::type_invariant]
    spec fn type_inv(self) -> bool {
        self.wf()
    }

    /// The magnitude is zero or positive.
    pub open spec fn is_nonneg(self) -> bool {
        self.spec_num() >= 0
    }

    /// The two rationals denote the same magnitude (cross multiplication).
    pub open spec fn rat_eq(self, other: Scalar) -> bool {
        self.spec_num() * other.spec_den() == other.spec_num() * self.spec_den()
    }

    /// `self <= other` as rationals; meaningful when both are well-formed.
    pub open spec fn rat_le(self, other: Scalar) -> bool {
        self.spec_num() * other.spec_den() <= other.spec_num() * self.spec_den()
    }

    /// Validating constructor: the denominator must be at least one.
    pub fn new(num: i64, den: i64) -> (r: Result<Scalar, ValueError>)
        ensures
            den >= 1 <==> r is Ok,
            r matches Ok(s) ==> s.spec_num() == num && s.spec_den() == den && s.wf(),
            r matches Err(e) ==> e == ValueError::NonPositiveDenominator,
    {
        if den >= 1 {
            Ok(Scalar { num, den })
        } else {
            Err(ValueError::NonPositiveDenominator)
        }
    }

    /// The integer `n` as a rational, at the spec level.
    pub closed spec fn spec_int(n: int) -> Scalar {
        Scalar { num: n as i64, den: 1 }
    }

    /// The integer `n` as a rational.
    pub fn from_int(n: i64) -> (r: Scalar)
        ensures
            r.spec_num() == n,
            r.spec_den() == 1,
            r.wf(),
            r == Scalar::spec_int(n as int),
    {
        Scalar { num: n, den: 1 }
    }

    /// The numerator.
    pub fn num(&self) -> (r: i64)
        ensures
            r == self.spec_num(),
    {
        self.num
    }

    /// The denominator.
    pub fn den(&self) -> (r: i64)
        ensures
            r == self.spec_den(),
    {
        self.den
    }

    /// Whether the magnitude is zero or positive.
    pub fn is_non_negative(&self) -> (r: bool)
        ensures
            r == self.is_nonneg(),
    {
        self.num >= 0
    }

    /// Exact equality of magnitudes, by cross multiplication in a wide
    /// integer type that cannot overflow.
    pub fn rational_eq(&self, other: &Scalar) -> (r: bool)
        ensures
            r == self.rat_eq(*other),
    {
        proof {
            lemma_i64_product_fits(self.num as int, other.den as int);
            lemma_i64_product_fits(other.num as int, self.den as int);
        }
        let left: i128 = (self.num as i128) * (other.den as i128);
        let right: i128 = (other.num as i128) * (self.den as i128);
        left == right
    }

    /// `self <= other` as rationals, by cross multiplication.
    /// Meaningful only for well-formed scalars.
    pub fn rational_le(&self, other: &Scalar) -> (r: bool)
        ensures
            r == self.rat_le(*other),
    {
        proof {
            lemma_i64_product_fits(self.num as int, other.den as int);
            lemma_i64_product_fits(other.num as int, self.den as int);
        }
        let left: i128 = (self.num as i128) * (other.den as i128);
        let right: i128 = (other.num as i128) * (self.den as i128);
        left <= right
    }

    /// Multiply by the exact ratio `p / q`.  Fails only when the exact
    /// result leaves the machine's integer range.
    pub fn mul_ratio(self, p: i64, q: i64) -> (r: Result<Scalar, ValueError>)
        requires
            1 <= p,
            1 <= q,
        ensures
            r matches Ok(s) ==> {
                &&& s.spec_num() == self.spec_num() * p
                &&& s.spec_den() == self.spec_den() * q
                &&& s.wf()
            },
            r is Ok <==> i64::MIN <= self.spec_num() * p <= i64::MAX && self.spec_den() * q
                <= i64::MAX,
            r matches Err(e) ==> e == ValueError::Overflow,
    {
        proof {
            use_type_invariant(&self);
        }
        match self.num.checked_mul(p) {
            Some(n) => match self.den.checked_mul(q) {
                Some(d) => {
                    proof {
                        vstd::arithmetic::mul::lemma_mul_strictly_positive(
                            self.spec_den(),
                            p as int,
                        );
                        vstd::arithmetic::mul::lemma_mul_strictly_positive(
                            self.spec_den(),
                            q as int,
                        );
                    }
                    Ok(Scalar { num: n, den: d })
                },
                None => Err(ValueError::Overflow),
            },
            None => Err(ValueError::Overflow),
        }
    }
}

/// The product of two `i64` values always fits in an `i128`.
proof fn lemma_i64_product_fits(a: int, b: int)
    requires
        i64::MIN <= a <= i64::MAX,
        i64::MIN <= b <= i64::MAX,
    ensures
        i128::MIN <= a * b <= i128::MAX,
{
    assert(i128::MIN <= a * b <= i128::MAX) by (nonlinear_arith)
        requires
            i64::MIN <= a <= i64::MAX,
            i64::MIN <= b <= i64::MAX,
    ;
}

/// Multiplying a magnitude by `p / q` and the result by `q / p` yields a
/// rational equal to the original magnitude.
pub proof fn lemma_mul_ratio_round_trip(m: Scalar, there: Scalar, back: Scalar, p: int, q: int)
    requires
        m.wf(),
        1 <= p,
        1 <= q,
        there.spec_num() == m.spec_num() * p,
        there.spec_den() == m.spec_den() * q,
        back.spec_num() == there.spec_num() * q,
        back.spec_den() == there.spec_den() * p,
    ensures
        back.rat_eq(m),
{
    assert(m.spec_num() * p * q * m.spec_den() == m.spec_num() * (m.spec_den() * q * p))
        by (nonlinear_arith);
}

} // verus!

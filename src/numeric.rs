use vstd::arithmetic::power::{lemma_pow_positive, pow};
use vstd::prelude::*;

verus! {

/// A decimal literal, `digits * 10^(-places)`, kept exact so that each numeric
/// type can build it at its own precision.
#[derive(Copy, Clone, Debug, PartialEq, Eq, Structural)]
pub struct Decimal {
    pub digits: u64,
    pub places: u32,
}

impl Decimal {
    /// The literal `digits * 10^(-places)`.
    pub open spec fn spec_new(digits: u64, places: u32) -> Decimal {
        Decimal { digits, places }
    }

    /// The denominator of the literal as a fraction, `10^places`.
    pub open spec fn denominator(self) -> int {
        pow(10, self.places as nat)
    }

    pub fn new(digits: u64, places: u32) -> (r: Decimal)
        ensures
            r == Decimal::spec_new(digits, places),
    {
        Decimal { digits, places }
    }
}

/// The numeric capability that every policy of this library is generic over:
/// the arithmetic, power and comparisons of a real-number approximation, and
/// the construction of a value from a decimal literal at the type's own
/// precision.
///
/// The spec functions name what each operation yields for the implementing
/// type; each executable operation computes exactly its spec function.
pub trait Numeric: Sized + Copy {
    /// The value of a decimal literal.
    spec fn spec_lit(d: Decimal) -> Self;

    /// The multiplicative unit.
    spec fn spec_one() -> Self;

    spec fn spec_add(self, o: Self) -> Self;

    spec fn spec_sub(self, o: Self) -> Self;

    spec fn spec_mul(self, o: Self) -> Self;

    spec fn spec_div(self, o: Self) -> Self;

    /// `self` raised to the power `e`.
    spec fn spec_pow(self, e: Self) -> Self;

    spec fn spec_lt(self, o: Self) -> bool;

    spec fn spec_le(self, o: Self) -> bool;

    fn from_decimal(d: Decimal) -> (r: Self)
        ensures
            r == Self::spec_lit(d),
    ;

    fn one() -> (r: Self)
        ensures
            r == Self::spec_one(),
    ;

    fn plus(self, o: Self) -> (r: Self)
        ensures
            r == self.spec_add(o),
    ;

    fn minus(self, o: Self) -> (r: Self)
        ensures
            r == self.spec_sub(o),
    ;

    fn times(self, o: Self) -> (r: Self)
        ensures
            r == self.spec_mul(o),
    ;

    fn divide(self, o: Self) -> (r: Self)
        ensures
            r == self.spec_div(o),
    ;

    fn power(self, e: Self) -> (r: Self)
        ensures
            r == self.spec_pow(e),
    ;

    fn less(self, o: Self) -> (r: bool)
        ensures
            r == self.spec_lt(o),
    ;

    fn less_eq(self, o: Self) -> (r: bool)
        ensures
            r == self.spec_le(o),
    ;
}

/// An exact rational `num / den` divided by the literal `c`.
pub open spec fn exact_div(num: int, den: int, c: Decimal) -> (int, int) {
    (num * c.denominator(), den * c.digits)
}

/// An exact rational `num / den` multiplied by the literal `c`.
pub open spec fn exact_mul(num: int, den: int, c: Decimal) -> (int, int) {
    (num * c.digits, den * c.denominator())
}

/// Dividing a rational by a nonzero literal and multiplying it back gives the
/// same rational: same value, nonzero denominator.
pub proof fn lemma_exact_div_mul(num: int, den: int, c: Decimal)
    requires
        den != 0,
        c.digits > 0,
    ensures
        ({
            let q = exact_div(num, den, c);
            let r = exact_mul(q.0, q.1, c);
            r.1 != 0 && r.0 * den == num * r.1
        }),
{
    lemma_pow_positive(10, c.places as nat);
    let p = c.denominator();
    let m = c.digits as int;
    assert(den * m * p != 0) by (nonlinear_arith)
        requires
            den != 0,
            m > 0,
            p > 0,
    ;
    assert(num * p * m * den == num * (den * m * p)) by (nonlinear_arith);
}

/// The value of the literal `digits * 10^(-places)` in `T`.
pub open spec fn lit<T: Numeric>(digits: u64, places: u32) -> T {
    T::spec_lit(Decimal::spec_new(digits, places))
}

} // verus!

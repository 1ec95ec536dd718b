use vstd::prelude::*;

use crate::numeric::{lit, Decimal, Numeric};

verus! {

/// An opto-electronic transfer policy: `from_linear` encodes linear light,
/// `into_linear` decodes it again.
///
/// Each implementation states its exact curve on its own methods.
pub trait TransferFn {
    /// Decodes a gamma-encoded sample back to linear light.
    fn into_linear<T: Numeric>(x: T) -> T;

    /// Encodes a linear-light sample.
    fn from_linear<T: Numeric>(x: T) -> T;
}

/// The transfer function shared by BT.601 and BT.709.
///
/// Its encoding and decoding breakpoints, 0.0018 and 0.0091, are two literals
/// of their own; neither is derived from the other.
#[derive(Copy, Clone, Debug, PartialEq, Eq, Structural)]
pub struct Transfer601And709;

/// The transfer function of BT.2020: the curve of BT.601 and BT.709 with its
/// constants given to more digits, for up to 12-bit quantization.
#[derive(Copy, Clone, Debug, PartialEq, Eq, Structural)]
pub struct Transfer2020;

/// Encoding of BT.601 and BT.709: `4.5 x` up to `x <= 0.0018`, and
/// `1.099 x^0.45 - 0.099` above.
pub open spec fn encode_601_709<T: Numeric>(x: T) -> T {
    if x.spec_le(lit(18, 4)) {
        x.spec_mul(lit(45, 1))
    } else {
        x.spec_pow(lit(45, 2)).spec_mul(lit(1099, 3)).spec_sub(lit(99, 3))
    }
}

/// Decoding of BT.601 and BT.709: `y / 4.5` up to `y <= 0.0091`, and
/// `((y + 0.099) / 1.099)^(1 / 0.45)` above.
pub open spec fn decode_601_709<T: Numeric>(y: T) -> T {
    if y.spec_le(lit(91, 4)) {
        y.spec_div(lit(45, 1))
    } else {
        y.spec_add(lit(99, 3)).spec_div(lit(1099, 3)).spec_pow(
            T::spec_one().spec_div(lit(45, 2)),
        )
    }
}

/// The BT.2020 constant alpha, 1.09929682680944.
pub open spec fn alpha_2020<T: Numeric>() -> T {
    lit(109929682680944, 14)
}

/// The BT.2020 constant beta, 0.018053968510807.
pub open spec fn beta_2020<T: Numeric>() -> T {
    lit(18053968510807, 15)
}

/// Encoding of BT.2020: `4.5 x` below `x < beta`, and
/// `alpha x^0.45 - (alpha - 1)` from there on.
pub open spec fn encode_2020<T: Numeric>(x: T) -> T {
    if x.spec_lt(beta_2020()) {
        x.spec_mul(lit(45, 1))
    } else {
        x.spec_pow(lit(45, 2)).spec_mul(alpha_2020()).spec_sub(
            alpha_2020::<T>().spec_sub(T::spec_one()),
        )
    }
}

/// Decoding of BT.2020: `y / 4.5` below `y < 4.5 beta`, and
/// `((y + alpha - 1) / alpha)^(1 / 0.45)` from there on.
pub open spec fn decode_2020<T: Numeric>(y: T) -> T {
    if y.spec_lt(beta_2020::<T>().spec_mul(lit(45, 1))) {
        y.spec_div(lit(45, 1))
    } else {
        y.spec_add(alpha_2020()).spec_sub(T::spec_one()).spec_div(alpha_2020()).spec_pow(
            T::spec_one().spec_div(lit(45, 2)),
        )
    }
}

impl TransferFn for Transfer601And709 {
    fn into_linear<T: Numeric>(x: T) -> (r: T)
        ensures
            r == decode_601_709(x),
    {
        if x.less_eq(T::from_decimal(Decimal::new(91, 4))) {
            x.divide(T::from_decimal(Decimal::new(45, 1)))
        } else {
            let exponent = T::one().divide(T::from_decimal(Decimal::new(45, 2)));
            x.plus(T::from_decimal(Decimal::new(99, 3))).divide(
                T::from_decimal(Decimal::new(1099, 3)),
            ).power(exponent)
        }
    }

    fn from_linear<T: Numeric>(x: T) -> (r: T)
        ensures
            r == encode_601_709(x),
    {
        if x.less_eq(T::from_decimal(Decimal::new(18, 4))) {
            x.times(T::from_decimal(Decimal::new(45, 1)))
        } else {
            x.power(T::from_decimal(Decimal::new(45, 2))).times(
                T::from_decimal(Decimal::new(1099, 3)),
            ).minus(T::from_decimal(Decimal::new(99, 3)))
        }
    }
}

impl TransferFn for Transfer2020 {
    fn into_linear<T: Numeric>(x: T) -> (r: T)
        ensures
            r == decode_2020(x),
    {
        let alpha = T::from_decimal(Decimal::new(109929682680944, 14));
        let beta = T::from_decimal(Decimal::new(18053968510807, 15));
        let slope = T::from_decimal(Decimal::new(45, 1));
        if x.less(beta.times(slope)) {
            x.divide(slope)
        } else {
            let exponent = T::one().divide(T::from_decimal(Decimal::new(45, 2)));
            x.plus(alpha).minus(T::one()).divide(alpha).power(exponent)
        }
    }

    fn from_linear<T: Numeric>(x: T) -> (r: T)
        ensures
            r == encode_2020(x),
    {
        let alpha = T::from_decimal(Decimal::new(109929682680944, 14));
        let beta = T::from_decimal(Decimal::new(18053968510807, 15));
        if x.less(beta) {
            x.times(T::from_decimal(Decimal::new(45, 1)))
        } else {
            x.power(T::from_decimal(Decimal::new(45, 2))).times(alpha).minus(
                alpha.minus(T::one()),
            )
        }
    }
}

} // verus!

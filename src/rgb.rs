//! RGB spaces: primaries and white point, and the standards built on them.
use vstd::prelude::*;

use crate::numeric::{Decimal, Numeric};
use crate::transfer::TransferFn;

verus! {

/// A color in the `Yxy` parameterization: chromaticity `x`, `y` and
/// luminance `luma`.
#[derive(Copy, Clone, Debug, PartialEq, Eq)]
pub struct Yxy<T> {
    pub x: T,
    pub y: T,
    pub luma: T,
}

/// `Yxy` built from three decimal literals `(x, y, luma)` at the precision of `T`.
pub open spec fn yxy_of<T: Numeric>(d: (Decimal, Decimal, Decimal)) -> Yxy<T> {
    Yxy { x: T::spec_lit(d.0), y: T::spec_lit(d.1), luma: T::spec_lit(d.2) }
}

/// Builds `Yxy` from three decimal literals at the precision of `T`.
pub(crate) fn yxy_from_decimals<T: Numeric>(x: Decimal, y: Decimal, luma: Decimal) -> (r: Yxy<T>)
    ensures
        r == yxy_of::<T>((x, y, luma)),
{
    Yxy { x: T::from_decimal(x), y: T::from_decimal(y), luma: T::from_decimal(luma) }
}

/// A reference white.
pub trait WhitePoint {
}

/// The CIE standard illuminant D65.
#[derive(Copy, Clone, Debug, PartialEq, Eq, Structural)]
pub struct D65;

impl WhitePoint for D65 {
}

/// The chromaticities of the red, green and blue primaries of a color space,
/// each with its luminance.
pub trait Primaries {
    /// Red primary as decimal literals `(x, y, luma)`.
    spec fn red_literals() -> (Decimal, Decimal, Decimal);

    /// Green primary as decimal literals `(x, y, luma)`.
    spec fn green_literals() -> (Decimal, Decimal, Decimal);

    /// Blue primary as decimal literals `(x, y, luma)`.
    spec fn blue_literals() -> (Decimal, Decimal, Decimal);

    /// The red primary.
    fn red<T: Numeric>() -> (r: Yxy<T>)
        ensures
            r == yxy_of::<T>(Self::red_literals()),
    ;

    /// The green primary.
    fn green<T: Numeric>() -> (r: Yxy<T>)
        ensures
            r == yxy_of::<T>(Self::green_literals()),
    ;

    /// The blue primary.
    fn blue<T: Numeric>() -> (r: Yxy<T>)
        ensures
            r == yxy_of::<T>(Self::blue_literals()),
    ;
}

/// An RGB color space: primaries and a white point.
pub trait RgbSpace {
    type Primaries: Primaries;

    type WhitePoint: WhitePoint;
}

/// An RGB standard: a color space and the transfer function of its signal.
pub trait RgbStandard {
    type Space: RgbSpace;

    type TransferFn: TransferFn;
}

/// A luma (grayscale) standard: a white point and a transfer function.
pub trait LumaStandard {
    type WhitePoint: WhitePoint;

    type TransferFn: TransferFn;
}

} // verus!

//! The ITU-R broadcast standards: BT.601 for 525 and 625 lines, BT.709 and
//! BT.2020, each binding one set of primaries, one transfer function and one
//! set of difference functions.
use vstd::prelude::*;

use crate::difference::{DifferenceFn2020, DifferenceFn601, DifferenceFn709};
use crate::numeric::{Decimal, Numeric};
use crate::rgb::{yxy_from_decimals, LumaStandard, Primaries, RgbSpace, RgbStandard, Yxy, D65};
use crate::transfer::{Transfer2020, Transfer601And709};
use crate::yuv::YuvStandard;

verus! {

/// The color space of ITU-R BT.601 for 525 lines.
#[allow(non_camel_case_types)]
#[derive(Copy, Clone, Debug, PartialEq, Eq, Structural)]
pub struct BT601_525;

impl Primaries for BT601_525 {
    open spec fn red_literals() -> (Decimal, Decimal, Decimal) {
        (
            Decimal { digits: 6300, places: 4 },
            Decimal { digits: 3400, places: 4 },
            Decimal { digits: 2990, places: 4 },
        )
    }

    open spec fn green_literals() -> (Decimal, Decimal, Decimal) {
        (
            Decimal { digits: 3100, places: 4 },
            Decimal { digits: 5950, places: 4 },
            Decimal { digits: 5870, places: 4 },
        )
    }

    open spec fn blue_literals() -> (Decimal, Decimal, Decimal) {
        (
            Decimal { digits: 1550, places: 4 },
            Decimal { digits: 700, places: 4 },
            Decimal { digits: 1140, places: 4 },
        )
    }

    fn red<T: Numeric>() -> (r: Yxy<T>) {
        yxy_from_decimals(Decimal::new(6300, 4), Decimal::new(3400, 4), Decimal::new(2990, 4))
    }

    fn green<T: Numeric>() -> (r: Yxy<T>) {
        yxy_from_decimals(Decimal::new(3100, 4), Decimal::new(5950, 4), Decimal::new(5870, 4))
    }

    fn blue<T: Numeric>() -> (r: Yxy<T>) {
        yxy_from_decimals(Decimal::new(1550, 4), Decimal::new(700, 4), Decimal::new(1140, 4))
    }
}

impl RgbSpace for BT601_525 {
    type Primaries = BT601_525;
    type WhitePoint = D65;
}

impl RgbStandard for BT601_525 {
    type Space = BT601_525;
    type TransferFn = Transfer601And709;
}

impl LumaStandard for BT601_525 {
    type WhitePoint = D65;
    type TransferFn = Transfer601And709;
}

impl YuvStandard for BT601_525 {
    type RgbSpace = BT601_525;
    type TransferFn = Transfer601And709;
    type DifferenceFn = DifferenceFn601;
}

/// The color space of ITU-R BT.601 for 625 lines.
#[allow(non_camel_case_types)]
#[derive(Copy, Clone, Debug, PartialEq, Eq, Structural)]
pub struct BT601_625;

impl Primaries for BT601_625 {
    open spec fn red_literals() -> (Decimal, Decimal, Decimal) {
        (
            Decimal { digits: 6400, places: 4 },
            Decimal { digits: 3300, places: 4 },
            Decimal { digits: 2990, places: 4 },
        )
    }

    open spec fn green_literals() -> (Decimal, Decimal, Decimal) {
        (
            Decimal { digits: 2900, places: 4 },
            Decimal { digits: 6000, places: 4 },
            Decimal { digits: 5870, places: 4 },
        )
    }

    open spec fn blue_literals() -> (Decimal, Decimal, Decimal) {
        (
            Decimal { digits: 1500, places: 4 },
            Decimal { digits: 600, places: 4 },
            Decimal { digits: 1140, places: 4 },
        )
    }

    fn red<T: Numeric>() -> (r: Yxy<T>) {
        yxy_from_decimals(Decimal::new(6400, 4), Decimal::new(3300, 4), Decimal::new(2990, 4))
    }

    fn green<T: Numeric>() -> (r: Yxy<T>) {
        yxy_from_decimals(Decimal::new(2900, 4), Decimal::new(6000, 4), Decimal::new(5870, 4))
    }

    fn blue<T: Numeric>() -> (r: Yxy<T>) {
        yxy_from_decimals(Decimal::new(1500, 4), Decimal::new(600, 4), Decimal::new(1140, 4))
    }
}

impl RgbSpace for BT601_625 {
    type Primaries = BT601_625;
    type WhitePoint = D65;
}

impl RgbStandard for BT601_625 {
    type Space = BT601_625;
    type TransferFn = Transfer601And709;
}

impl LumaStandard for BT601_625 {
    type WhitePoint = D65;
    type TransferFn = Transfer601And709;
}

impl YuvStandard for BT601_625 {
    type RgbSpace = BT601_625;
    type TransferFn = Transfer601And709;
    type DifferenceFn = DifferenceFn601;
}

/// The color space of ITU-R BT.709. The luminances of its primaries are
/// those the primaries give exactly, not the rounded weights of its
/// difference functions.
#[allow(non_camel_case_types)]
#[derive(Copy, Clone, Debug, PartialEq, Eq, Structural)]
pub struct BT709;

impl Primaries for BT709 {
    open spec fn red_literals() -> (Decimal, Decimal, Decimal) {
        (
            Decimal { digits: 6400, places: 4 },
            Decimal { digits: 3300, places: 4 },
            Decimal { digits: 212656, places: 6 },
        )
    }

    open spec fn green_literals() -> (Decimal, Decimal, Decimal) {
        (
            Decimal { digits: 3000, places: 4 },
            Decimal { digits: 6000, places: 4 },
            Decimal { digits: 715158, places: 6 },
        )
    }

    open spec fn blue_literals() -> (Decimal, Decimal, Decimal) {
        (
            Decimal { digits: 1500, places: 4 },
            Decimal { digits: 600, places: 4 },
            Decimal { digits: 72186, places: 6 },
        )
    }

    fn red<T: Numeric>() -> (r: Yxy<T>) {
        yxy_from_decimals(Decimal::new(6400, 4), Decimal::new(3300, 4), Decimal::new(212656, 6))
    }

    fn green<T: Numeric>() -> (r: Yxy<T>) {
        yxy_from_decimals(Decimal::new(3000, 4), Decimal::new(6000, 4), Decimal::new(715158, 6))
    }

    fn blue<T: Numeric>() -> (r: Yxy<T>) {
        yxy_from_decimals(Decimal::new(1500, 4), Decimal::new(600, 4), Decimal::new(72186, 6))
    }
}

impl RgbSpace for BT709 {
    type Primaries = BT709;
    type WhitePoint = D65;
}

impl RgbStandard for BT709 {
    type Space = BT709;
    type TransferFn = Transfer601And709;
}

impl LumaStandard for BT709 {
    type WhitePoint = D65;
    type TransferFn = Transfer601And709;
}

impl YuvStandard for BT709 {
    type RgbSpace = BT709;
    type TransferFn = Transfer601And709;
    type DifferenceFn = DifferenceFn709;
}

/// The color space of ITU-R BT.2020.
#[allow(non_camel_case_types)]
#[derive(Copy, Clone, Debug, PartialEq, Eq, Structural)]
pub struct BT2020;

impl Primaries for BT2020 {
    open spec fn red_literals() -> (Decimal, Decimal, Decimal) {
        (
            Decimal { digits: 708, places: 3 },
            Decimal { digits: 292, places: 3 },
            Decimal { digits: 2627, places: 4 },
        )
    }

    open spec fn green_literals() -> (Decimal, Decimal, Decimal) {
        (
            Decimal { digits: 170, places: 3 },
            Decimal { digits: 797, places: 3 },
            Decimal { digits: 6780, places: 4 },
        )
    }

    open spec fn blue_literals() -> (Decimal, Decimal, Decimal) {
        (
            Decimal { digits: 131, places: 3 },
            Decimal { digits: 46, places: 3 },
            Decimal { digits: 593, places: 4 },
        )
    }

    fn red<T: Numeric>() -> (r: Yxy<T>) {
        yxy_from_decimals(Decimal::new(708, 3), Decimal::new(292, 3), Decimal::new(2627, 4))
    }

    fn green<T: Numeric>() -> (r: Yxy<T>) {
        yxy_from_decimals(Decimal::new(170, 3), Decimal::new(797, 3), Decimal::new(6780, 4))
    }

    fn blue<T: Numeric>() -> (r: Yxy<T>) {
        yxy_from_decimals(Decimal::new(131, 3), Decimal::new(46, 3), Decimal::new(593, 4))
    }
}

impl RgbSpace for BT2020 {
    type Primaries = BT2020;
    type WhitePoint = D65;
}

impl RgbStandard for BT2020 {
    type Space = BT2020;
    type TransferFn = Transfer2020;
}

impl LumaStandard for BT2020 {
    type WhitePoint = D65;
    type TransferFn = Transfer2020;
}

impl YuvStandard for BT2020 {
    type RgbSpace = BT2020;
    type TransferFn = Transfer2020;
    type DifferenceFn = DifferenceFn2020;
}

} // verus!

//! The difference functions of the ITU-R standards.
//!
//! The BT.709 weights here are the ones its difference signals are defined
//! with, rounded as the standard writes them; they are not the luminances of
//! its primaries.
use vstd::prelude::*;

use crate::numeric::{Decimal, Numeric};
use crate::yuv::DifferenceFn;

verus! {

/// The YUV difference functions of BT.601, for 525 and 625 lines.
#[derive(Copy, Clone, Debug, PartialEq, Eq, Structural)]
pub struct DifferenceFn601;

impl DifferenceFn for DifferenceFn601 {
    open spec fn weights() -> (Decimal, Decimal, Decimal) {
        (
            Decimal { digits: 2990, places: 4 },
            Decimal { digits: 5870, places: 4 },
            Decimal { digits: 1140, places: 4 },
        )
    }

    open spec fn blue_divisor() -> Decimal {
        Decimal { digits: 1772, places: 3 }
    }

    open spec fn red_divisor() -> Decimal {
        Decimal { digits: 1402, places: 3 }
    }

    proof fn lemma_divisors_positive() {
    }

    fn luminance<T: Numeric>() -> (r: [T; 3]) {
        let r = [
            T::from_decimal(Decimal::new(2990, 4)),
            T::from_decimal(Decimal::new(5870, 4)),
            T::from_decimal(Decimal::new(1140, 4)),
        ];
        assert(r@ =~= seq![r[0], r[1], r[2]]);
        r
    }

    fn norm_blue<T: Numeric>(denorm: T) -> (r: T) {
        denorm.divide(T::from_decimal(Decimal::new(1772, 3)))
    }

    fn denorm_blue<T: Numeric>(norm: T) -> (r: T) {
        norm.times(T::from_decimal(Decimal::new(1772, 3)))
    }

    fn norm_red<T: Numeric>(denorm: T) -> (r: T) {
        denorm.divide(T::from_decimal(Decimal::new(1402, 3)))
    }

    fn denorm_red<T: Numeric>(norm: T) -> (r: T) {
        norm.times(T::from_decimal(Decimal::new(1402, 3)))
    }
}

/// The YUV difference functions of BT.709.
#[derive(Copy, Clone, Debug, PartialEq, Eq, Structural)]
pub struct DifferenceFn709;

impl DifferenceFn for DifferenceFn709 {
    open spec fn weights() -> (Decimal, Decimal, Decimal) {
        (
            Decimal { digits: 2126, places: 4 },
            Decimal { digits: 7152, places: 4 },
            Decimal { digits: 7212, places: 5 },
        )
    }

    open spec fn blue_divisor() -> Decimal {
        Decimal { digits: 18556, places: 4 }
    }

    open spec fn red_divisor() -> Decimal {
        Decimal { digits: 15748, places: 4 }
    }

    proof fn lemma_divisors_positive() {
    }

    fn luminance<T: Numeric>() -> (r: [T; 3]) {
        let r = [
            T::from_decimal(Decimal::new(2126, 4)),
            T::from_decimal(Decimal::new(7152, 4)),
            T::from_decimal(Decimal::new(7212, 5)),
        ];
        assert(r@ =~= seq![r[0], r[1], r[2]]);
        r
    }

    fn norm_blue<T: Numeric>(denorm: T) -> (r: T) {
        denorm.divide(T::from_decimal(Decimal::new(18556, 4)))
    }

    fn denorm_blue<T: Numeric>(norm: T) -> (r: T) {
        norm.times(T::from_decimal(Decimal::new(18556, 4)))
    }

    fn norm_red<T: Numeric>(denorm: T) -> (r: T) {
        denorm.divide(T::from_decimal(Decimal::new(15748, 4)))
    }

    fn denorm_red<T: Numeric>(norm: T) -> (r: T) {
        norm.times(T::from_decimal(Decimal::new(15748, 4)))
    }
}

/// The YUV difference functions of BT.2020.
#[derive(Copy, Clone, Debug, PartialEq, Eq, Structural)]
pub struct DifferenceFn2020;

impl DifferenceFn for DifferenceFn2020 {
    open spec fn weights() -> (Decimal, Decimal, Decimal) {
        (
            Decimal { digits: 2627, places: 4 },
            Decimal { digits: 6780, places: 4 },
            Decimal { digits: 593, places: 4 },
        )
    }

    open spec fn blue_divisor() -> Decimal {
        Decimal { digits: 18814, places: 4 }
    }

    open spec fn red_divisor() -> Decimal {
        Decimal { digits: 14746, places: 4 }
    }

    proof fn lemma_divisors_positive() {
    }

    fn luminance<T: Numeric>() -> (r: [T; 3]) {
        let r = [
            T::from_decimal(Decimal::new(2627, 4)),
            T::from_decimal(Decimal::new(6780, 4)),
            T::from_decimal(Decimal::new(593, 4)),
        ];
        assert(r@ =~= seq![r[0], r[1], r[2]]);
        r
    }

    fn norm_blue<T: Numeric>(denorm: T) -> (r: T) {
        denorm.divide(T::from_decimal(Decimal::new(18814, 4)))
    }

    fn denorm_blue<T: Numeric>(norm: T) -> (r: T) {
        norm.times(T::from_decimal(Decimal::new(18814, 4)))
    }

    fn norm_red<T: Numeric>(denorm: T) -> (r: T) {
        denorm.divide(T::from_decimal(Decimal::new(14746, 4)))
    }

    fn denorm_red<T: Numeric>(norm: T) -> (r: T) {
        norm.times(T::from_decimal(Decimal::new(14746, 4)))
    }
}

} // verus!

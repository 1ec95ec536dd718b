//! YUV standards: the policies that turn RGB into an analog YUV signal, and
//! the quantization that makes it digital.
use vstd::prelude::*;

use crate::numeric::{exact_div, exact_mul, lemma_exact_div_mul, Decimal, Numeric};
use crate::rgb::RgbSpace;
use crate::transfer::TransferFn;

verus! {

/// A YUV standard for analog signal conversion: an RGB space, the transfer
/// function applied to each channel, and the difference functions that build
/// the luma and chroma signals.
pub trait YuvStandard {
    /// Underlying color space of the RGB signal.
    type RgbSpace: RgbSpace;

    /// The transfer function from linear RGB space.
    type TransferFn: TransferFn;

    /// The normalized color difference space.
    type DifferenceFn: DifferenceFn;
}

/// A YUV standard together with a quantization model: the digital YCbCr form.
pub trait YCbCrStandard {
    /// The analog representation standard to which this quantization applies.
    type YuvStandard: YuvStandard;

    /// The quantization function to use.
    type QuantizationFn: QuantizationFn;
}

/// The luma weights of a standard and the normalization of its two color
/// difference signals.
///
/// The weights apply to gamma-encoded channels, `Y' = wr R' + wg G' + wb B'`.
/// They may add up to less than one, leaving room for colors brighter than
/// the white point. Normalization divides a difference signal by the
/// standard's divisor and denormalization multiplies it back; nothing is
/// clamped.
pub trait DifferenceFn {
    /// The luma weights of red, green and blue, as decimal literals.
    spec fn weights() -> (Decimal, Decimal, Decimal);

    /// The divisor of the blue difference signal `B' - Y'`.
    spec fn blue_divisor() -> Decimal;

    /// The divisor of the red difference signal `R' - Y'`.
    spec fn red_divisor() -> Decimal;

    /// Both divisors are positive.
    proof fn lemma_divisors_positive()
        ensures
            Self::blue_divisor().digits > 0,
            Self::red_divisor().digits > 0,
    ;

    /// The weights of the luminance transform, built at the precision of `T`.
    fn luminance<T: Numeric>() -> (r: [T; 3])
        ensures
            r@ == seq![
                T::spec_lit(Self::weights().0),
                T::spec_lit(Self::weights().1),
                T::spec_lit(Self::weights().2),
            ],
    ;

    /// Normalizes the difference of luminance and blue channel.
    fn norm_blue<T: Numeric>(denorm: T) -> (r: T)
        ensures
            r == denorm.spec_div(T::spec_lit(Self::blue_divisor())),
    ;

    /// Denormalizes the difference of luminance and blue channel.
    fn denorm_blue<T: Numeric>(norm: T) -> (r: T)
        ensures
            r == norm.spec_mul(T::spec_lit(Self::blue_divisor())),
    ;

    /// Normalizes the difference of luminance and red channel.
    fn norm_red<T: Numeric>(denorm: T) -> (r: T)
        ensures
            r == denorm.spec_div(T::spec_lit(Self::red_divisor())),
    ;

    /// Denormalizes the difference of luminance and red channel.
    fn denorm_red<T: Numeric>(norm: T) -> (r: T)
        ensures
            r == norm.spec_mul(T::spec_lit(Self::red_divisor())),
    ;
}

/// In exact arithmetic denormalization undoes normalization: for every
/// rational `num / den`, dividing by the blue (or red) divisor of `D` and
/// multiplying by it again yields the same rational.
pub proof fn lemma_denorm_undoes_norm<D: DifferenceFn>(num: int, den: int)
    requires
        den != 0,
    ensures
        ({
            let q = exact_div(num, den, D::blue_divisor());
            let r = exact_mul(q.0, q.1, D::blue_divisor());
            r.1 != 0 && r.0 * den == num * r.1
        }),
        ({
            let q = exact_div(num, den, D::red_divisor());
            let r = exact_mul(q.0, q.1, D::red_divisor());
            r.1 != 0 && r.0 * den == num * r.1
        }),
{
    D::lemma_divisors_positive();
    lemma_exact_div_mul(num, den, D::blue_divisor());
    lemma_exact_div_mul(num, den, D::red_divisor());
}

/// A digital encoding of a YUV color model: analog samples to integer codes
/// of a fixed width.
pub trait QuantizationFn {
    /// The quantized integer representation of a channel.
    type Output;

    /// Quantizes an analog YUV pixel.
    fn quantize_yuv<F: Numeric>(yuv: [F; 3]) -> [Self::Output; 3];

    /// Quantizes a gamma-encoded RGB pixel directly, without building the
    /// analog YUV pixel in between.
    fn quantize_rgb<F: Numeric>(rgb: [F; 3]) -> [Self::Output; 3];
}

/// Any RGB space, transfer function and difference functions make a YUV
/// standard.
impl<R: RgbSpace, T: TransferFn, D: DifferenceFn> YuvStandard for (R, T, D) {
    type RgbSpace = R;
    type TransferFn = T;
    type DifferenceFn = D;
}

/// Any YUV standard and quantization make a YCbCr standard.
impl<S: YuvStandard, Q: QuantizationFn> YCbCrStandard for (S, Q) {
    type YuvStandard = S;
    type QuantizationFn = Q;
}

} // verus!

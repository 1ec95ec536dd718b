//! Color-encoding descriptors of the ITU-R broadcast standards (BT.601 for
//! 525 and 625 lines, BT.709, BT.2020): their transfer functions and the
//! luma and chroma difference functions that turn RGB into analog YUV.
//!
//! Every policy is generic over a [`Numeric`] type, and every constant is a
//! [`Decimal`] literal that the numeric type builds at its own precision.
pub mod difference;
pub mod itu;
pub mod numeric;
pub mod rgb;
pub mod transfer;
pub mod yuv;

pub use difference::{DifferenceFn2020, DifferenceFn601, DifferenceFn709};
pub use itu::{BT2020, BT601_525, BT601_625, BT709};
pub use numeric::{Decimal, Numeric};
pub use rgb::{D65, LumaStandard, Primaries, RgbSpace, RgbStandard, WhitePoint, Yxy};
pub use transfer::{Transfer2020, Transfer601And709, TransferFn};
pub use yuv::{lemma_denorm_undoes_norm, DifferenceFn, QuantizationFn, YCbCrStandard, YuvStandard};

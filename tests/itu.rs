use palette::{
    Decimal, DifferenceFn, DifferenceFn2020, DifferenceFn601, DifferenceFn709, Numeric,
    Primaries, Transfer2020, Transfer601And709, TransferFn, Yxy, YuvStandard, BT2020, BT601_525,
    BT601_625, BT709,
};

#[derive(Copy, Clone, Debug, PartialEq)]
struct F64(f64);

impl Numeric for F64 {
    fn spec_lit(d: Decimal) -> F64 {
        F64(format!("{}e-{}", d.digits, d.places).parse::<f64>().unwrap())
    }
    fn spec_one() -> F64 {
        F64(1.0)
    }
    fn spec_add(self, o: F64) -> F64 {
        F64(self.0 + o.0)
    }
    fn spec_sub(self, o: F64) -> F64 {
        F64(self.0 - o.0)
    }
    fn spec_mul(self, o: F64) -> F64 {
        F64(self.0 * o.0)
    }
    fn spec_div(self, o: F64) -> F64 {
        F64(self.0 / o.0)
    }
    fn spec_pow(self, e: F64) -> F64 {
        F64(self.0.powf(e.0))
    }
    fn spec_lt(self, o: F64) -> bool {
        self.0 < o.0
    }
    fn spec_le(self, o: F64) -> bool {
        self.0 <= o.0
    }
    fn from_decimal(d: Decimal) -> F64 {
        F64::spec_lit(d)
    }
    fn one() -> F64 {
        F64::spec_one()
    }
    fn plus(self, o: F64) -> F64 {
        self.spec_add(o)
    }
    fn minus(self, o: F64) -> F64 {
        self.spec_sub(o)
    }
    fn times(self, o: F64) -> F64 {
        self.spec_mul(o)
    }
    fn divide(self, o: F64) -> F64 {
        self.spec_div(o)
    }
    fn power(self, e: F64) -> F64 {
        self.spec_pow(e)
    }
    fn less(self, o: F64) -> bool {
        self.spec_lt(o)
    }
    fn less_eq(self, o: F64) -> bool {
        self.spec_le(o)
    }
}

fn forward_601(x: f64) -> f64 {
    Transfer601And709::from_linear(F64(x)).0
}

fn inverse_601(x: f64) -> f64 {
    Transfer601And709::into_linear(F64(x)).0
}

fn forward_2020(x: f64) -> f64 {
    Transfer2020::from_linear(F64(x)).0
}

fn inverse_2020(x: f64) -> f64 {
    Transfer2020::into_linear(F64(x)).0
}

fn samples() -> Vec<f64> {
    (0..=10000).map(|i| i as f64 / 10000.0).collect()
}

#[test]
fn round_trip_2020() {
    for x in samples() {
        assert!((inverse_2020(forward_2020(x)) - x).abs() < 1e-6, "x = {}", x);
    }
}

#[test]
fn round_trip_601_709_outside_the_gap() {
    // Between the encoding breakpoint 0.0018 and about 0.0058 the encoded
    // value falls under the decoding breakpoint 0.0091 and decodes linearly.
    for x in samples() {
        if x > 0.0018 && x < 0.0058 {
            continue;
        }
        assert!((inverse_601(forward_601(x)) - x).abs() < 1e-6, "x = {}", x);
    }
}

#[test]
fn round_trip_601_709_fails_inside_the_gap() {
    let x = 0.004;
    assert!((inverse_601(forward_601(x)) - x).abs() > 1e-3);
}

#[test]
fn continuity_2020() {
    let beta = 0.018053968510807;
    let d = 1e-12;
    assert!((forward_2020(beta - d) - forward_2020(beta + d)).abs() < 1e-6);
    let y = 4.5 * beta;
    assert!((inverse_2020(y - d) - inverse_2020(y + d)).abs() < 1e-6);
}

#[test]
fn breakpoints_601_709_are_kept_as_written() {
    let d = 1e-12;
    assert!((forward_601(0.0018) - 0.0081).abs() < 1e-15);
    assert!(forward_601(0.0018 + d) < 0.0);
    assert!((inverse_601(0.0091) - 0.0091 / 4.5).abs() < 1e-15);
    assert!(inverse_601(0.0091 + d) > 0.005);
}

#[test]
fn boundary_values() {
    assert_eq!(forward_601(0.0), 0.0);
    assert_eq!(forward_2020(0.0), 0.0);
    assert!((forward_601(1.0) - 1.0).abs() < 1e-12);
    assert!((forward_2020(1.0) - 1.0).abs() < 1e-12);
    assert!((inverse_601(1.0) - 1.0).abs() < 1e-12);
    assert!((inverse_2020(1.0) - 1.0).abs() < 1e-12);
}

#[test]
fn forward_exact_values() {
    assert_eq!(forward_601(0.001), 0.001 * 4.5);
    assert_eq!(forward_2020(0.01), 0.01 * 4.5);
    let expected_601 = 0.5f64.powf(0.45) * 1.099 - 0.099;
    assert_eq!(forward_601(0.5), expected_601);
    let alpha = 1.09929682680944;
    let expected_2020 = 0.5f64.powf(0.45) * alpha - (alpha - 1.0);
    assert_eq!(forward_2020(0.5), expected_2020);
}

#[test]
fn inverse_exact_values() {
    assert_eq!(inverse_601(0.009), 0.009 / 4.5);
    let expected = ((0.5f64 + 0.099) / 1.099).powf(1.0 / 0.45);
    assert_eq!(inverse_601(0.5), expected);
    let alpha = 1.09929682680944;
    let expected_2020 = ((0.5f64 + alpha - 1.0) / alpha).powf(1.0 / 0.45);
    assert_eq!(inverse_2020(0.5), expected_2020);
    assert_eq!(inverse_2020(0.08), 0.08 / 4.5);
}

#[test]
fn strict_breakpoint_2020() {
    let beta = 0.018053968510807;
    let alpha = 1.09929682680944;
    assert_eq!(forward_2020(beta), beta.powf(0.45) * alpha - (alpha - 1.0));
}

#[test]
fn standards_differ_at_one_half() {
    assert!((forward_2020(0.5) - forward_601(0.5)).abs() > 1e-6);
}

fn norm_round_trip<D: DifferenceFn>() {
    for i in 0..=1000 {
        let x = i as f64 / 1000.0 - 0.5;
        let blue = D::denorm_blue(D::norm_blue(F64(x))).0;
        let red = D::denorm_red(D::norm_red(F64(x))).0;
        assert!((blue - x).abs() < 1e-12, "x = {}", x);
        assert!((red - x).abs() < 1e-12, "x = {}", x);
    }
}

#[test]
fn normalization_inverse_law() {
    norm_round_trip::<DifferenceFn601>();
    norm_round_trip::<DifferenceFn709>();
    norm_round_trip::<DifferenceFn2020>();
}

#[test]
fn norm_divides_and_denorm_multiplies() {
    assert_eq!(DifferenceFn601::norm_blue(F64(0.886)).0, 0.886 / 1.772);
    assert_eq!(DifferenceFn601::denorm_red(F64(0.5)).0, 0.5 * 1.402);
    assert_eq!(DifferenceFn709::norm_red(F64(1.0)).0, 1.0 / 1.5748);
    assert_eq!(DifferenceFn709::denorm_blue(F64(0.5)).0, 0.5 * 1.8556);
    assert_eq!(DifferenceFn2020::norm_blue(F64(1.0)).0, 1.0 / 1.8814);
    assert_eq!(DifferenceFn2020::norm_red(F64(1.0)).0, 1.0 / 1.4746);
    assert_eq!(DifferenceFn2020::denorm_blue(F64(1.0)).0, 1.8814);
    assert_eq!(DifferenceFn2020::denorm_red(F64(1.0)).0, 1.4746);
    assert_eq!(DifferenceFn601::norm_red(F64(-0.25)).0, -0.25 / 1.402);
}

fn weights<D: DifferenceFn>() -> [f64; 3] {
    let w: [F64; 3] = D::luminance();
    [w[0].0, w[1].0, w[2].0]
}

#[test]
fn luminance_weights() {
    assert_eq!(weights::<DifferenceFn601>(), [0.2990, 0.5870, 0.1140]);
    assert_eq!(weights::<DifferenceFn709>(), [0.2126, 0.7152, 0.07212]);
    assert_eq!(weights::<DifferenceFn2020>(), [0.2627, 0.6780, 0.0593]);
}

fn triple(c: Yxy<F64>) -> [f64; 3] {
    [c.x.0, c.y.0, c.luma.0]
}

#[test]
fn primaries_of_the_standards() {
    assert_eq!(triple(BT601_525::red()), [0.63, 0.34, 0.299]);
    assert_eq!(triple(BT601_525::green()), [0.31, 0.595, 0.587]);
    assert_eq!(triple(BT601_525::blue()), [0.155, 0.07, 0.114]);
    assert_eq!(triple(BT601_625::red()), [0.64, 0.33, 0.299]);
    assert_eq!(triple(BT601_625::green()), [0.29, 0.6, 0.587]);
    assert_eq!(triple(BT601_625::blue()), [0.15, 0.06, 0.114]);
    assert_eq!(triple(BT709::red()), [0.64, 0.33, 0.212656]);
    assert_eq!(triple(BT709::green()), [0.3, 0.6, 0.715158]);
    assert_eq!(triple(BT709::blue()), [0.15, 0.06, 0.072186]);
    assert_eq!(triple(BT2020::red()), [0.708, 0.292, 0.2627]);
    assert_eq!(triple(BT2020::green()), [0.17, 0.797, 0.678]);
    assert_eq!(triple(BT2020::blue()), [0.131, 0.046, 0.0593]);
}

#[test]
fn bt709_primary_luminance_is_not_its_luma_weight() {
    assert_ne!(triple(BT709::red())[2], weights::<DifferenceFn709>()[0]);
}

fn encode_with<S: YuvStandard>(x: f64) -> f64 {
    <S::TransferFn as TransferFn>::from_linear(F64(x)).0
}

fn blue_weight_of<S: YuvStandard>() -> f64 {
    let w: [F64; 3] = <S::DifferenceFn as DifferenceFn>::luminance();
    w[2].0
}

#[test]
fn standards_bind_their_policies() {
    assert_eq!(encode_with::<BT601_525>(0.5), forward_601(0.5));
    assert_eq!(encode_with::<BT601_625>(0.5), forward_601(0.5));
    assert_eq!(encode_with::<BT709>(0.5), forward_601(0.5));
    assert_eq!(encode_with::<BT2020>(0.5), forward_2020(0.5));
    assert_eq!(blue_weight_of::<BT601_525>(), 0.1140);
    assert_eq!(blue_weight_of::<BT709>(), 0.07212);
    assert_eq!(blue_weight_of::<BT2020>(), 0.0593);
}

#[test]
fn composed_standard() {
    type Mixed = (BT709, Transfer2020, DifferenceFn601);
    assert_eq!(encode_with::<Mixed>(0.5), forward_2020(0.5));
    assert_eq!(blue_weight_of::<Mixed>(), 0.1140);
}

//! Ranges, colour matrices and their transforms, and the layouts of pixels
//! and planes.

use crate::fraction::Fraction;
use crate::numerics::power_of_two;
use crate::yuv_error::YuvError;
use vstd::arithmetic::power2::lemma2_to64;
use vstd::arithmetic::power2::lemma_pow2_strictly_increases;
use vstd::arithmetic::power2::pow2;
use vstd::prelude::*;

verus! {

/// The five coefficients that take biased Y, Cb, Cr back to R, G, B:
/// `R = Y*y_coef + Cr*cr_coef`, `B = Y*y_coef + Cb*cb_coef`,
/// `G = Y*y_coef - Cr*g_coeff_1 - Cb*g_coeff_2`.
#[derive(Debug, Copy, Clone, PartialEq, Eq)]
pub struct CbCrInverseTransform<T> {
    pub y_coef: T,
    pub cr_coef: T,
    pub cb_coef: T,
    pub g_coeff_1: T,
    pub g_coeff_2: T,
}

impl<T> CbCrInverseTransform<T> {
    pub fn new(y_coef: T, cr_coef: T, cb_coef: T, g_coeff_1: T, g_coeff_2: T) -> (transform:
        CbCrInverseTransform<T>)
        ensures
            transform == (CbCrInverseTransform { y_coef, cr_coef, cb_coef, g_coeff_1, g_coeff_2 }),
    {
        CbCrInverseTransform { y_coef, cr_coef, cb_coef, g_coeff_1, g_coeff_2 }
    }
}

impl CbCrInverseTransform<Fraction> {
    /// Every coefficient is a fraction with a positive denominator.
    pub open spec fn wf(self) -> bool {
        &&& self.y_coef.wf()
        &&& self.cr_coef.wf()
        &&& self.cb_coef.wf()
        &&& self.g_coeff_1.wf()
        &&& self.g_coeff_2.wf()
    }

    /// Each coefficient in fixed point with `precision` fractional bits.
    pub open spec fn quantized(self, precision: nat) -> CbCrInverseTransform<i32> {
        CbCrInverseTransform {
            y_coef: self.y_coef.quantized(precision) as i32,
            cr_coef: self.cr_coef.quantized(precision) as i32,
            cb_coef: self.cb_coef.quantized(precision) as i32,
            g_coeff_1: self.g_coeff_1.quantized(precision) as i32,
            g_coeff_2: self.g_coeff_2.quantized(precision) as i32,
        }
    }

    /// Quantizes each coefficient on its own. The rounding moves a
    /// coefficient by up to half a unit of the last fractional bit.
    pub fn to_integers(self, precision: u32) -> (integers: CbCrInverseTransform<i32>)
        requires
            self.wf(),
            precision <= 30,
        ensures
            integers == self.quantized(precision as nat),
    {
        CbCrInverseTransform {
            y_coef: self.y_coef.quantize(precision),
            cr_coef: self.cr_coef.quantize(precision),
            cb_coef: self.cb_coef.quantize(precision),
            g_coeff_1: self.g_coeff_1.quantize(precision),
            g_coeff_2: self.g_coeff_2.quantize(precision),
        }
    }
}

/// The nine coefficients that take R, G, B to Y, Cb, Cr.
#[derive(Debug, Copy, Clone, PartialEq, Eq)]
pub struct CbCrForwardTransform<T> {
    pub yr: T,
    pub yg: T,
    pub yb: T,
    pub cb_r: T,
    pub cb_g: T,
    pub cb_b: T,
    pub cr_r: T,
    pub cr_g: T,
    pub cr_b: T,
}

impl CbCrForwardTransform<Fraction> {
    /// Every coefficient is a fraction with a positive denominator.
    pub open spec fn wf(self) -> bool {
        &&& self.yr.wf()
        &&& self.yg.wf()
        &&& self.yb.wf()
        &&& self.cb_r.wf()
        &&& self.cb_g.wf()
        &&& self.cb_b.wf()
        &&& self.cr_r.wf()
        &&& self.cr_g.wf()
        &&& self.cr_b.wf()
    }
}

/// A transform that can be brought to fixed point.
pub trait ToIntegerTransform {
    /// The transform is well formed.
    spec fn can_quantize(&self) -> bool;

    /// Each coefficient in fixed point with `precision` fractional bits.
    spec fn quantized(&self, precision: nat) -> CbCrForwardTransform<i32>;

    fn to_integers(&self, precision: u32) -> (integers: CbCrForwardTransform<i32>)
        requires
            self.can_quantize(),
            precision <= 30,
        ensures
            integers == self.quantized(precision as nat),
    ;
}

impl ToIntegerTransform for CbCrForwardTransform<Fraction> {
    open spec fn can_quantize(&self) -> bool {
        self.wf()
    }

    open spec fn quantized(&self, precision: nat) -> CbCrForwardTransform<i32> {
        CbCrForwardTransform {
            yr: self.yr.quantized(precision) as i32,
            yg: self.yg.quantized(precision) as i32,
            yb: self.yb.quantized(precision) as i32,
            cb_r: self.cb_r.quantized(precision) as i32,
            cb_g: self.cb_g.quantized(precision) as i32,
            cb_b: self.cb_b.quantized(precision) as i32,
            cr_r: self.cr_r.quantized(precision) as i32,
            cr_g: self.cr_g.quantized(precision) as i32,
            cr_b: self.cr_b.quantized(precision) as i32,
        }
    }

    fn to_integers(&self, precision: u32) -> (integers: CbCrForwardTransform<i32>) {
        CbCrForwardTransform {
            yr: self.yr.quantize(precision),
            yg: self.yg.quantize(precision),
            yb: self.yb.quantize(precision),
            cb_r: self.cb_r.quantize(precision),
            cb_g: self.cb_g.quantize(precision),
            cb_b: self.cb_b.quantize(precision),
            cr_r: self.cr_r.quantize(precision),
            cr_g: self.cr_g.quantize(precision),
            cr_b: self.cr_b.quantize(precision),
        }
    }
}

/// The largest denominator of a luma weight. With it every coefficient of a
/// transform fits a [`Fraction`] for excursions of up to 16 bits.
pub const MAX_WEIGHT_DENOMINATOR: i64 = 0x8000;

/// The largest excursion a transform is derived for: that of 16-bit samples.
pub const MAX_EXCURSION: u32 = 0xffff;

/// The luma weights of red and blue. That of green is what is left of one.
#[derive(Debug, Copy, Clone, PartialEq, Eq, Structural)]
pub struct YuvBias {
    pub kr: Fraction,
    pub kb: Fraction,
}

/// The weight of green, as a numerator over `kr.den * kb.den`.
pub open spec fn green_numerator(kr: Fraction, kb: Fraction) -> int {
    (kr.den - kr.num) * kb.den - kb.num * kr.den
}

/// Weights a transform can be derived from: both lie strictly between zero
/// and one, and the weight of green is not zero.
pub open spec fn weights_valid(kr: Fraction, kb: Fraction) -> bool {
    &&& 0 < kr.num < kr.den <= MAX_WEIGHT_DENOMINATOR
    &&& 0 < kb.num < kb.den <= MAX_WEIGHT_DENOMINATOR
    &&& green_numerator(kr, kb) != 0
}

impl YuvBias {
    pub open spec fn is_valid(self) -> bool {
        weights_valid(self.kr, self.kb)
    }
}

/// An excursion a transform can be derived for.
pub open spec fn excursion_valid(range: u32) -> bool {
    0 < range <= MAX_EXCURSION
}

/// The coefficients of the transform from Y, Cb, Cr to R, G, B, for samples
/// whose excursions are `range_bgra`, `range_y` and `range_uv`.
pub open spec fn spec_inverse_transform(
    range_bgra: int,
    range_y: int,
    range_uv: int,
    kr: Fraction,
    kb: Fraction,
) -> CbCrInverseTransform<Fraction> {
    let green = green_numerator(kr, kb);
    let sign: int = if green > 0 {
        1
    } else {
        -1
    };
    CbCrInverseTransform {
        y_coef: Fraction { num: range_bgra as i64, den: range_y as i64 },
        cr_coef: Fraction {
            num: ((2 * (kr.den - kr.num)) * range_bgra) as i64,
            den: (kr.den * range_uv) as i64,
        },
        cb_coef: Fraction {
            num: ((2 * (kb.den - kb.num)) * range_bgra) as i64,
            den: (kb.den * range_uv) as i64,
        },
        g_coeff_1: Fraction {
            num: (sign * ((((2 * kr.num) * (kr.den - kr.num)) * kb.den) * range_bgra)) as i64,
            den: ((kr.den * (sign * green)) * range_uv) as i64,
        },
        g_coeff_2: Fraction {
            num: (sign * ((((2 * kb.num) * (kb.den - kb.num)) * kr.den) * range_bgra)) as i64,
            den: ((kb.den * (sign * green)) * range_uv) as i64,
        },
    }
}

/// The coefficients of the transform from R, G, B to Y, Cb, Cr.
pub open spec fn spec_forward_transform(
    range_rgba: int,
    range_y: int,
    range_uv: int,
    kr: Fraction,
    kb: Fraction,
) -> CbCrForwardTransform<Fraction> {
    let green = green_numerator(kr, kb);
    let cb_den = ((2 * kr.den) * (kb.den - kb.num)) * range_rgba;
    let cr_den = ((2 * kb.den) * (kr.den - kr.num)) * range_rgba;
    CbCrForwardTransform {
        yr: Fraction { num: (kr.num * range_y) as i64, den: (kr.den * range_rgba) as i64 },
        yg: Fraction {
            num: (green * range_y) as i64,
            den: ((kr.den * kb.den) * range_rgba) as i64,
        },
        yb: Fraction { num: (kb.num * range_y) as i64, den: (kb.den * range_rgba) as i64 },
        cb_r: Fraction { num: (-((kr.num * kb.den) * range_uv)) as i64, den: cb_den as i64 },
        cb_g: Fraction { num: (-(green * range_uv)) as i64, den: cb_den as i64 },
        cb_b: Fraction { num: range_uv as i64, den: (2 * range_rgba) as i64 },
        cr_r: Fraction { num: range_uv as i64, den: (2 * range_rgba) as i64 },
        cr_g: Fraction { num: (-(green * range_uv)) as i64, den: cr_den as i64 },
        cr_b: Fraction { num: (-((kb.num * kr.den) * range_uv)) as i64, den: cr_den as i64 },
    }
}

fn times(a: i64, b: i64, Ghost(bound_a): Ghost<int>, Ghost(bound_b): Ghost<int>) -> (product: i64)
    requires
        -bound_a <= a <= bound_a,
        -bound_b <= b <= bound_b,
        0 <= bound_a * bound_b <= i64::MAX,
    ensures
        product == a * b,
        -(bound_a * bound_b) <= product <= bound_a * bound_b,
        (a > 0 && b > 0) ==> product > 0,
{
    proof {
        crate::numerics::lemma_product_bound(a as int, b as int, bound_a, bound_b);
        if a > 0 && b > 0 {
            assert(a * b > 0) by (nonlinear_arith)
                requires
                    a > 0,
                    b > 0,
            ;
        }
    }
    a * b
}

fn weights_are_valid(kr: Fraction, kb: Fraction) -> (valid: bool)
    ensures
        valid == weights_valid(kr, kb),
{
    if !(0 < kr.num && kr.num < kr.den && kr.den <= MAX_WEIGHT_DENOMINATOR) {
        return false;
    }
    if !(0 < kb.num && kb.num < kb.den && kb.den <= MAX_WEIGHT_DENOMINATOR) {
        return false;
    }
    green_weight(kr, kb) != 0
}

fn green_weight(kr: Fraction, kb: Fraction) -> (green: i64)
    requires
        0 < kr.num < kr.den <= MAX_WEIGHT_DENOMINATOR,
        0 < kb.num < kb.den <= MAX_WEIGHT_DENOMINATOR,
    ensures
        green == green_numerator(kr, kb),
        -0x4000_0000 <= green <= 0x4000_0000,
{
    let rest: i64 = times(kr.den - kr.num, kb.den, Ghost(0x8000), Ghost(0x8000));
    let blue: i64 = times(kb.num, kr.den, Ghost(0x8000), Ghost(0x8000));
    rest - blue
}

/// Derives the transform from Y, Cb, Cr to R, G, B for luma weights `kr` and
/// `kb`, as exact fractions. Weights outside (0, 1), or that leave nothing for
/// green, are refused.
pub fn get_inverse_transform(
    range_bgra: u32,
    range_y: u32,
    range_uv: u32,
    kr: Fraction,
    kb: Fraction,
) -> (transform: Result<CbCrInverseTransform<Fraction>, YuvError>)
    requires
        excursion_valid(range_bgra),
        excursion_valid(range_y),
        excursion_valid(range_uv),
    ensures
        transform is Ok <==> weights_valid(kr, kb),
        transform is Ok ==> transform->Ok_0 == spec_inverse_transform(
            range_bgra as int,
            range_y as int,
            range_uv as int,
            kr,
            kb,
        ) && transform->Ok_0.wf(),
        transform is Err ==> transform->Err_0 == YuvError::InvalidMatrix,
{
    if !weights_are_valid(kr, kb) {
        return Err(YuvError::InvalidMatrix);
    }
    let bgra: i64 = range_bgra as i64;
    let uv: i64 = range_uv as i64;
    let green: i64 = green_weight(kr, kb);
    let sign: i64 = if green > 0 {
        1
    } else {
        -1
    };
    let green_abs: i64 = sign * green;
    let cr_num: i64 = times(2 * (kr.den - kr.num), bgra, Ghost(0x1_0000), Ghost(0x1_0000));
    let cr_den: i64 = times(kr.den, uv, Ghost(0x8000), Ghost(0x1_0000));
    let cb_num: i64 = times(2 * (kb.den - kb.num), bgra, Ghost(0x1_0000), Ghost(0x1_0000));
    let cb_den: i64 = times(kb.den, uv, Ghost(0x8000), Ghost(0x1_0000));
    let g1_a: i64 = times(2 * kr.num, kr.den - kr.num, Ghost(0x1_0000), Ghost(0x8000));
    let g1_b: i64 = times(g1_a, kb.den, Ghost(0x8000_0000), Ghost(0x8000));
    let g1_c: i64 = times(g1_b, bgra, Ghost(0x4000_0000_0000), Ghost(0x1_0000));
    let g1_d: i64 = times(kr.den, green_abs, Ghost(0x8000), Ghost(0x4000_0000));
    let g1_den: i64 = times(g1_d, uv, Ghost(0x2000_0000_0000), Ghost(0x1_0000));
    let g2_a: i64 = times(2 * kb.num, kb.den - kb.num, Ghost(0x1_0000), Ghost(0x8000));
    let g2_b: i64 = times(g2_a, kr.den, Ghost(0x8000_0000), Ghost(0x8000));
    let g2_c: i64 = times(g2_b, bgra, Ghost(0x4000_0000_0000), Ghost(0x1_0000));
    let g2_d: i64 = times(kb.den, green_abs, Ghost(0x8000), Ghost(0x4000_0000));
    let g2_den: i64 = times(g2_d, uv, Ghost(0x2000_0000_0000), Ghost(0x1_0000));
    Ok(
        CbCrInverseTransform::new(
            Fraction::new(bgra, range_y as i64),
            Fraction::new(cr_num, cr_den),
            Fraction::new(cb_num, cb_den),
            Fraction::new(sign * g1_c, g1_den),
            Fraction::new(sign * g2_c, g2_den),
        ),
    )
}

/// Derives the transform from R, G, B to Y, Cb, Cr for luma weights `kr` and
/// `kb`, as exact fractions. Weights outside (0, 1), or that leave nothing for
/// green, are refused.
pub fn get_forward_transform(
    range_rgba: u32,
    range_y: u32,
    range_uv: u32,
    kr: Fraction,
    kb: Fraction,
) -> (transform: Result<CbCrForwardTransform<Fraction>, YuvError>)
    requires
        excursion_valid(range_rgba),
        excursion_valid(range_y),
        excursion_valid(range_uv),
    ensures
        transform is Ok <==> weights_valid(kr, kb),
        transform is Ok ==> transform->Ok_0 == spec_forward_transform(
            range_rgba as int,
            range_y as int,
            range_uv as int,
            kr,
            kb,
        ) && transform->Ok_0.wf(),
        transform is Err ==> transform->Err_0 == YuvError::InvalidMatrix,
{
    if !weights_are_valid(kr, kb) {
        return Err(YuvError::InvalidMatrix);
    }
    let rgba: i64 = range_rgba as i64;
    let luma: i64 = range_y as i64;
    let uv: i64 = range_uv as i64;
    let green: i64 = green_weight(kr, kb);
    let yr_num: i64 = times(kr.num, luma, Ghost(0x8000), Ghost(0x1_0000));
    let yr_den: i64 = times(kr.den, rgba, Ghost(0x8000), Ghost(0x1_0000));
    let yg_num: i64 = times(green, luma, Ghost(0x4000_0000), Ghost(0x1_0000));
    let yg_a: i64 = times(kr.den, kb.den, Ghost(0x8000), Ghost(0x8000));
    let yg_den: i64 = times(yg_a, rgba, Ghost(0x4000_0000), Ghost(0x1_0000));
    let yb_num: i64 = times(kb.num, luma, Ghost(0x8000), Ghost(0x1_0000));
    let yb_den: i64 = times(kb.den, rgba, Ghost(0x8000), Ghost(0x1_0000));
    let cb_a: i64 = times(2 * kr.den, kb.den - kb.num, Ghost(0x1_0000), Ghost(0x8000));
    let cb_den: i64 = times(cb_a, rgba, Ghost(0x8000_0000), Ghost(0x1_0000));
    let cr_a: i64 = times(2 * kb.den, kr.den - kr.num, Ghost(0x1_0000), Ghost(0x8000));
    let cr_den: i64 = times(cr_a, rgba, Ghost(0x8000_0000), Ghost(0x1_0000));
    let red_blue: i64 = times(kr.num, kb.den, Ghost(0x8000), Ghost(0x8000));
    let cb_r_num: i64 = times(red_blue, uv, Ghost(0x4000_0000), Ghost(0x1_0000));
    let green_uv: i64 = times(green, uv, Ghost(0x4000_0000), Ghost(0x1_0000));
    let blue_red: i64 = times(kb.num, kr.den, Ghost(0x8000), Ghost(0x8000));
    let cr_b_num: i64 = times(blue_red, uv, Ghost(0x4000_0000), Ghost(0x1_0000));
    Ok(
        CbCrForwardTransform {
            yr: Fraction::new(yr_num, yr_den),
            yg: Fraction::new(yg_num, yg_den),
            yb: Fraction::new(yb_num, yb_den),
            cb_r: Fraction::new(-cb_r_num, cb_den),
            cb_g: Fraction::new(-green_uv, cb_den),
            cb_b: Fraction::new(uv, 2 * rgba),
            cr_r: Fraction::new(uv, 2 * rgba),
            cr_g: Fraction::new(-green_uv, cr_den),
            cr_b: Fraction::new(-cr_b_num, cr_den),
        },
    )
}

/// Whether samples use the limited (TV) or the full excursion of their bit
/// depth.
#[derive(Debug, Copy, Clone, PartialOrd, PartialEq, Eq, Structural)]
pub enum YuvRange {
    /// Luma from `16 * 2^(depth-8)` over an excursion of `219 * 2^(depth-8)`,
    /// chroma over an excursion of `224 * 2^(depth-8)`.
    TV,
    /// Luma and chroma over the whole of `0 ..= 2^depth - 1`.
    Full,
}

/// Black level and excursion of luma and chroma, derived together for one bit
/// depth and one range.
#[derive(Debug, Copy, Clone, PartialEq, Eq, Structural)]
pub struct YuvChromaRange {
    pub bias_y: u32,
    pub bias_uv: u32,
    pub range_y: u32,
    pub range_uv: u32,
    pub range: YuvRange,
}

/// Black levels and excursions at `depth` bits.
pub open spec fn spec_yuv_range(depth: nat, range: YuvRange) -> YuvChromaRange {
    match range {
        YuvRange::TV => YuvChromaRange {
            bias_y: (16 * pow2((depth - 8) as nat)) as u32,
            bias_uv: pow2((depth - 1) as nat) as u32,
            range_y: (219 * pow2((depth - 8) as nat)) as u32,
            range_uv: (224 * pow2((depth - 8) as nat)) as u32,
            range,
        },
        YuvRange::Full => YuvChromaRange {
            bias_y: 0,
            bias_uv: pow2((depth - 1) as nat) as u32,
            range_y: (pow2(depth) - 1) as u32,
            range_uv: (pow2(depth) - 1) as u32,
            range,
        },
    }
}

/// Black levels and excursions of samples of up to 16 bits: every bias and
/// excursion is positive where it should be and fits the samples.
pub proof fn lemma_yuv_range_bounds(depth: nat, range: YuvRange)
    requires
        8 <= depth <= 16,
    ensures
        spec_yuv_range(depth, range).bias_uv == pow2((depth - 1) as nat),
        spec_yuv_range(depth, range).bias_y + spec_yuv_range(depth, range).range_y <= pow2(depth)
            - 1,
        spec_yuv_range(depth, range).bias_y + spec_yuv_range(depth, range).range_uv <= pow2(depth)
            - 1,
        0 < spec_yuv_range(depth, range).bias_uv < pow2(depth) <= 0x1_0000,
        0 < spec_yuv_range(depth, range).range_y <= MAX_EXCURSION,
        0 < spec_yuv_range(depth, range).range_uv <= MAX_EXCURSION,
        range == YuvRange::TV ==> spec_yuv_range(depth, range).bias_y == 16 * pow2(
            (depth - 8) as nat,
        ) && spec_yuv_range(depth, range).range_y == 219 * pow2((depth - 8) as nat)
            && spec_yuv_range(depth, range).range_uv == 224 * pow2((depth - 8) as nat),
        range == YuvRange::Full ==> spec_yuv_range(depth, range).range_y == pow2(depth) - 1
            && spec_yuv_range(depth, range).range_uv == pow2(depth) - 1,
{
    lemma2_to64();
    vstd::arithmetic::power2::lemma_pow2_adds((depth - 8) as nat, 8);
    vstd::arithmetic::power2::lemma_pow2_adds((depth - 8) as nat, 7);
    vstd::arithmetic::power2::lemma_pow2_pos((depth - 8) as nat);
    if depth < 16 {
        lemma_pow2_strictly_increases(depth, 16);
        lemma_pow2_strictly_increases((depth - 8) as nat, 8);
    }
    let unit = pow2((depth - 8) as nat);
    assert(pow2(depth) == unit * 256);
    assert(pow2((depth - 1) as nat) == unit * 128);
    assert(1 <= unit <= 256);
}

/// Black levels and excursions of luma and chroma at `depth` bits. Depths of
/// up to 31 bits fit the 32-bit fields.
pub fn get_yuv_range(depth: u32, range: YuvRange) -> (chroma_range: YuvChromaRange)
    requires
        8 <= depth <= 31,
    ensures
        chroma_range == spec_yuv_range(depth as nat, range),
{
    let unit: u64 = power_of_two(depth - 8);
    let half: u64 = power_of_two(depth - 1);
    let top: u64 = power_of_two(depth);
    proof {
        lemma2_to64();
        if depth - 8 < 23 {
            lemma_pow2_strictly_increases((depth - 8) as nat, 23);
        }
        if depth - 1 < 30 {
            lemma_pow2_strictly_increases((depth - 1) as nat, 30);
        }
        if depth < 31 {
            lemma_pow2_strictly_increases(depth as nat, 31);
        }
    }
    match range {
        YuvRange::TV => YuvChromaRange {
            bias_y: (16 * unit) as u32,
            bias_uv: half as u32,
            range_y: (219 * unit) as u32,
            range_uv: (224 * unit) as u32,
            range,
        },
        YuvRange::Full => YuvChromaRange {
            bias_y: 0,
            bias_uv: half as u32,
            range_uv: (top - 1) as u32,
            range_y: (top - 1) as u32,
            range,
        },
    }
}

/// The standard colour matrices, and one with weights of the caller's own.
#[derive(Debug, Copy, Clone, PartialEq, Eq, Structural)]
pub enum YuvStandardMatrix {
    /// With the full range this is the matrix of JPEG.
    Bt601,
    Bt709,
    Bt2020,
    Smpte240,
    Bt470_6,
    /// The weight of red, then that of blue. A conversion refuses weights
    /// that leave nothing for green.
    Custom(Fraction, Fraction),
}

impl YuvStandardMatrix {
    /// The luma weights of red and blue.
    pub open spec fn spec_kr_kb(self) -> YuvBias {
        match self {
            YuvStandardMatrix::Bt601 => YuvBias {
                kr: Fraction { num: 299, den: 1000 },
                kb: Fraction { num: 114, den: 1000 },
            },
            YuvStandardMatrix::Bt709 => YuvBias {
                kr: Fraction { num: 2126, den: 10000 },
                kb: Fraction { num: 722, den: 10000 },
            },
            YuvStandardMatrix::Bt2020 => YuvBias {
                kr: Fraction { num: 2627, den: 10000 },
                kb: Fraction { num: 593, den: 10000 },
            },
            YuvStandardMatrix::Smpte240 => YuvBias {
                kr: Fraction { num: 87, den: 1000 },
                kb: Fraction { num: 212, den: 1000 },
            },
            YuvStandardMatrix::Bt470_6 => YuvBias {
                kr: Fraction { num: 2220, den: 10000 },
                kb: Fraction { num: 713, den: 10000 },
            },
            YuvStandardMatrix::Custom(kr, kb) => YuvBias { kr, kb },
        }
    }

    /// A conversion accepts the matrix.
    pub open spec fn is_valid(self) -> bool {
        self.spec_kr_kb().is_valid()
    }

    pub fn get_kr_kb(self) -> (bias: YuvBias)
        ensures
            bias == self.spec_kr_kb(),
    {
        match self {
            YuvStandardMatrix::Bt601 => YuvBias {
                kr: Fraction::new(299, 1000),
                kb: Fraction::new(114, 1000),
            },
            YuvStandardMatrix::Bt709 => YuvBias {
                kr: Fraction::new(2126, 10000),
                kb: Fraction::new(722, 10000),
            },
            YuvStandardMatrix::Bt2020 => YuvBias {
                kr: Fraction::new(2627, 10000),
                kb: Fraction::new(593, 10000),
            },
            YuvStandardMatrix::Smpte240 => YuvBias {
                kr: Fraction::new(87, 1000),
                kb: Fraction::new(212, 1000),
            },
            YuvStandardMatrix::Bt470_6 => YuvBias {
                kr: Fraction::new(2220, 10000),
                kb: Fraction::new(713, 10000),
            },
            YuvStandardMatrix::Custom(kr, kb) => YuvBias { kr, kb },
        }
    }
}

/// Which of U and V comes first in the interleaved chroma plane of a
/// bi-planar image.
#[derive(Debug, Copy, Clone, PartialEq, Eq, PartialOrd, Ord, Structural)]
pub enum YuvNVOrder {
    UV,
    VU,
}

impl YuvNVOrder {
    pub open spec fn spec_u_position(self) -> int {
        match self {
            YuvNVOrder::UV => 0,
            YuvNVOrder::VU => 1,
        }
    }

    pub open spec fn spec_v_position(self) -> int {
        1 - self.spec_u_position()
    }

    pub fn get_u_position(&self) -> (position: usize)
        ensures
            position == self.spec_u_position(),
    {
        match self {
            YuvNVOrder::UV => 0,
            YuvNVOrder::VU => 1,
        }
    }

    pub fn get_v_position(&self) -> (position: usize)
        ensures
            position == self.spec_v_position(),
    {
        match self {
            YuvNVOrder::UV => 1,
            YuvNVOrder::VU => 0,
        }
    }

    /// The order with the given number: 0 for `UV`, 1 for `VU`.
    pub fn from(value: u8) -> (order: YuvNVOrder)
        requires
            value <= 1,
        ensures
            order.spec_u_position() == value,
    {
        match value {
            0 => YuvNVOrder::UV,
            _ => YuvNVOrder::VU,
        }
    }
}

/// How many luma samples share one chroma sample.
#[derive(Debug, Copy, Clone, PartialEq, Eq, Structural)]
pub enum YuvChromaSample {
    /// One chroma sample for a block of two columns and two rows.
    YUV420,
    /// One chroma sample for two columns of one row.
    YUV422,
    /// One chroma sample for each luma sample.
    YUV444,
}

impl YuvChromaSample {
    /// The number of chroma samples in a row of `width` luma samples.
    pub open spec fn chroma_width(self, width: int) -> int {
        match self {
            YuvChromaSample::YUV444 => width,
            _ => (width + 1) / 2,
        }
    }

    /// The number of chroma rows of an image of `height` rows.
    pub open spec fn chroma_height(self, height: int) -> int {
        match self {
            YuvChromaSample::YUV420 => (height + 1) / 2,
            _ => height,
        }
    }

    /// The chroma row that luma row `y` shares.
    pub open spec fn chroma_row(self, y: int) -> int {
        match self {
            YuvChromaSample::YUV420 => y / 2,
            _ => y,
        }
    }

    /// The chroma sample, within its row, that luma column `x` shares.
    pub open spec fn chroma_column(self, x: int) -> int {
        match self {
            YuvChromaSample::YUV444 => x,
            _ => x / 2,
        }
    }

    /// Chroma is halved horizontally.
    pub open spec fn is_halved(self) -> bool {
        self != YuvChromaSample::YUV444
    }

    /// The subsampling with the given number: 0 for 4:2:0, 1 for 4:2:2, 2
    /// for 4:4:4.
    pub fn from(value: u8) -> (sample: YuvChromaSample)
        requires
            value <= 2,
        ensures
            sample == match value {
                0 => YuvChromaSample::YUV420,
                1 => YuvChromaSample::YUV422,
                _ => YuvChromaSample::YUV444,
            },
    {
        match value {
            0 => YuvChromaSample::YUV420,
            1 => YuvChromaSample::YUV422,
            _ => YuvChromaSample::YUV444,
        }
    }

    /// Computes [`YuvChromaSample::chroma_width`].
    pub fn get_chroma_width(self, width: u32) -> (columns: u32)
        ensures
            columns == self.chroma_width(width as int),
    {
        match self {
            YuvChromaSample::YUV444 => width,
            _ => width / 2 + width % 2,
        }
    }

    /// Computes [`YuvChromaSample::chroma_height`].
    pub fn get_chroma_height(self, height: u32) -> (rows: u32)
        ensures
            rows == self.chroma_height(height as int),
    {
        match self {
            YuvChromaSample::YUV420 => height / 2 + height % 2,
            _ => height,
        }
    }
}

/// The byte order in which 16-bit samples are stored.
#[derive(Debug, Copy, Clone, PartialEq, Eq, Structural)]
pub enum YuvEndianness {
    BigEndian,
    LittleEndian,
}

impl YuvEndianness {
    /// The byte order with the given number: 0 for big endian, 1 for little
    /// endian.
    pub fn from(value: u8) -> (endianness: YuvEndianness)
        requires
            value <= 1,
        ensures
            endianness == if value == 0 {
                YuvEndianness::BigEndian
            } else {
                YuvEndianness::LittleEndian
            },
    {
        match value {
            0 => YuvEndianness::BigEndian,
            _ => YuvEndianness::LittleEndian,
        }
    }
}

/// Where the significant bits of a sample of fewer than 16 bits lie in its
/// 16-bit word. Hardware encoders often store them in the high bits, and the
/// word is then shifted right before use. This is independent of the byte
/// order.
#[derive(Debug, Copy, Clone, PartialEq, Eq, Structural)]
pub enum YuvBytesPacking {
    MostSignificantBytes,
    LeastSignificantBytes,
}

impl YuvBytesPacking {
    /// The packing with the given number: 0 for the most significant bits, 1
    /// for the least significant.
    pub fn from(value: u8) -> (packing: YuvBytesPacking)
        requires
            value <= 1,
        ensures
            packing == if value == 0 {
                YuvBytesPacking::MostSignificantBytes
            } else {
                YuvBytesPacking::LeastSignificantBytes
            },
    {
        match value {
            0 => YuvBytesPacking::MostSignificantBytes,
            _ => YuvBytesPacking::LeastSignificantBytes,
        }
    }
}

/// The order of the channels of an interleaved pixel.
#[derive(Debug, Copy, Clone, PartialEq, Eq, Structural)]
pub enum YuvSourceChannels {
    Rgb,
    Rgba,
    Bgra,
    Bgr,
}

impl YuvSourceChannels {
    pub open spec fn spec_channels_count(self) -> int {
        match self {
            YuvSourceChannels::Rgb | YuvSourceChannels::Bgr => 3,
            YuvSourceChannels::Rgba | YuvSourceChannels::Bgra => 4,
        }
    }

    pub open spec fn spec_has_alpha(self) -> bool {
        match self {
            YuvSourceChannels::Rgb | YuvSourceChannels::Bgr => false,
            YuvSourceChannels::Rgba | YuvSourceChannels::Bgra => true,
        }
    }

    pub open spec fn spec_r_offset(self) -> int {
        match self {
            YuvSourceChannels::Rgb | YuvSourceChannels::Rgba => 0,
            YuvSourceChannels::Bgra | YuvSourceChannels::Bgr => 2,
        }
    }

    pub open spec fn spec_g_offset(self) -> int {
        1
    }

    pub open spec fn spec_b_offset(self) -> int {
        2 - self.spec_r_offset()
    }

    /// The offset of alpha, where there is one; otherwise 0.
    pub open spec fn spec_a_offset(self) -> int {
        if self.spec_has_alpha() {
            3
        } else {
            0
        }
    }

    /// The channel order with the given number: 0 for RGB, 1 for RGBA, 2 for
    /// BGRA, 3 for BGR.
    pub fn from(value: u8) -> (channels: YuvSourceChannels)
        requires
            value <= 3,
        ensures
            channels == match value {
                0 => YuvSourceChannels::Rgb,
                1 => YuvSourceChannels::Rgba,
                2 => YuvSourceChannels::Bgra,
                _ => YuvSourceChannels::Bgr,
            },
    {
        match value {
            0 => YuvSourceChannels::Rgb,
            1 => YuvSourceChannels::Rgba,
            2 => YuvSourceChannels::Bgra,
            _ => YuvSourceChannels::Bgr,
        }
    }

    pub fn get_channels_count(&self) -> (count: usize)
        ensures
            count == self.spec_channels_count(),
    {
        match self {
            YuvSourceChannels::Rgb | YuvSourceChannels::Bgr => 3,
            YuvSourceChannels::Rgba | YuvSourceChannels::Bgra => 4,
        }
    }

    pub fn has_alpha(&self) -> (alpha: bool)
        ensures
            alpha == self.spec_has_alpha(),
    {
        match self {
            YuvSourceChannels::Rgb | YuvSourceChannels::Bgr => false,
            YuvSourceChannels::Rgba | YuvSourceChannels::Bgra => true,
        }
    }

    pub fn get_r_channel_offset(&self) -> (offset: usize)
        ensures
            offset == self.spec_r_offset(),
    {
        match self {
            YuvSourceChannels::Rgb => 0,
            YuvSourceChannels::Rgba => 0,
            YuvSourceChannels::Bgra => 2,
            YuvSourceChannels::Bgr => 2,
        }
    }

    pub fn get_g_channel_offset(&self) -> (offset: usize)
        ensures
            offset == self.spec_g_offset(),
    {
        1
    }

    pub fn get_b_channel_offset(&self) -> (offset: usize)
        ensures
            offset == self.spec_b_offset(),
    {
        match self {
            YuvSourceChannels::Rgb => 2,
            YuvSourceChannels::Rgba => 2,
            YuvSourceChannels::Bgra => 0,
            YuvSourceChannels::Bgr => 0,
        }
    }

    pub fn get_a_channel_offset(&self) -> (offset: usize)
        ensures
            offset == self.spec_a_offset(),
    {
        match self {
            YuvSourceChannels::Rgb | YuvSourceChannels::Bgr => 0,
            YuvSourceChannels::Rgba | YuvSourceChannels::Bgra => 3,
        }
    }
}

/// The four layouts of a packed 4:2:2 group of four bytes: two luma samples
/// and the chroma pair they share.
#[derive(Debug, Copy, Clone, PartialEq, Eq, Structural)]
pub enum Yuy2Description {
    YUYV,
    UYVY,
    YVYU,
    VYUY,
}

impl Yuy2Description {
    pub open spec fn spec_u_position(self) -> int {
        match self {
            Yuy2Description::YUYV => 1,
            Yuy2Description::UYVY => 0,
            Yuy2Description::YVYU => 3,
            Yuy2Description::VYUY => 2,
        }
    }

    pub open spec fn spec_v_position(self) -> int {
        match self {
            Yuy2Description::YUYV => 3,
            Yuy2Description::UYVY => 2,
            Yuy2Description::YVYU => 1,
            Yuy2Description::VYUY => 0,
        }
    }

    pub open spec fn spec_first_y_position(self) -> int {
        match self {
            Yuy2Description::YUYV | Yuy2Description::YVYU => 0,
            Yuy2Description::UYVY | Yuy2Description::VYUY => 1,
        }
    }

    pub open spec fn spec_second_y_position(self) -> int {
        self.spec_first_y_position() + 2
    }

    /// The layout with the given number: 0 for YUYV, 1 for UYVY, 2 for YVYU,
    /// 3 for VYUY.
    pub fn from(value: usize) -> (layout: Yuy2Description)
        requires
            value <= 3,
        ensures
            layout == match value {
                0 => Yuy2Description::YUYV,
                1 => Yuy2Description::UYVY,
                2 => Yuy2Description::YVYU,
                _ => Yuy2Description::VYUY,
            },
    {
        match value {
            0 => Yuy2Description::YUYV,
            1 => Yuy2Description::UYVY,
            2 => Yuy2Description::YVYU,
            _ => Yuy2Description::VYUY,
        }
    }

    pub fn get_u_position(&self) -> (position: usize)
        ensures
            position == self.spec_u_position(),
    {
        match self {
            Yuy2Description::YUYV => 1,
            Yuy2Description::UYVY => 0,
            Yuy2Description::YVYU => 3,
            Yuy2Description::VYUY => 2,
        }
    }

    pub fn get_v_position(&self) -> (position: usize)
        ensures
            position == self.spec_v_position(),
    {
        match self {
            Yuy2Description::YUYV => 3,
            Yuy2Description::UYVY => 2,
            Yuy2Description::YVYU => 1,
            Yuy2Description::VYUY => 0,
        }
    }

    pub fn get_first_y_position(&self) -> (position: usize)
        ensures
            position == self.spec_first_y_position(),
    {
        match self {
            Yuy2Description::YUYV => 0,
            Yuy2Description::UYVY => 1,
            Yuy2Description::YVYU => 0,
            Yuy2Description::VYUY => 1,
        }
    }

    pub fn get_second_y_position(&self) -> (position: usize)
        ensures
            position == self.spec_second_y_position(),
    {
        match self {
            Yuy2Description::YUYV => 2,
            Yuy2Description::UYVY => 3,
            Yuy2Description::YVYU => 2,
            Yuy2Description::VYUY => 3,
        }
    }
}

} // verus!

//! The fixed-point coefficients of the standard matrices for 8-bit samples,
//! proved equal to what the exact formulas give.

use crate::fraction::Fraction;
use crate::fraction::lemma_quantized_value;
use crate::pixel::inverse_coefficients;
use crate::rgba_to_nv::forward_coefficients;
use crate::yuv_support::CbCrForwardTransform;
use crate::yuv_support::CbCrInverseTransform;
use crate::yuv_support::spec_forward_transform;
use crate::yuv_support::ToIntegerTransform;
use crate::yuv_support::spec_inverse_transform;
use crate::yuv_support::YuvRange;
use crate::yuv_support::YuvStandardMatrix;
use vstd::arithmetic::power2::lemma2_to64;
use vstd::prelude::*;

verus! {

/// The forward coefficients of the standard matrices at 8 bits, as a table.
pub open spec fn standard_forward(matrix: YuvStandardMatrix, range: YuvRange) -> CbCrForwardTransform<
    i32,
> {
    match (matrix, range) {
        (YuvStandardMatrix::Bt601, YuvRange::Full) => CbCrForwardTransform { yr: 77i32, yg: 150i32, yb: 29i32, cb_r: -43i32, cb_g: -85i32, cb_b: 128i32, cr_r: 128i32, cr_g: -107i32, cr_b: -21i32 },
        (YuvStandardMatrix::Bt601, YuvRange::TV) => CbCrForwardTransform { yr: 66i32, yg: 129i32, yb: 25i32, cb_r: -38i32, cb_g: -74i32, cb_b: 112i32, cr_r: 112i32, cr_g: -94i32, cr_b: -18i32 },
        (YuvStandardMatrix::Bt709, YuvRange::Full) => CbCrForwardTransform { yr: 54i32, yg: 183i32, yb: 18i32, cb_r: -29i32, cb_g: -99i32, cb_b: 128i32, cr_r: 128i32, cr_g: -116i32, cr_b: -12i32 },
        (YuvStandardMatrix::Bt709, YuvRange::TV) => CbCrForwardTransform { yr: 47i32, yg: 157i32, yb: 16i32, cb_r: -26i32, cb_g: -87i32, cb_b: 112i32, cr_r: 112i32, cr_g: -102i32, cr_b: -10i32 },
        (YuvStandardMatrix::Bt2020, YuvRange::Full) => CbCrForwardTransform { yr: 67i32, yg: 174i32, yb: 15i32, cb_r: -36i32, cb_g: -92i32, cb_b: 128i32, cr_r: 128i32, cr_g: -118i32, cr_b: -10i32 },
        (YuvStandardMatrix::Bt2020, YuvRange::TV) => CbCrForwardTransform { yr: 58i32, yg: 149i32, yb: 13i32, cb_r: -31i32, cb_g: -81i32, cb_b: 112i32, cr_r: 112i32, cr_g: -103i32, cr_b: -9i32 },
        (YuvStandardMatrix::Smpte240, YuvRange::Full) => CbCrForwardTransform { yr: 22i32, yg: 179i32, yb: 54i32, cb_r: -14i32, cb_g: -114i32, cb_b: 128i32, cr_r: 128i32, cr_g: -98i32, cr_b: -30i32 },
        (YuvStandardMatrix::Smpte240, YuvRange::TV) => CbCrForwardTransform { yr: 19i32, yg: 154i32, yb: 47i32, cb_r: -12i32, cb_g: -100i32, cb_b: 112i32, cr_r: 112i32, cr_g: -86i32, cr_b: -26i32 },
        (YuvStandardMatrix::Bt470_6, YuvRange::Full) => CbCrForwardTransform { yr: 57i32, yg: 181i32, yb: 18i32, cb_r: -31i32, cb_g: -97i32, cb_b: 128i32, cr_r: 128i32, cr_g: -116i32, cr_b: -12i32 },
        (YuvStandardMatrix::Bt470_6, YuvRange::TV) => CbCrForwardTransform { yr: 49i32, yg: 155i32, yb: 16i32, cb_r: -27i32, cb_g: -86i32, cb_b: 112i32, cr_r: 112i32, cr_g: -102i32, cr_b: -10i32 },
        (YuvStandardMatrix::Custom(_, _), _) => forward_coefficients(range, matrix),
    }
}

/// The inverse coefficients of the standard matrices for 8-bit samples, with
/// 6 fractional bits, as a table.
pub open spec fn standard_inverse(matrix: YuvStandardMatrix, range: YuvRange) -> CbCrInverseTransform<
    i32,
> {
    match (matrix, range) {
        (YuvStandardMatrix::Bt601, YuvRange::Full) => CbCrInverseTransform { y_coef: 64i32, cr_coef: 90i32, cb_coef: 113i32, g_coeff_1: 46i32, g_coeff_2: 22i32 },
        (YuvStandardMatrix::Bt601, YuvRange::TV) => CbCrInverseTransform { y_coef: 75i32, cr_coef: 102i32, cb_coef: 129i32, g_coeff_1: 52i32, g_coeff_2: 25i32 },
        (YuvStandardMatrix::Bt709, YuvRange::Full) => CbCrInverseTransform { y_coef: 64i32, cr_coef: 101i32, cb_coef: 119i32, g_coeff_1: 30i32, g_coeff_2: 12i32 },
        (YuvStandardMatrix::Bt709, YuvRange::TV) => CbCrInverseTransform { y_coef: 75i32, cr_coef: 115i32, cb_coef: 135i32, g_coeff_1: 34i32, g_coeff_2: 14i32 },
        (YuvStandardMatrix::Bt2020, YuvRange::Full) => CbCrInverseTransform { y_coef: 64i32, cr_coef: 94i32, cb_coef: 120i32, g_coeff_1: 37i32, g_coeff_2: 11i32 },
        (YuvStandardMatrix::Bt2020, YuvRange::TV) => CbCrInverseTransform { y_coef: 75i32, cr_coef: 107i32, cb_coef: 137i32, g_coeff_1: 42i32, g_coeff_2: 12i32 },
        (YuvStandardMatrix::Smpte240, YuvRange::Full) => CbCrInverseTransform { y_coef: 64i32, cr_coef: 117i32, cb_coef: 101i32, g_coeff_1: 15i32, g_coeff_2: 31i32 },
        (YuvStandardMatrix::Smpte240, YuvRange::TV) => CbCrInverseTransform { y_coef: 75i32, cr_coef: 133i32, cb_coef: 115i32, g_coeff_1: 17i32, g_coeff_2: 35i32 },
        (YuvStandardMatrix::Bt470_6, YuvRange::Full) => CbCrInverseTransform { y_coef: 64i32, cr_coef: 100i32, cb_coef: 119i32, g_coeff_1: 31i32, g_coeff_2: 12i32 },
        (YuvStandardMatrix::Bt470_6, YuvRange::TV) => CbCrInverseTransform { y_coef: 75i32, cr_coef: 113i32, cb_coef: 135i32, g_coeff_1: 36i32, g_coeff_2: 14i32 },
        (YuvStandardMatrix::Custom(_, _), _) => inverse_coefficients(range, matrix, 8, 255, 6),
    }
}

proof fn lemma_forward_bt601_full()
    by (nonlinear_arith)
    ensures
        forward_coefficients(YuvRange::Full, YuvStandardMatrix::Bt601) == standard_forward(
            YuvStandardMatrix::Bt601,
            YuvRange::Full,
        ),
{
    lemma2_to64();
    let kr = Fraction { num: 299, den: 1000 };
    let kb = Fraction { num: 114, den: 1000 };
    assert(YuvStandardMatrix::Bt601.spec_kr_kb().kr == kr);
    assert(YuvStandardMatrix::Bt601.spec_kr_kb().kb == kb);
    let exact = spec_forward_transform(255, 255, 255, kr, kb);
    lemma_quantized_value(exact.yr, 8, 77);
    lemma_quantized_value(exact.yg, 8, 150);
    lemma_quantized_value(exact.yb, 8, 29);
    lemma_quantized_value(exact.cb_r, 8, -43);
    lemma_quantized_value(exact.cb_g, 8, -85);
    lemma_quantized_value(exact.cb_b, 8, 128);
    lemma_quantized_value(exact.cr_r, 8, 128);
    lemma_quantized_value(exact.cr_g, 8, -107);
    lemma_quantized_value(exact.cr_b, 8, -21);
}

proof fn lemma_inverse_bt601_full()
    by (nonlinear_arith)
    ensures
        inverse_coefficients(YuvRange::Full, YuvStandardMatrix::Bt601, 8, 255, 6)
            == standard_inverse(YuvStandardMatrix::Bt601, YuvRange::Full),
{
    lemma2_to64();
    let kr = Fraction { num: 299, den: 1000 };
    let kb = Fraction { num: 114, den: 1000 };
    assert(YuvStandardMatrix::Bt601.spec_kr_kb().kr == kr);
    assert(YuvStandardMatrix::Bt601.spec_kr_kb().kb == kb);
    let exact = spec_inverse_transform(255, 255, 255, kr, kb);
    lemma_quantized_value(exact.y_coef, 6, 64);
    lemma_quantized_value(exact.cr_coef, 6, 90);
    lemma_quantized_value(exact.cb_coef, 6, 113);
    lemma_quantized_value(exact.g_coeff_1, 6, 46);
    lemma_quantized_value(exact.g_coeff_2, 6, 22);
}

proof fn lemma_forward_bt601_tv()
    by (nonlinear_arith)
    ensures
        forward_coefficients(YuvRange::TV, YuvStandardMatrix::Bt601) == standard_forward(
            YuvStandardMatrix::Bt601,
            YuvRange::TV,
        ),
{
    lemma2_to64();
    let kr = Fraction { num: 299, den: 1000 };
    let kb = Fraction { num: 114, den: 1000 };
    assert(YuvStandardMatrix::Bt601.spec_kr_kb().kr == kr);
    assert(YuvStandardMatrix::Bt601.spec_kr_kb().kb == kb);
    let exact = spec_forward_transform(255, 219, 224, kr, kb);
    lemma_quantized_value(exact.yr, 8, 66);
    lemma_quantized_value(exact.yg, 8, 129);
    lemma_quantized_value(exact.yb, 8, 25);
    lemma_quantized_value(exact.cb_r, 8, -38);
    lemma_quantized_value(exact.cb_g, 8, -74);
    lemma_quantized_value(exact.cb_b, 8, 112);
    lemma_quantized_value(exact.cr_r, 8, 112);
    lemma_quantized_value(exact.cr_g, 8, -94);
    lemma_quantized_value(exact.cr_b, 8, -18);
}

proof fn lemma_inverse_bt601_tv()
    by (nonlinear_arith)
    ensures
        inverse_coefficients(YuvRange::TV, YuvStandardMatrix::Bt601, 8, 255, 6)
            == standard_inverse(YuvStandardMatrix::Bt601, YuvRange::TV),
{
    lemma2_to64();
    let kr = Fraction { num: 299, den: 1000 };
    let kb = Fraction { num: 114, den: 1000 };
    assert(YuvStandardMatrix::Bt601.spec_kr_kb().kr == kr);
    assert(YuvStandardMatrix::Bt601.spec_kr_kb().kb == kb);
    let exact = spec_inverse_transform(255, 219, 224, kr, kb);
    lemma_quantized_value(exact.y_coef, 6, 75);
    lemma_quantized_value(exact.cr_coef, 6, 102);
    lemma_quantized_value(exact.cb_coef, 6, 129);
    lemma_quantized_value(exact.g_coeff_1, 6, 52);
    lemma_quantized_value(exact.g_coeff_2, 6, 25);
}

proof fn lemma_forward_bt709_full()
    by (nonlinear_arith)
    ensures
        forward_coefficients(YuvRange::Full, YuvStandardMatrix::Bt709) == standard_forward(
            YuvStandardMatrix::Bt709,
            YuvRange::Full,
        ),
{
    lemma2_to64();
    let kr = Fraction { num: 2126, den: 10000 };
    let kb = Fraction { num: 722, den: 10000 };
    assert(YuvStandardMatrix::Bt709.spec_kr_kb().kr == kr);
    assert(YuvStandardMatrix::Bt709.spec_kr_kb().kb == kb);
    let exact = spec_forward_transform(255, 255, 255, kr, kb);
    lemma_quantized_value(exact.yr, 8, 54);
    lemma_quantized_value(exact.yg, 8, 183);
    lemma_quantized_value(exact.yb, 8, 18);
    lemma_quantized_value(exact.cb_r, 8, -29);
    lemma_quantized_value(exact.cb_g, 8, -99);
    lemma_quantized_value(exact.cb_b, 8, 128);
    lemma_quantized_value(exact.cr_r, 8, 128);
    lemma_quantized_value(exact.cr_g, 8, -116);
    lemma_quantized_value(exact.cr_b, 8, -12);
}

proof fn lemma_inverse_bt709_full()
    by (nonlinear_arith)
    ensures
        inverse_coefficients(YuvRange::Full, YuvStandardMatrix::Bt709, 8, 255, 6)
            == standard_inverse(YuvStandardMatrix::Bt709, YuvRange::Full),
{
    lemma2_to64();
    let kr = Fraction { num: 2126, den: 10000 };
    let kb = Fraction { num: 722, den: 10000 };
    assert(YuvStandardMatrix::Bt709.spec_kr_kb().kr == kr);
    assert(YuvStandardMatrix::Bt709.spec_kr_kb().kb == kb);
    let exact = spec_inverse_transform(255, 255, 255, kr, kb);
    lemma_quantized_value(exact.y_coef, 6, 64);
    lemma_quantized_value(exact.cr_coef, 6, 101);
    lemma_quantized_value(exact.cb_coef, 6, 119);
    lemma_quantized_value(exact.g_coeff_1, 6, 30);
    lemma_quantized_value(exact.g_coeff_2, 6, 12);
}

proof fn lemma_forward_bt709_tv()
    by (nonlinear_arith)
    ensures
        forward_coefficients(YuvRange::TV, YuvStandardMatrix::Bt709) == standard_forward(
            YuvStandardMatrix::Bt709,
            YuvRange::TV,
        ),
{
    lemma2_to64();
    let kr = Fraction { num: 2126, den: 10000 };
    let kb = Fraction { num: 722, den: 10000 };
    assert(YuvStandardMatrix::Bt709.spec_kr_kb().kr == kr);
    assert(YuvStandardMatrix::Bt709.spec_kr_kb().kb == kb);
    let exact = spec_forward_transform(255, 219, 224, kr, kb);
    lemma_quantized_value(exact.yr, 8, 47);
    lemma_quantized_value(exact.yg, 8, 157);
    lemma_quantized_value(exact.yb, 8, 16);
    lemma_quantized_value(exact.cb_r, 8, -26);
    lemma_quantized_value(exact.cb_g, 8, -87);
    lemma_quantized_value(exact.cb_b, 8, 112);
    lemma_quantized_value(exact.cr_r, 8, 112);
    lemma_quantized_value(exact.cr_g, 8, -102);
    lemma_quantized_value(exact.cr_b, 8, -10);
}

proof fn lemma_inverse_bt709_tv()
    by (nonlinear_arith)
    ensures
        inverse_coefficients(YuvRange::TV, YuvStandardMatrix::Bt709, 8, 255, 6)
            == standard_inverse(YuvStandardMatrix::Bt709, YuvRange::TV),
{
    lemma2_to64();
    let kr = Fraction { num: 2126, den: 10000 };
    let kb = Fraction { num: 722, den: 10000 };
    assert(YuvStandardMatrix::Bt709.spec_kr_kb().kr == kr);
    assert(YuvStandardMatrix::Bt709.spec_kr_kb().kb == kb);
    let exact = spec_inverse_transform(255, 219, 224, kr, kb);
    lemma_quantized_value(exact.y_coef, 6, 75);
    lemma_quantized_value(exact.cr_coef, 6, 115);
    lemma_quantized_value(exact.cb_coef, 6, 135);
    lemma_quantized_value(exact.g_coeff_1, 6, 34);
    lemma_quantized_value(exact.g_coeff_2, 6, 14);
}

proof fn lemma_forward_bt2020_full()
    by (nonlinear_arith)
    ensures
        forward_coefficients(YuvRange::Full, YuvStandardMatrix::Bt2020) == standard_forward(
            YuvStandardMatrix::Bt2020,
            YuvRange::Full,
        ),
{
    lemma2_to64();
    let kr = Fraction { num: 2627, den: 10000 };
    let kb = Fraction { num: 593, den: 10000 };
    assert(YuvStandardMatrix::Bt2020.spec_kr_kb().kr == kr);
    assert(YuvStandardMatrix::Bt2020.spec_kr_kb().kb == kb);
    let exact = spec_forward_transform(255, 255, 255, kr, kb);
    lemma_quantized_value(exact.yr, 8, 67);
    lemma_quantized_value(exact.yg, 8, 174);
    lemma_quantized_value(exact.yb, 8, 15);
    lemma_quantized_value(exact.cb_r, 8, -36);
    lemma_quantized_value(exact.cb_g, 8, -92);
    lemma_quantized_value(exact.cb_b, 8, 128);
    lemma_quantized_value(exact.cr_r, 8, 128);
    lemma_quantized_value(exact.cr_g, 8, -118);
    lemma_quantized_value(exact.cr_b, 8, -10);
}

proof fn lemma_inverse_bt2020_full()
    by (nonlinear_arith)
    ensures
        inverse_coefficients(YuvRange::Full, YuvStandardMatrix::Bt2020, 8, 255, 6)
            == standard_inverse(YuvStandardMatrix::Bt2020, YuvRange::Full),
{
    lemma2_to64();
    let kr = Fraction { num: 2627, den: 10000 };
    let kb = Fraction { num: 593, den: 10000 };
    assert(YuvStandardMatrix::Bt2020.spec_kr_kb().kr == kr);
    assert(YuvStandardMatrix::Bt2020.spec_kr_kb().kb == kb);
    let exact = spec_inverse_transform(255, 255, 255, kr, kb);
    lemma_quantized_value(exact.y_coef, 6, 64);
    lemma_quantized_value(exact.cr_coef, 6, 94);
    lemma_quantized_value(exact.cb_coef, 6, 120);
    lemma_quantized_value(exact.g_coeff_1, 6, 37);
    lemma_quantized_value(exact.g_coeff_2, 6, 11);
}

proof fn lemma_forward_bt2020_tv()
    by (nonlinear_arith)
    ensures
        forward_coefficients(YuvRange::TV, YuvStandardMatrix::Bt2020) == standard_forward(
            YuvStandardMatrix::Bt2020,
            YuvRange::TV,
        ),
{
    lemma2_to64();
    let kr = Fraction { num: 2627, den: 10000 };
    let kb = Fraction { num: 593, den: 10000 };
    assert(YuvStandardMatrix::Bt2020.spec_kr_kb().kr == kr);
    assert(YuvStandardMatrix::Bt2020.spec_kr_kb().kb == kb);
    let exact = spec_forward_transform(255, 219, 224, kr, kb);
    lemma_quantized_value(exact.yr, 8, 58);
    lemma_quantized_value(exact.yg, 8, 149);
    lemma_quantized_value(exact.yb, 8, 13);
    lemma_quantized_value(exact.cb_r, 8, -31);
    lemma_quantized_value(exact.cb_g, 8, -81);
    lemma_quantized_value(exact.cb_b, 8, 112);
    lemma_quantized_value(exact.cr_r, 8, 112);
    lemma_quantized_value(exact.cr_g, 8, -103);
    lemma_quantized_value(exact.cr_b, 8, -9);
}

proof fn lemma_inverse_bt2020_tv()
    by (nonlinear_arith)
    ensures
        inverse_coefficients(YuvRange::TV, YuvStandardMatrix::Bt2020, 8, 255, 6)
            == standard_inverse(YuvStandardMatrix::Bt2020, YuvRange::TV),
{
    lemma2_to64();
    let kr = Fraction { num: 2627, den: 10000 };
    let kb = Fraction { num: 593, den: 10000 };
    assert(YuvStandardMatrix::Bt2020.spec_kr_kb().kr == kr);
    assert(YuvStandardMatrix::Bt2020.spec_kr_kb().kb == kb);
    let exact = spec_inverse_transform(255, 219, 224, kr, kb);
    lemma_quantized_value(exact.y_coef, 6, 75);
    lemma_quantized_value(exact.cr_coef, 6, 107);
    lemma_quantized_value(exact.cb_coef, 6, 137);
    lemma_quantized_value(exact.g_coeff_1, 6, 42);
    lemma_quantized_value(exact.g_coeff_2, 6, 12);
}

proof fn lemma_forward_smpte240_full()
    by (nonlinear_arith)
    ensures
        forward_coefficients(YuvRange::Full, YuvStandardMatrix::Smpte240) == standard_forward(
            YuvStandardMatrix::Smpte240,
            YuvRange::Full,
        ),
{
    lemma2_to64();
    let kr = Fraction { num: 87, den: 1000 };
    let kb = Fraction { num: 212, den: 1000 };
    assert(YuvStandardMatrix::Smpte240.spec_kr_kb().kr == kr);
    assert(YuvStandardMatrix::Smpte240.spec_kr_kb().kb == kb);
    let exact = spec_forward_transform(255, 255, 255, kr, kb);
    lemma_quantized_value(exact.yr, 8, 22);
    lemma_quantized_value(exact.yg, 8, 179);
    lemma_quantized_value(exact.yb, 8, 54);
    lemma_quantized_value(exact.cb_r, 8, -14);
    lemma_quantized_value(exact.cb_g, 8, -114);
    lemma_quantized_value(exact.cb_b, 8, 128);
    lemma_quantized_value(exact.cr_r, 8, 128);
    lemma_quantized_value(exact.cr_g, 8, -98);
    lemma_quantized_value(exact.cr_b, 8, -30);
}

proof fn lemma_inverse_smpte240_full()
    by (nonlinear_arith)
    ensures
        inverse_coefficients(YuvRange::Full, YuvStandardMatrix::Smpte240, 8, 255, 6)
            == standard_inverse(YuvStandardMatrix::Smpte240, YuvRange::Full),
{
    lemma2_to64();
    let kr = Fraction { num: 87, den: 1000 };
    let kb = Fraction { num: 212, den: 1000 };
    assert(YuvStandardMatrix::Smpte240.spec_kr_kb().kr == kr);
    assert(YuvStandardMatrix::Smpte240.spec_kr_kb().kb == kb);
    let exact = spec_inverse_transform(255, 255, 255, kr, kb);
    lemma_quantized_value(exact.y_coef, 6, 64);
    lemma_quantized_value(exact.cr_coef, 6, 117);
    lemma_quantized_value(exact.cb_coef, 6, 101);
    lemma_quantized_value(exact.g_coeff_1, 6, 15);
    lemma_quantized_value(exact.g_coeff_2, 6, 31);
}

proof fn lemma_forward_smpte240_tv()
    by (nonlinear_arith)
    ensures
        forward_coefficients(YuvRange::TV, YuvStandardMatrix::Smpte240) == standard_forward(
            YuvStandardMatrix::Smpte240,
            YuvRange::TV,
        ),
{
    lemma2_to64();
    let kr = Fraction { num: 87, den: 1000 };
    let kb = Fraction { num: 212, den: 1000 };
    assert(YuvStandardMatrix::Smpte240.spec_kr_kb().kr == kr);
    assert(YuvStandardMatrix::Smpte240.spec_kr_kb().kb == kb);
    let exact = spec_forward_transform(255, 219, 224, kr, kb);
    lemma_quantized_value(exact.yr, 8, 19);
    lemma_quantized_value(exact.yg, 8, 154);
    lemma_quantized_value(exact.yb, 8, 47);
    lemma_quantized_value(exact.cb_r, 8, -12);
    lemma_quantized_value(exact.cb_g, 8, -100);
    lemma_quantized_value(exact.cb_b, 8, 112);
    lemma_quantized_value(exact.cr_r, 8, 112);
    lemma_quantized_value(exact.cr_g, 8, -86);
    lemma_quantized_value(exact.cr_b, 8, -26);
}

proof fn lemma_inverse_smpte240_tv()
    by (nonlinear_arith)
    ensures
        inverse_coefficients(YuvRange::TV, YuvStandardMatrix::Smpte240, 8, 255, 6)
            == standard_inverse(YuvStandardMatrix::Smpte240, YuvRange::TV),
{
    lemma2_to64();
    let kr = Fraction { num: 87, den: 1000 };
    let kb = Fraction { num: 212, den: 1000 };
    assert(YuvStandardMatrix::Smpte240.spec_kr_kb().kr == kr);
    assert(YuvStandardMatrix::Smpte240.spec_kr_kb().kb == kb);
    let exact = spec_inverse_transform(255, 219, 224, kr, kb);
    lemma_quantized_value(exact.y_coef, 6, 75);
    lemma_quantized_value(exact.cr_coef, 6, 133);
    lemma_quantized_value(exact.cb_coef, 6, 115);
    lemma_quantized_value(exact.g_coeff_1, 6, 17);
    lemma_quantized_value(exact.g_coeff_2, 6, 35);
}

proof fn lemma_forward_bt470_6_full()
    by (nonlinear_arith)
    ensures
        forward_coefficients(YuvRange::Full, YuvStandardMatrix::Bt470_6) == standard_forward(
            YuvStandardMatrix::Bt470_6,
            YuvRange::Full,
        ),
{
    lemma2_to64();
    let kr = Fraction { num: 2220, den: 10000 };
    let kb = Fraction { num: 713, den: 10000 };
    assert(YuvStandardMatrix::Bt470_6.spec_kr_kb().kr == kr);
    assert(YuvStandardMatrix::Bt470_6.spec_kr_kb().kb == kb);
    let exact = spec_forward_transform(255, 255, 255, kr, kb);
    lemma_quantized_value(exact.yr, 8, 57);
    lemma_quantized_value(exact.yg, 8, 181);
    lemma_quantized_value(exact.yb, 8, 18);
    lemma_quantized_value(exact.cb_r, 8, -31);
    lemma_quantized_value(exact.cb_g, 8, -97);
    lemma_quantized_value(exact.cb_b, 8, 128);
    lemma_quantized_value(exact.cr_r, 8, 128);
    lemma_quantized_value(exact.cr_g, 8, -116);
    lemma_quantized_value(exact.cr_b, 8, -12);
}

proof fn lemma_inverse_bt470_6_full()
    by (nonlinear_arith)
    ensures
        inverse_coefficients(YuvRange::Full, YuvStandardMatrix::Bt470_6, 8, 255, 6)
            == standard_inverse(YuvStandardMatrix::Bt470_6, YuvRange::Full),
{
    lemma2_to64();
    let kr = Fraction { num: 2220, den: 10000 };
    let kb = Fraction { num: 713, den: 10000 };
    assert(YuvStandardMatrix::Bt470_6.spec_kr_kb().kr == kr);
    assert(YuvStandardMatrix::Bt470_6.spec_kr_kb().kb == kb);
    let exact = spec_inverse_transform(255, 255, 255, kr, kb);
    lemma_quantized_value(exact.y_coef, 6, 64);
    lemma_quantized_value(exact.cr_coef, 6, 100);
    lemma_quantized_value(exact.cb_coef, 6, 119);
    lemma_quantized_value(exact.g_coeff_1, 6, 31);
    lemma_quantized_value(exact.g_coeff_2, 6, 12);
}

proof fn lemma_forward_bt470_6_tv()
    by (nonlinear_arith)
    ensures
        forward_coefficients(YuvRange::TV, YuvStandardMatrix::Bt470_6) == standard_forward(
            YuvStandardMatrix::Bt470_6,
            YuvRange::TV,
        ),
{
    lemma2_to64();
    let kr = Fraction { num: 2220, den: 10000 };
    let kb = Fraction { num: 713, den: 10000 };
    assert(YuvStandardMatrix::Bt470_6.spec_kr_kb().kr == kr);
    assert(YuvStandardMatrix::Bt470_6.spec_kr_kb().kb == kb);
    let exact = spec_forward_transform(255, 219, 224, kr, kb);
    lemma_quantized_value(exact.yr, 8, 49);
    lemma_quantized_value(exact.yg, 8, 155);
    lemma_quantized_value(exact.yb, 8, 16);
    lemma_quantized_value(exact.cb_r, 8, -27);
    lemma_quantized_value(exact.cb_g, 8, -86);
    lemma_quantized_value(exact.cb_b, 8, 112);
    lemma_quantized_value(exact.cr_r, 8, 112);
    lemma_quantized_value(exact.cr_g, 8, -102);
    lemma_quantized_value(exact.cr_b, 8, -10);
}

proof fn lemma_inverse_bt470_6_tv()
    by (nonlinear_arith)
    ensures
        inverse_coefficients(YuvRange::TV, YuvStandardMatrix::Bt470_6, 8, 255, 6)
            == standard_inverse(YuvStandardMatrix::Bt470_6, YuvRange::TV),
{
    lemma2_to64();
    let kr = Fraction { num: 2220, den: 10000 };
    let kb = Fraction { num: 713, den: 10000 };
    assert(YuvStandardMatrix::Bt470_6.spec_kr_kb().kr == kr);
    assert(YuvStandardMatrix::Bt470_6.spec_kr_kb().kb == kb);
    let exact = spec_inverse_transform(255, 219, 224, kr, kb);
    lemma_quantized_value(exact.y_coef, 6, 75);
    lemma_quantized_value(exact.cr_coef, 6, 113);
    lemma_quantized_value(exact.cb_coef, 6, 135);
    lemma_quantized_value(exact.g_coeff_1, 6, 36);
    lemma_quantized_value(exact.g_coeff_2, 6, 14);
}

/// The coefficients that the exact formulas give for the standard matrices
/// are those of the tables.
pub proof fn lemma_standard_coefficients(matrix: YuvStandardMatrix, range: YuvRange)
    ensures
        forward_coefficients(range, matrix) == standard_forward(matrix, range),
        inverse_coefficients(range, matrix, 8, 255, 6) == standard_inverse(matrix, range),
{
    match (matrix, range) {
        (YuvStandardMatrix::Bt601, YuvRange::Full) => {
            lemma_forward_bt601_full();
            lemma_inverse_bt601_full();
        },
        (YuvStandardMatrix::Bt601, YuvRange::TV) => {
            lemma_forward_bt601_tv();
            lemma_inverse_bt601_tv();
        },
        (YuvStandardMatrix::Bt709, YuvRange::Full) => {
            lemma_forward_bt709_full();
            lemma_inverse_bt709_full();
        },
        (YuvStandardMatrix::Bt709, YuvRange::TV) => {
            lemma_forward_bt709_tv();
            lemma_inverse_bt709_tv();
        },
        (YuvStandardMatrix::Bt2020, YuvRange::Full) => {
            lemma_forward_bt2020_full();
            lemma_inverse_bt2020_full();
        },
        (YuvStandardMatrix::Bt2020, YuvRange::TV) => {
            lemma_forward_bt2020_tv();
            lemma_inverse_bt2020_tv();
        },
        (YuvStandardMatrix::Smpte240, YuvRange::Full) => {
            lemma_forward_smpte240_full();
            lemma_inverse_smpte240_full();
        },
        (YuvStandardMatrix::Smpte240, YuvRange::TV) => {
            lemma_forward_smpte240_tv();
            lemma_inverse_smpte240_tv();
        },
        (YuvStandardMatrix::Bt470_6, YuvRange::Full) => {
            lemma_forward_bt470_6_full();
            lemma_inverse_bt470_6_full();
        },
        (YuvStandardMatrix::Bt470_6, YuvRange::TV) => {
            lemma_forward_bt470_6_tv();
            lemma_inverse_bt470_6_tv();
        },
        (YuvStandardMatrix::Custom(_, _), _) => {},
    }
}

} // verus!

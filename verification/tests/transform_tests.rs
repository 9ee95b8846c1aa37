use yuvutils::fraction::Fraction;
use yuvutils::numerics::{
    div_by_255, power_of_two, premultiply, qrshr, shift_right, shift_saturate, swapped, to_ne,
};
use yuvutils::pixel::{
    average, get_inverse_coefficients, get_pixel_start, read_pixel, rgb_to_chroma, rgb_to_luma,
    store_pixel, weigh, yuv_to_rgb, Rounding,
};
use yuvutils::rgba_to_nv::get_forward_coefficients;
use yuvutils::planes::{check_plane, plane_len};
use yuvutils::yuv_error::YuvError;
use yuvutils::yuv_support::{
    get_forward_transform, get_inverse_transform, get_yuv_range, CbCrForwardTransform,
    CbCrInverseTransform, ToIntegerTransform, YuvBytesPacking, YuvChromaSample, YuvEndianness,
    YuvNVOrder, YuvRange, YuvSourceChannels, YuvStandardMatrix, Yuy2Description,
};

#[test]
fn range_tv_at_depth_8() {
    let range = get_yuv_range(8, YuvRange::TV);
    assert_eq!(range.bias_y, 16);
    assert_eq!(range.range_y, 219);
    assert_eq!(range.bias_uv, 128);
    assert_eq!(range.range_uv, 224);
    assert_eq!(range.range, YuvRange::TV);
}

#[test]
fn range_full_at_depth_8() {
    let range = get_yuv_range(8, YuvRange::Full);
    assert_eq!(range.bias_y, 0);
    assert_eq!(range.range_y, 255);
    assert_eq!(range.bias_uv, 128);
    assert_eq!(range.range_uv, 255);
    assert_eq!(range.range, YuvRange::Full);
}

#[test]
fn range_at_higher_depths() {
    let range = get_yuv_range(10, YuvRange::TV);
    assert_eq!((range.bias_y, range.bias_uv, range.range_y, range.range_uv), (64, 512, 876, 896));
    let range = get_yuv_range(12, YuvRange::TV);
    assert_eq!((range.bias_y, range.bias_uv, range.range_y, range.range_uv), (256, 2048, 3504, 3584));
    let range = get_yuv_range(16, YuvRange::TV);
    assert_eq!((range.bias_y, range.bias_uv, range.range_y, range.range_uv), (4096, 32768, 56064, 57344));
    let range = get_yuv_range(10, YuvRange::Full);
    assert_eq!((range.bias_y, range.bias_uv, range.range_y, range.range_uv), (0, 512, 1023, 1023));
    let range = get_yuv_range(16, YuvRange::Full);
    assert_eq!((range.bias_y, range.bias_uv, range.range_y, range.range_uv), (0, 32768, 65535, 65535));
    let range = get_yuv_range(31, YuvRange::Full);
    assert_eq!((range.bias_y, range.bias_uv, range.range_y, range.range_uv), (0, 1 << 30, i32::MAX as u32, i32::MAX as u32));
    let range = get_yuv_range(31, YuvRange::TV);
    assert_eq!((range.bias_y, range.bias_uv, range.range_y, range.range_uv), (16 << 23, 1 << 30, 219 << 23, 224 << 23));
}

#[test]
fn forward_coefficients_bt601_full() {
    let t = get_forward_coefficients(YuvRange::Full, YuvStandardMatrix::Bt601).unwrap();
    assert_eq!(
        [t.yr, t.yg, t.yb, t.cb_r, t.cb_g, t.cb_b, t.cr_r, t.cr_g, t.cr_b],
        [77, 150, 29, -43, -85, 128, 128, -107, -21]
    );
}

#[test]
fn inverse_coefficients_bt601_full() {
    let t = get_inverse_coefficients(YuvRange::Full, YuvStandardMatrix::Bt601, 8, 255, 6).unwrap();
    assert_eq!([t.y_coef, t.cr_coef, t.cb_coef, t.g_coeff_1, t.g_coeff_2], [64, 90, 113, 46, 22]);
    let t = get_inverse_coefficients(YuvRange::Full, YuvStandardMatrix::Bt601, 10, 1023, 6).unwrap();
    assert_eq!([t.y_coef, t.cr_coef, t.cb_coef, t.g_coeff_1, t.g_coeff_2], [64, 90, 113, 46, 22]);
    let t = get_inverse_coefficients(YuvRange::Full, YuvStandardMatrix::Bt601, 10, 1023, 13).unwrap();
    assert_eq!([t.y_coef, t.cr_coef, t.cb_coef, t.g_coeff_1, t.g_coeff_2], [8192, 11485, 14516, 5850, 2819]);
    let t = get_inverse_coefficients(YuvRange::Full, YuvStandardMatrix::Bt601, 12, 1023, 13).unwrap();
    assert_eq!([t.y_coef, t.cr_coef, t.cb_coef, t.g_coeff_1, t.g_coeff_2], [2046, 2869, 3626, 1461, 704]);
    let t = get_inverse_coefficients(YuvRange::Full, YuvStandardMatrix::Bt601, 12, 4095, 11).unwrap();
    assert_eq!([t.y_coef, t.cr_coef, t.cb_coef, t.g_coeff_1, t.g_coeff_2], [2048, 2871, 3629, 1463, 705]);
    let t = get_inverse_coefficients(YuvRange::Full, YuvStandardMatrix::Bt601, 16, 65535, 11).unwrap();
    assert_eq!([t.y_coef, t.cr_coef, t.cb_coef, t.g_coeff_1, t.g_coeff_2], [2048, 2871, 3629, 1463, 705]);
    let t = get_inverse_coefficients(YuvRange::Full, YuvStandardMatrix::Bt601, 8, 1023, 13).unwrap();
    assert_eq!([t.y_coef, t.cr_coef, t.cb_coef, t.g_coeff_1, t.g_coeff_2], [32864, 46076, 58236, 23470, 11310]);
}

#[test]
fn forward_coefficients_bt601_tv() {
    let t = get_forward_coefficients(YuvRange::TV, YuvStandardMatrix::Bt601).unwrap();
    assert_eq!(
        [t.yr, t.yg, t.yb, t.cb_r, t.cb_g, t.cb_b, t.cr_r, t.cr_g, t.cr_b],
        [66, 129, 25, -38, -74, 112, 112, -94, -18]
    );
}

#[test]
fn inverse_coefficients_bt601_tv() {
    let t = get_inverse_coefficients(YuvRange::TV, YuvStandardMatrix::Bt601, 8, 255, 6).unwrap();
    assert_eq!([t.y_coef, t.cr_coef, t.cb_coef, t.g_coeff_1, t.g_coeff_2], [75, 102, 129, 52, 25]);
    let t = get_inverse_coefficients(YuvRange::TV, YuvStandardMatrix::Bt601, 10, 1023, 6).unwrap();
    assert_eq!([t.y_coef, t.cr_coef, t.cb_coef, t.g_coeff_1, t.g_coeff_2], [75, 102, 129, 52, 25]);
    let t = get_inverse_coefficients(YuvRange::TV, YuvStandardMatrix::Bt601, 10, 1023, 13).unwrap();
    assert_eq!([t.y_coef, t.cr_coef, t.cb_coef, t.g_coeff_1, t.g_coeff_2], [9567, 13113, 16574, 6679, 3219]);
    let t = get_inverse_coefficients(YuvRange::TV, YuvStandardMatrix::Bt601, 12, 1023, 13).unwrap();
    assert_eq!([t.y_coef, t.cr_coef, t.cb_coef, t.g_coeff_1, t.g_coeff_2], [2392, 3278, 4143, 1670, 805]);
    let t = get_inverse_coefficients(YuvRange::TV, YuvStandardMatrix::Bt601, 12, 4095, 11).unwrap();
    assert_eq!([t.y_coef, t.cr_coef, t.cb_coef, t.g_coeff_1, t.g_coeff_2], [2393, 3281, 4146, 1671, 805]);
    let t = get_inverse_coefficients(YuvRange::TV, YuvStandardMatrix::Bt601, 16, 65535, 11).unwrap();
    assert_eq!([t.y_coef, t.cr_coef, t.cb_coef, t.g_coeff_1, t.g_coeff_2], [2394, 3281, 4147, 1671, 805]);
    let t = get_inverse_coefficients(YuvRange::TV, YuvStandardMatrix::Bt601, 8, 1023, 13).unwrap();
    assert_eq!([t.y_coef, t.cr_coef, t.cb_coef, t.g_coeff_1, t.g_coeff_2], [38267, 52452, 66295, 26718, 12875]);
}

#[test]
fn forward_coefficients_bt709_full() {
    let t = get_forward_coefficients(YuvRange::Full, YuvStandardMatrix::Bt709).unwrap();
    assert_eq!(
        [t.yr, t.yg, t.yb, t.cb_r, t.cb_g, t.cb_b, t.cr_r, t.cr_g, t.cr_b],
        [54, 183, 18, -29, -99, 128, 128, -116, -12]
    );
}

#[test]
fn inverse_coefficients_bt709_full() {
    let t = get_inverse_coefficients(YuvRange::Full, YuvStandardMatrix::Bt709, 8, 255, 6).unwrap();
    assert_eq!([t.y_coef, t.cr_coef, t.cb_coef, t.g_coeff_1, t.g_coeff_2], [64, 101, 119, 30, 12]);
    let t = get_inverse_coefficients(YuvRange::Full, YuvStandardMatrix::Bt709, 10, 1023, 6).unwrap();
    assert_eq!([t.y_coef, t.cr_coef, t.cb_coef, t.g_coeff_1, t.g_coeff_2], [64, 101, 119, 30, 12]);
    let t = get_inverse_coefficients(YuvRange::Full, YuvStandardMatrix::Bt709, 10, 1023, 13).unwrap();
    assert_eq!([t.y_coef, t.cr_coef, t.cb_coef, t.g_coeff_1, t.g_coeff_2], [8192, 12901, 15201, 3835, 1535]);
    let t = get_inverse_coefficients(YuvRange::Full, YuvStandardMatrix::Bt709, 12, 1023, 13).unwrap();
    assert_eq!([t.y_coef, t.cr_coef, t.cb_coef, t.g_coeff_1, t.g_coeff_2], [2046, 3223, 3797, 958, 383]);
    let t = get_inverse_coefficients(YuvRange::Full, YuvStandardMatrix::Bt709, 12, 4095, 11).unwrap();
    assert_eq!([t.y_coef, t.cr_coef, t.cb_coef, t.g_coeff_1, t.g_coeff_2], [2048, 3225, 3800, 959, 384]);
    let t = get_inverse_coefficients(YuvRange::Full, YuvStandardMatrix::Bt709, 16, 65535, 11).unwrap();
    assert_eq!([t.y_coef, t.cr_coef, t.cb_coef, t.g_coeff_1, t.g_coeff_2], [2048, 3225, 3800, 959, 384]);
    let t = get_inverse_coefficients(YuvRange::Full, YuvStandardMatrix::Bt709, 8, 1023, 13).unwrap();
    assert_eq!([t.y_coef, t.cr_coef, t.cb_coef, t.g_coeff_1, t.g_coeff_2], [32864, 51755, 60983, 15385, 6156]);
}

#[test]
fn forward_coefficients_bt709_tv() {
    let t = get_forward_coefficients(YuvRange::TV, YuvStandardMatrix::Bt709).unwrap();
    assert_eq!(
        [t.yr, t.yg, t.yb, t.cb_r, t.cb_g, t.cb_b, t.cr_r, t.cr_g, t.cr_b],
        [47, 157, 16, -26, -87, 112, 112, -102, -10]
    );
}

#[test]
fn inverse_coefficients_bt709_tv() {
    let t = get_inverse_coefficients(YuvRange::TV, YuvStandardMatrix::Bt709, 8, 255, 6).unwrap();
    assert_eq!([t.y_coef, t.cr_coef, t.cb_coef, t.g_coeff_1, t.g_coeff_2], [75, 115, 135, 34, 14]);
    let t = get_inverse_coefficients(YuvRange::TV, YuvStandardMatrix::Bt709, 10, 1023, 6).unwrap();
    assert_eq!([t.y_coef, t.cr_coef, t.cb_coef, t.g_coeff_1, t.g_coeff_2], [75, 115, 136, 34, 14]);
    let t = get_inverse_coefficients(YuvRange::TV, YuvStandardMatrix::Bt709, 10, 1023, 13).unwrap();
    assert_eq!([t.y_coef, t.cr_coef, t.cb_coef, t.g_coeff_1, t.g_coeff_2], [9567, 14729, 17356, 4378, 1752]);
    let t = get_inverse_coefficients(YuvRange::TV, YuvStandardMatrix::Bt709, 12, 1023, 13).unwrap();
    assert_eq!([t.y_coef, t.cr_coef, t.cb_coef, t.g_coeff_1, t.g_coeff_2], [2392, 3682, 4339, 1095, 438]);
    let t = get_inverse_coefficients(YuvRange::TV, YuvStandardMatrix::Bt709, 12, 4095, 11).unwrap();
    assert_eq!([t.y_coef, t.cr_coef, t.cb_coef, t.g_coeff_1, t.g_coeff_2], [2393, 3685, 4342, 1095, 438]);
    let t = get_inverse_coefficients(YuvRange::TV, YuvStandardMatrix::Bt709, 16, 65535, 11).unwrap();
    assert_eq!([t.y_coef, t.cr_coef, t.cb_coef, t.g_coeff_1, t.g_coeff_2], [2394, 3686, 4343, 1096, 438]);
    let t = get_inverse_coefficients(YuvRange::TV, YuvStandardMatrix::Bt709, 8, 1023, 13).unwrap();
    assert_eq!([t.y_coef, t.cr_coef, t.cb_coef, t.g_coeff_1, t.g_coeff_2], [38267, 58917, 69423, 17514, 7008]);
}

#[test]
fn forward_coefficients_bt2020_full() {
    let t = get_forward_coefficients(YuvRange::Full, YuvStandardMatrix::Bt2020).unwrap();
    assert_eq!(
        [t.yr, t.yg, t.yb, t.cb_r, t.cb_g, t.cb_b, t.cr_r, t.cr_g, t.cr_b],
        [67, 174, 15, -36, -92, 128, 128, -118, -10]
    );
}

#[test]
fn inverse_coefficients_bt2020_full() {
    let t = get_inverse_coefficients(YuvRange::Full, YuvStandardMatrix::Bt2020, 8, 255, 6).unwrap();
    assert_eq!([t.y_coef, t.cr_coef, t.cb_coef, t.g_coeff_1, t.g_coeff_2], [64, 94, 120, 37, 11]);
    let t = get_inverse_coefficients(YuvRange::Full, YuvStandardMatrix::Bt2020, 10, 1023, 6).unwrap();
    assert_eq!([t.y_coef, t.cr_coef, t.cb_coef, t.g_coeff_1, t.g_coeff_2], [64, 94, 120, 37, 11]);
    let t = get_inverse_coefficients(YuvRange::Full, YuvStandardMatrix::Bt2020, 10, 1023, 13).unwrap();
    assert_eq!([t.y_coef, t.cr_coef, t.cb_coef, t.g_coeff_1, t.g_coeff_2], [8192, 12080, 15412, 4681, 1348]);
    let t = get_inverse_coefficients(YuvRange::Full, YuvStandardMatrix::Bt2020, 12, 1023, 13).unwrap();
    assert_eq!([t.y_coef, t.cr_coef, t.cb_coef, t.g_coeff_1, t.g_coeff_2], [2046, 3018, 3850, 1169, 337]);
    let t = get_inverse_coefficients(YuvRange::Full, YuvStandardMatrix::Bt2020, 12, 4095, 11).unwrap();
    assert_eq!([t.y_coef, t.cr_coef, t.cb_coef, t.g_coeff_1, t.g_coeff_2], [2048, 3020, 3853, 1170, 337]);
    let t = get_inverse_coefficients(YuvRange::Full, YuvStandardMatrix::Bt2020, 16, 65535, 11).unwrap();
    assert_eq!([t.y_coef, t.cr_coef, t.cb_coef, t.g_coeff_1, t.g_coeff_2], [2048, 3020, 3853, 1170, 337]);
    let t = get_inverse_coefficients(YuvRange::Full, YuvStandardMatrix::Bt2020, 8, 1023, 13).unwrap();
    assert_eq!([t.y_coef, t.cr_coef, t.cb_coef, t.g_coeff_1, t.g_coeff_2], [32864, 48462, 61831, 18777, 5408]);
}

#[test]
fn forward_coefficients_bt2020_tv() {
    let t = get_forward_coefficients(YuvRange::TV, YuvStandardMatrix::Bt2020).unwrap();
    assert_eq!(
        [t.yr, t.yg, t.yb, t.cb_r, t.cb_g, t.cb_b, t.cr_r, t.cr_g, t.cr_b],
        [58, 149, 13, -31, -81, 112, 112, -103, -9]
    );
}

#[test]
fn inverse_coefficients_bt2020_tv() {
    let t = get_inverse_coefficients(YuvRange::TV, YuvStandardMatrix::Bt2020, 8, 255, 6).unwrap();
    assert_eq!([t.y_coef, t.cr_coef, t.cb_coef, t.g_coeff_1, t.g_coeff_2], [75, 107, 137, 42, 12]);
    let t = get_inverse_coefficients(YuvRange::TV, YuvStandardMatrix::Bt2020, 10, 1023, 6).unwrap();
    assert_eq!([t.y_coef, t.cr_coef, t.cb_coef, t.g_coeff_1, t.g_coeff_2], [75, 108, 137, 42, 12]);
    let t = get_inverse_coefficients(YuvRange::TV, YuvStandardMatrix::Bt2020, 10, 1023, 13).unwrap();
    assert_eq!([t.y_coef, t.cr_coef, t.cb_coef, t.g_coeff_1, t.g_coeff_2], [9567, 13792, 17597, 5344, 1539]);
    let t = get_inverse_coefficients(YuvRange::TV, YuvStandardMatrix::Bt2020, 12, 1023, 13).unwrap();
    assert_eq!([t.y_coef, t.cr_coef, t.cb_coef, t.g_coeff_1, t.g_coeff_2], [2392, 3448, 4399, 1336, 385]);
    let t = get_inverse_coefficients(YuvRange::TV, YuvStandardMatrix::Bt2020, 12, 4095, 11).unwrap();
    assert_eq!([t.y_coef, t.cr_coef, t.cb_coef, t.g_coeff_1, t.g_coeff_2], [2393, 3451, 4402, 1337, 385]);
    let t = get_inverse_coefficients(YuvRange::TV, YuvStandardMatrix::Bt2020, 16, 65535, 11).unwrap();
    assert_eq!([t.y_coef, t.cr_coef, t.cb_coef, t.g_coeff_1, t.g_coeff_2], [2394, 3451, 4403, 1337, 385]);
    let t = get_inverse_coefficients(YuvRange::TV, YuvStandardMatrix::Bt2020, 8, 1023, 13).unwrap();
    assert_eq!([t.y_coef, t.cr_coef, t.cb_coef, t.g_coeff_1, t.g_coeff_2], [38267, 55169, 70388, 21376, 6156]);
}

#[test]
fn forward_coefficients_smpte240_full() {
    let t = get_forward_coefficients(YuvRange::Full, YuvStandardMatrix::Smpte240).unwrap();
    assert_eq!(
        [t.yr, t.yg, t.yb, t.cb_r, t.cb_g, t.cb_b, t.cr_r, t.cr_g, t.cr_b],
        [22, 179, 54, -14, -114, 128, 128, -98, -30]
    );
}

#[test]
fn inverse_coefficients_smpte240_full() {
    let t = get_inverse_coefficients(YuvRange::Full, YuvStandardMatrix::Smpte240, 8, 255, 6).unwrap();
    assert_eq!([t.y_coef, t.cr_coef, t.cb_coef, t.g_coeff_1, t.g_coeff_2], [64, 117, 101, 15, 31]);
    let t = get_inverse_coefficients(YuvRange::Full, YuvStandardMatrix::Smpte240, 10, 1023, 6).unwrap();
    assert_eq!([t.y_coef, t.cr_coef, t.cb_coef, t.g_coeff_1, t.g_coeff_2], [64, 117, 101, 15, 31]);
    let t = get_inverse_coefficients(YuvRange::Full, YuvStandardMatrix::Smpte240, 10, 1023, 13).unwrap();
    assert_eq!([t.y_coef, t.cr_coef, t.cb_coef, t.g_coeff_1, t.g_coeff_2], [8192, 14959, 12911, 1856, 3904]);
    let t = get_inverse_coefficients(YuvRange::Full, YuvStandardMatrix::Smpte240, 12, 1023, 13).unwrap();
    assert_eq!([t.y_coef, t.cr_coef, t.cb_coef, t.g_coeff_1, t.g_coeff_2], [2046, 3737, 3225, 464, 975]);
    let t = get_inverse_coefficients(YuvRange::Full, YuvStandardMatrix::Smpte240, 12, 4095, 11).unwrap();
    assert_eq!([t.y_coef, t.cr_coef, t.cb_coef, t.g_coeff_1, t.g_coeff_2], [2048, 3740, 3228, 464, 976]);
    let t = get_inverse_coefficients(YuvRange::Full, YuvStandardMatrix::Smpte240, 16, 65535, 11).unwrap();
    assert_eq!([t.y_coef, t.cr_coef, t.cb_coef, t.g_coeff_1, t.g_coeff_2], [2048, 3740, 3228, 464, 976]);
    let t = get_inverse_coefficients(YuvRange::Full, YuvStandardMatrix::Smpte240, 8, 1023, 13).unwrap();
    assert_eq!([t.y_coef, t.cr_coef, t.cb_coef, t.g_coeff_1, t.g_coeff_2], [32864, 60010, 51794, 7448, 15664]);
}

#[test]
fn forward_coefficients_smpte240_tv() {
    let t = get_forward_coefficients(YuvRange::TV, YuvStandardMatrix::Smpte240).unwrap();
    assert_eq!(
        [t.yr, t.yg, t.yb, t.cb_r, t.cb_g, t.cb_b, t.cr_r, t.cr_g, t.cr_b],
        [19, 154, 47, -12, -100, 112, 112, -86, -26]
    );
}

#[test]
fn inverse_coefficients_smpte240_tv() {
    let t = get_inverse_coefficients(YuvRange::TV, YuvStandardMatrix::Smpte240, 8, 255, 6).unwrap();
    assert_eq!([t.y_coef, t.cr_coef, t.cb_coef, t.g_coeff_1, t.g_coeff_2], [75, 133, 115, 17, 35]);
    let t = get_inverse_coefficients(YuvRange::TV, YuvStandardMatrix::Smpte240, 10, 1023, 6).unwrap();
    assert_eq!([t.y_coef, t.cr_coef, t.cb_coef, t.g_coeff_1, t.g_coeff_2], [75, 133, 115, 17, 35]);
    let t = get_inverse_coefficients(YuvRange::TV, YuvStandardMatrix::Smpte240, 10, 1023, 13).unwrap();
    assert_eq!([t.y_coef, t.cr_coef, t.cb_coef, t.g_coeff_1, t.g_coeff_2], [9567, 17079, 14741, 2120, 4458]);
    let t = get_inverse_coefficients(YuvRange::TV, YuvStandardMatrix::Smpte240, 12, 1023, 13).unwrap();
    assert_eq!([t.y_coef, t.cr_coef, t.cb_coef, t.g_coeff_1, t.g_coeff_2], [2392, 4270, 3685, 530, 1114]);
    let t = get_inverse_coefficients(YuvRange::TV, YuvStandardMatrix::Smpte240, 12, 4095, 11).unwrap();
    assert_eq!([t.y_coef, t.cr_coef, t.cb_coef, t.g_coeff_1, t.g_coeff_2], [2393, 4273, 3688, 530, 1115]);
    let t = get_inverse_coefficients(YuvRange::TV, YuvStandardMatrix::Smpte240, 16, 65535, 11).unwrap();
    assert_eq!([t.y_coef, t.cr_coef, t.cb_coef, t.g_coeff_1, t.g_coeff_2], [2394, 4274, 3689, 530, 1116]);
    let t = get_inverse_coefficients(YuvRange::TV, YuvStandardMatrix::Smpte240, 8, 1023, 13).unwrap();
    assert_eq!([t.y_coef, t.cr_coef, t.cb_coef, t.g_coeff_1, t.g_coeff_2], [38267, 68315, 58962, 8479, 17832]);
}

#[test]
fn forward_coefficients_bt470_6_full() {
    let t = get_forward_coefficients(YuvRange::Full, YuvStandardMatrix::Bt470_6).unwrap();
    assert_eq!(
        [t.yr, t.yg, t.yb, t.cb_r, t.cb_g, t.cb_b, t.cr_r, t.cr_g, t.cr_b],
        [57, 181, 18, -31, -97, 128, 128, -116, -12]
    );
}

#[test]
fn inverse_coefficients_bt470_6_full() {
    let t = get_inverse_coefficients(YuvRange::Full, YuvStandardMatrix::Bt470_6, 8, 255, 6).unwrap();
    assert_eq!([t.y_coef, t.cr_coef, t.cb_coef, t.g_coeff_1, t.g_coeff_2], [64, 100, 119, 31, 12]);
    let t = get_inverse_coefficients(YuvRange::Full, YuvStandardMatrix::Bt470_6, 10, 1023, 6).unwrap();
    assert_eq!([t.y_coef, t.cr_coef, t.cb_coef, t.g_coeff_1, t.g_coeff_2], [64, 100, 119, 31, 12]);
    let t = get_inverse_coefficients(YuvRange::Full, YuvStandardMatrix::Bt470_6, 10, 1023, 13).unwrap();
    assert_eq!([t.y_coef, t.cr_coef, t.cb_coef, t.g_coeff_1, t.g_coeff_2], [8192, 12747, 15216, 4004, 1535]);
    let t = get_inverse_coefficients(YuvRange::Full, YuvStandardMatrix::Bt470_6, 12, 1023, 13).unwrap();
    assert_eq!([t.y_coef, t.cr_coef, t.cb_coef, t.g_coeff_1, t.g_coeff_2], [2046, 3184, 3801, 1000, 384]);
    let t = get_inverse_coefficients(YuvRange::Full, YuvStandardMatrix::Bt470_6, 12, 4095, 11).unwrap();
    assert_eq!([t.y_coef, t.cr_coef, t.cb_coef, t.g_coeff_1, t.g_coeff_2], [2048, 3187, 3804, 1001, 384]);
    let t = get_inverse_coefficients(YuvRange::Full, YuvStandardMatrix::Bt470_6, 16, 65535, 11).unwrap();
    assert_eq!([t.y_coef, t.cr_coef, t.cb_coef, t.g_coeff_1, t.g_coeff_2], [2048, 3187, 3804, 1001, 384]);
    let t = get_inverse_coefficients(YuvRange::Full, YuvStandardMatrix::Bt470_6, 8, 1023, 13).unwrap();
    assert_eq!([t.y_coef, t.cr_coef, t.cb_coef, t.g_coeff_1, t.g_coeff_2], [32864, 51137, 61042, 16064, 6159]);
}

#[test]
fn forward_coefficients_bt470_6_tv() {
    let t = get_forward_coefficients(YuvRange::TV, YuvStandardMatrix::Bt470_6).unwrap();
    assert_eq!(
        [t.yr, t.yg, t.yb, t.cb_r, t.cb_g, t.cb_b, t.cr_r, t.cr_g, t.cr_b],
        [49, 155, 16, -27, -86, 112, 112, -102, -10]
    );
}

#[test]
fn inverse_coefficients_bt470_6_tv() {
    let t = get_inverse_coefficients(YuvRange::TV, YuvStandardMatrix::Bt470_6, 8, 255, 6).unwrap();
    assert_eq!([t.y_coef, t.cr_coef, t.cb_coef, t.g_coeff_1, t.g_coeff_2], [75, 113, 135, 36, 14]);
    let t = get_inverse_coefficients(YuvRange::TV, YuvStandardMatrix::Bt470_6, 10, 1023, 6).unwrap();
    assert_eq!([t.y_coef, t.cr_coef, t.cb_coef, t.g_coeff_1, t.g_coeff_2], [75, 114, 136, 36, 14]);
    let t = get_inverse_coefficients(YuvRange::TV, YuvStandardMatrix::Bt470_6, 10, 1023, 13).unwrap();
    assert_eq!([t.y_coef, t.cr_coef, t.cb_coef, t.g_coeff_1, t.g_coeff_2], [9567, 14553, 17373, 4572, 1753]);
    let t = get_inverse_coefficients(YuvRange::TV, YuvStandardMatrix::Bt470_6, 12, 1023, 13).unwrap();
    assert_eq!([t.y_coef, t.cr_coef, t.cb_coef, t.g_coeff_1, t.g_coeff_2], [2392, 3638, 4343, 1143, 438]);
    let t = get_inverse_coefficients(YuvRange::TV, YuvStandardMatrix::Bt470_6, 12, 4095, 11).unwrap();
    assert_eq!([t.y_coef, t.cr_coef, t.cb_coef, t.g_coeff_1, t.g_coeff_2], [2393, 3641, 4346, 1144, 439]);
    let t = get_inverse_coefficients(YuvRange::TV, YuvStandardMatrix::Bt470_6, 16, 65535, 11).unwrap();
    assert_eq!([t.y_coef, t.cr_coef, t.cb_coef, t.g_coeff_1, t.g_coeff_2], [2394, 3642, 4347, 1144, 439]);
    let t = get_inverse_coefficients(YuvRange::TV, YuvStandardMatrix::Bt470_6, 8, 1023, 13).unwrap();
    assert_eq!([t.y_coef, t.cr_coef, t.cb_coef, t.g_coeff_1, t.g_coeff_2], [38267, 58214, 69490, 18287, 7011]);
}

#[test]
fn degenerate_matrix_is_refused() {
    let half = Fraction::new(1, 2);
    let matrix = YuvStandardMatrix::Custom(half, half);
    assert_eq!(get_forward_coefficients(YuvRange::Full, matrix), Err(YuvError::InvalidMatrix));
    assert_eq!(get_inverse_coefficients(YuvRange::Full, matrix, 8, 255, 6), Err(YuvError::InvalidMatrix));
    assert_eq!(get_forward_transform(255, 255, 255, half, half), Err(YuvError::InvalidMatrix));
    assert_eq!(get_inverse_transform(255, 255, 255, half, half), Err(YuvError::InvalidMatrix));
}

#[test]
fn exact_transforms_are_the_formulas() {
    let kr = Fraction::new(299, 1000);
    let kb = Fraction::new(114, 1000);
    let forward = get_forward_transform(255, 219, 224, kr, kb).unwrap();
    assert_eq!(forward.yr, Fraction::new(299 * 219, 1000 * 255));
    assert_eq!(forward.yg, Fraction::new(587000 * 219, 1000000 * 255));
    assert_eq!(forward.yb, Fraction::new(114 * 219, 1000 * 255));
    assert_eq!(forward.cb_r, Fraction::new(-299000 * 224, 2000 * 886 * 255));
    assert_eq!(forward.cb_g, Fraction::new(-587000 * 224, 2000 * 886 * 255));
    assert_eq!(forward.cb_b, Fraction::new(224, 510));
    assert_eq!(forward.cr_r, Fraction::new(224, 510));
    assert_eq!(forward.cr_g, Fraction::new(-587000 * 224, 2000 * 701 * 255));
    assert_eq!(forward.cr_b, Fraction::new(-114000 * 224, 2000 * 701 * 255));
    let inverse = get_inverse_transform(255, 219, 224, kr, kb).unwrap();
    assert_eq!(inverse.y_coef, Fraction::new(255, 219));
    assert_eq!(inverse.cr_coef, Fraction::new(2 * 701 * 255, 1000 * 224));
    assert_eq!(inverse.cb_coef, Fraction::new(2 * 886 * 255, 1000 * 224));
    assert_eq!(inverse.g_coeff_1, Fraction::new(2 * 299 * 701 * 1000 * 255, 1000 * 587000 * 224));
    assert_eq!(inverse.g_coeff_2, Fraction::new(2 * 114 * 886 * 1000 * 255, 1000 * 587000 * 224));
    let integers = inverse.to_integers(6);
    assert_eq!(
        [integers.y_coef, integers.cr_coef, integers.cb_coef, integers.g_coeff_1, integers.g_coeff_2],
        [75, 102, 129, 52, 25]
    );
    let integers = forward.to_integers(8);
    assert_eq!([integers.yr, integers.yg, integers.yb], [66, 129, 25]);
}

#[test]
fn transforms_are_plain_values() {
    let inverse = CbCrInverseTransform::new(1, 2, 3, 4, 5);
    assert_eq!(
        (inverse.y_coef, inverse.cr_coef, inverse.cb_coef, inverse.g_coeff_1, inverse.g_coeff_2),
        (1, 2, 3, 4, 5)
    );
    let forward = CbCrForwardTransform { yr: 1, yg: 2, yb: 3, cb_r: 4, cb_g: 5, cb_b: 6, cr_r: 7, cr_g: 8, cr_b: 9 };
    assert_eq!(forward, forward.clone());
}

#[test]
fn fractions_round_half_away_from_zero() {
    assert_eq!(Fraction::new(1, 2).quantize(0), 1);
    assert_eq!(Fraction::new(-1, 2).quantize(0), -1);
    assert_eq!(Fraction::new(3, 2).quantize(0), 2);
    assert_eq!(Fraction::new(-3, 2).quantize(0), -2);
    assert_eq!(Fraction::new(1, 3).quantize(0), 0);
    assert_eq!(Fraction::new(2, 3).quantize(0), 1);
    assert_eq!(Fraction::new(-2, 3).quantize(0), -1);
    assert_eq!(Fraction::new(1, 3).quantize(8), 85);
    assert_eq!(Fraction::new(5, 8).quantize(2), 3);
    assert_eq!(Fraction::new(-5, 8).quantize(2), -3);
    assert_eq!(Fraction::new(7, 1).quantize(13), 7 << 13);
    assert_eq!(Fraction::new(0, 5).quantize(30), 0);
}

#[test]
fn fractions_saturate_to_32_bits() {
    assert_eq!(Fraction::new(i64::MAX, 1).quantize(30), i32::MAX);
    assert_eq!(Fraction::new(i64::MIN, 1).quantize(30), i32::MIN);
    assert_eq!(Fraction::new(2, 1).quantize(30), i32::MAX);
    assert_eq!(Fraction::new(-2, 1).quantize(30), i32::MIN);
    assert_eq!(Fraction::new(1, 1).quantize(30), 1 << 30);
    assert_eq!(Fraction::new(-1, 1).quantize(30), -(1 << 30));
    assert_eq!(Fraction::new(i64::MAX, i64::MAX).quantize(30), 1 << 30);
}

#[test]
fn shifts_round_towards_minus_infinity() {
    assert_eq!(shift_right(7, 1), 3);
    assert_eq!(shift_right(-7, 1), -4);
    assert_eq!(shift_right(-1, 6), -1);
    assert_eq!(shift_right(-64, 6), -1);
    assert_eq!(shift_right(-65, 6), -2);
    assert_eq!(shift_right(i64::MIN, 62), -2);
    assert_eq!(shift_right(i64::MAX, 62), 1);
    assert_eq!(shift_right(12345, 0), 12345);
    assert_eq!(shift_saturate(-1, 6, 0, 255), 0);
    assert_eq!(shift_saturate(255 * 64 + 63, 6, 0, 255), 255);
    assert_eq!(shift_saturate(256 * 64, 6, 0, 255), 255);
    assert_eq!(shift_saturate(100 * 64, 6, 16, 235), 100);
    assert_eq!(shift_saturate(10 * 64, 6, 16, 235), 16);
    assert_eq!(power_of_two(0), 1);
    assert_eq!(power_of_two(62), 1 << 62);
}

#[test]
fn quantized_rounding_shift() {
    assert_eq!(qrshr(0, 13, 10), 0);
    assert_eq!(qrshr(4095, 13, 10), 0);
    assert_eq!(qrshr(4096, 13, 10), 1);
    assert_eq!(qrshr(-4097, 13, 10), 0);
    assert_eq!(qrshr(1023 << 13, 13, 10), 1023);
    assert_eq!(qrshr(1 << 40, 13, 10), 1023);
    assert_eq!(qrshr(-(1 << 40), 13, 10), 0);
    assert_eq!(qrshr(5, 1, 8), 3);
    assert_eq!(qrshr(1 << 59, 30, 16), 65535);
}

#[test]
fn division_by_255_rounds_to_nearest() {
    for value in 0..=255u32 {
        for alpha in 0..=255u32 {
            let product = value * alpha;
            assert_eq!(div_by_255(product), (2 * product + 255) / 510);
            assert_eq!(premultiply(value as u8, alpha as u8) as u32, (2 * product + 255) / 510);
        }
    }
    assert_eq!(premultiply(200, 255), 200);
    assert_eq!(premultiply(200, 0), 0);
    assert_eq!(premultiply(255, 128), 128);
}

#[test]
fn words_are_normalized() {
    assert_eq!(swapped(0x1234), 0x3412);
    assert_eq!(swapped(0x00ff), 0xff00);
    let le = YuvEndianness::LittleEndian;
    let be = YuvEndianness::BigEndian;
    let msb = YuvBytesPacking::MostSignificantBytes;
    let lsb = YuvBytesPacking::LeastSignificantBytes;
    assert_eq!(to_ne(0x1234, le, lsb, 6, le), 0x1234);
    assert_eq!(to_ne(0x1234, be, lsb, 6, le), 0x3412);
    assert_eq!(to_ne(0x1234, be, lsb, 6, be), 0x1234);
    assert_eq!(to_ne(0x1234, le, lsb, 6, be), 0x3412);
    assert_eq!(to_ne(0xffc0, le, msb, 6, le), 1023);
    assert_eq!(to_ne(0xc0ff, be, msb, 6, le), 1023);
    assert_eq!(to_ne(0xfff0, le, msb, 4, le), 4095);
    assert_eq!(to_ne(0xabcd, le, msb, 0, le), 0xabcd);
    assert_eq!(to_ne(0xabcd, le, msb, 15, le), 1);
}

#[test]
fn positions_and_counts() {
    assert_eq!((YuvNVOrder::UV.get_u_position(), YuvNVOrder::UV.get_v_position()), (0, 1));
    assert_eq!((YuvNVOrder::VU.get_u_position(), YuvNVOrder::VU.get_v_position()), (1, 0));
    let table = [
        (YuvSourceChannels::Rgb, 3, false, 0, 1, 2, 0),
        (YuvSourceChannels::Rgba, 4, true, 0, 1, 2, 3),
        (YuvSourceChannels::Bgra, 4, true, 2, 1, 0, 3),
        (YuvSourceChannels::Bgr, 3, false, 2, 1, 0, 0),
    ];
    for (channels, count, alpha, r, g, b, a) in table {
        assert_eq!(channels.get_channels_count(), count);
        assert_eq!(channels.has_alpha(), alpha);
        assert_eq!(channels.get_r_channel_offset(), r);
        assert_eq!(channels.get_g_channel_offset(), g);
        assert_eq!(channels.get_b_channel_offset(), b);
        assert_eq!(channels.get_a_channel_offset(), a);
        assert_eq!(get_pixel_start(channels, 7), 7 * count);
    }
    let table = [
        (Yuy2Description::YUYV, 0, 1, 2, 3),
        (Yuy2Description::UYVY, 1, 0, 3, 2),
        (Yuy2Description::YVYU, 0, 3, 2, 1),
        (Yuy2Description::VYUY, 1, 2, 3, 0),
    ];
    for (layout, first_y, u, second_y, v) in table {
        assert_eq!(layout.get_first_y_position(), first_y);
        assert_eq!(layout.get_u_position(), u);
        assert_eq!(layout.get_second_y_position(), second_y);
        assert_eq!(layout.get_v_position(), v);
    }
}

#[test]
fn values_from_their_numbers() {
    assert_eq!(YuvNVOrder::from(0), YuvNVOrder::UV);
    assert_eq!(YuvNVOrder::from(1), YuvNVOrder::VU);
    assert_eq!(YuvChromaSample::from(0), YuvChromaSample::YUV420);
    assert_eq!(YuvChromaSample::from(1), YuvChromaSample::YUV422);
    assert_eq!(YuvChromaSample::from(2), YuvChromaSample::YUV444);
    assert_eq!(YuvEndianness::from(0), YuvEndianness::BigEndian);
    assert_eq!(YuvEndianness::from(1), YuvEndianness::LittleEndian);
    assert_eq!(YuvBytesPacking::from(0), YuvBytesPacking::MostSignificantBytes);
    assert_eq!(YuvBytesPacking::from(1), YuvBytesPacking::LeastSignificantBytes);
    assert_eq!(YuvSourceChannels::from(0), YuvSourceChannels::Rgb);
    assert_eq!(YuvSourceChannels::from(1), YuvSourceChannels::Rgba);
    assert_eq!(YuvSourceChannels::from(2), YuvSourceChannels::Bgra);
    assert_eq!(YuvSourceChannels::from(3), YuvSourceChannels::Bgr);
    assert_eq!(Yuy2Description::from(0), Yuy2Description::YUYV);
    assert_eq!(Yuy2Description::from(1), Yuy2Description::UYVY);
    assert_eq!(Yuy2Description::from(2), Yuy2Description::YVYU);
    assert_eq!(Yuy2Description::from(3), Yuy2Description::VYUY);
}

#[test]
fn chroma_geometry() {
    assert_eq!(YuvChromaSample::YUV444.get_chroma_width(5), 5);
    assert_eq!(YuvChromaSample::YUV422.get_chroma_width(5), 3);
    assert_eq!(YuvChromaSample::YUV420.get_chroma_width(4), 2);
    assert_eq!(YuvChromaSample::YUV420.get_chroma_width(u32::MAX), 1 << 31);
    assert_eq!(YuvChromaSample::YUV444.get_chroma_height(5), 5);
    assert_eq!(YuvChromaSample::YUV422.get_chroma_height(5), 5);
    assert_eq!(YuvChromaSample::YUV420.get_chroma_height(5), 3);
    assert_eq!(YuvChromaSample::YUV420.get_chroma_height(0), 0);
}

#[test]
fn planes_fit_by_stride_and_rows() {
    assert!(check_plane(12, 4, 3, 3));
    assert!(check_plane(12, 4, 4, 3));
    assert!(!check_plane(11, 4, 3, 3));
    assert!(!check_plane(12, 4, 5, 3));
    assert!(check_plane(0, 0, 0, 9));
    assert!(check_plane(0, 5, 5, 0));
    assert!(!check_plane(100, u32::MAX, 1, u32::MAX));
    assert_eq!(plane_len(&[1u8, 2, 3]), 3);
}

#[test]
fn one_pixel_forward() {
    let range = get_yuv_range(8, YuvRange::TV);
    let transform = get_forward_coefficients(YuvRange::TV, YuvStandardMatrix::Bt601).unwrap();
    assert_eq!(rgb_to_luma(&transform, &range, 0, 0, 0), 16);
    assert_eq!(rgb_to_luma(&transform, &range, 255, 255, 255), 235);
    assert_eq!(rgb_to_chroma(&transform, &range, 255, 255, 255), (128, 128));
    assert_eq!(rgb_to_chroma(&transform, &range, 255, 0, 0), (90, 240));
    assert_eq!(rgb_to_chroma(&transform, &range, 0, 0, 255), (240, 110));
    let wild = CbCrForwardTransform {
        yr: i32::MAX, yg: i32::MAX, yb: i32::MAX,
        cb_r: i32::MIN, cb_g: i32::MIN, cb_b: i32::MIN,
        cr_r: i32::MAX, cr_g: 0, cr_b: 0,
    };
    assert_eq!(rgb_to_luma(&wild, &range, 255, 255, 255), 235);
    assert_eq!(rgb_to_chroma(&wild, &range, 255, 255, 255), (16, 240));
    assert_eq!(average(1, 2), 2);
    assert_eq!(average(255, 255), 255);
    assert_eq!(average(0, 1), 1);
    assert_eq!(average(10, 20), 15);
    assert_eq!(weigh(-65536, i32::MIN), 1i64 << 47);
}

#[test]
fn one_pixel_back() {
    let range = get_yuv_range(8, YuvRange::Full);
    let transform = get_inverse_coefficients(YuvRange::Full, YuvStandardMatrix::Bt601, 8, 255, 6).unwrap();
    let mode = Rounding { rounding: 32, shift: 6, max: 255 };
    let rgb = yuv_to_rgb(&transform, &range, mode, 255, 255, 0);
    assert_eq!((rgb.r, rgb.g, rgb.b), (75, 255, 255));
    let rgb = yuv_to_rgb(&transform, &range, mode, 0, 0, 255);
    assert_eq!((rgb.r, rgb.g, rgb.b), (179, 0, 0));
    let wild = CbCrInverseTransform::new(i32::MAX, i32::MIN, i32::MAX, i32::MIN, i32::MAX);
    let rgb = yuv_to_rgb(&wild, &range, mode, 65535, 65535, 65535);
    assert_eq!((rgb.r, rgb.g, rgb.b), (255, 255, 255));
    let rgb = yuv_to_rgb(&wild, &range, mode, 0, 0, 0);
    assert_eq!((rgb.r, rgb.g, rgb.b), (255, 0, 0));
}

#[test]
fn pixels_are_read_and_stored_by_channel_order() {
    let row: Vec<u8> = vec![9, 1, 2, 3, 4, 5, 6, 7, 8];
    let pixel = read_pixel(&row, 1, YuvSourceChannels::Bgra, 1);
    assert_eq!((pixel.r, pixel.g, pixel.b), (7, 6, 5));
    let pixel = read_pixel(&row, 0, YuvSourceChannels::Rgb, 2);
    assert_eq!((pixel.r, pixel.g, pixel.b), (6, 7, 8));
    let mut out = vec![0u8; 6];
    store_pixel(&mut out, 1, YuvSourceChannels::Bgra, 10, 20, 30, 40);
    assert_eq!(out, vec![0, 30, 20, 10, 40, 0]);
    store_pixel(&mut out, 2, YuvSourceChannels::Rgb, 1, 2, 3, 4);
    assert_eq!(out, vec![0, 30, 1, 2, 3, 0]);
}

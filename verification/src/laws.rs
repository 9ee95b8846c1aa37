//! What holds across conversions: round trips, gray pixels, saturation, odd
//! widths, and the sums of the exact weights.

use crate::fraction::Fraction;
use crate::numerics::lemma_product_bound;
use crate::numerics::saturate;
use crate::pixel::channel_at;
use crate::pixel::channel_average;
use crate::pixel::inverse_coefficients;
use crate::pixel::pixel_of;
use crate::pixel::pixel_start;
use crate::pixel::Rounding;
use crate::pixel::slot_of;
use crate::pixel::spec_blue;
use crate::pixel::spec_cb;
use crate::pixel::spec_cr;
use crate::pixel::spec_green;
use crate::pixel::spec_luma;
use crate::pixel::spec_red;
use crate::planes::cell;
use crate::rgba_to_nv::chroma_source;
use crate::rgba_to_nv::forward_coefficients;
use crate::rgba_to_nv::luma_image;
use crate::rgba_to_nv::nv_chroma_image;
use crate::rgba_to_nv::rgbx_to_nv_post;
use crate::rgba_to_yuv::cb_image;
use crate::rgba_to_yuv::cr_image;
use crate::rgba_to_yuv::rgbx_to_yuv_post;
use crate::tables::lemma_standard_coefficients;
use crate::yuv_nv_to_rgba::inverse_rounding;
use crate::yuv_nv_to_rgba::nv_rgbx_image;
use crate::yuv_nv_to_rgba::yuv_nv_to_rgbx_post;
use crate::yuv_support::CbCrForwardTransform;
use crate::yuv_support::CbCrInverseTransform;
use crate::yuv_support::green_numerator;
use crate::yuv_support::spec_forward_transform;
use crate::yuv_support::spec_yuv_range;
use crate::yuv_support::weights_valid;
use crate::yuv_support::YuvChromaRange;
use crate::yuv_support::YuvChromaSample;
use crate::yuv_support::YuvNVOrder;
use crate::yuv_support::YuvRange;
use crate::yuv_support::YuvSourceChannels;
use crate::yuv_support::YuvStandardMatrix;
use crate::yuv_support::Yuy2Description;
use crate::yuv_to_rgba::planar_rgbx_image;
use crate::yuv_to_rgba::yuv_to_rgbx_post;
use crate::yuv_to_yuy2::packed_image;
use crate::yuv_to_yuy2::yuv_to_yuy2_post;
use crate::yuy2_to_yuv::chroma_source_row;
use crate::yuy2_to_yuv::unpacked_chroma_image;
use crate::yuy2_to_yuv::unpacked_luma_image;
use crate::yuy2_to_yuv::yuy2_to_yuv_post;
use vstd::arithmetic::power2::lemma2_to64;
use vstd::prelude::*;

verus! {

/// The weight of green is bounded by the square of the largest denominator.
proof fn lemma_green_bound(kr: Fraction, kb: Fraction)
    requires
        weights_valid(kr, kb),
    ensures
        -0x4000_0000 <= green_numerator(kr, kb) <= 0x4000_0000,
        0 < kr.den * kb.den <= 0x4000_0000,
{
    lemma_product_bound(kr.den - kr.num, kb.den as int, 0x8000, 0x8000);
    lemma_product_bound(kb.num as int, kr.den as int, 0x8000, 0x8000);
    lemma_product_bound(kr.den as int, kb.den as int, 0x8000, 0x8000);
    assert((kr.den - kr.num) * kb.den > 0 && kb.num * kr.den > 0 && kr.den * kb.den > 0)
        by (nonlinear_arith)
        requires
            0 < kr.num < kr.den,
            0 < kb.num < kb.den,
    ;
}

/// The exact luma weights sum to the ratio of the luma excursion to that of
/// RGB: brought to the common denominator `kr.den * kb.den * range_rgba`, the
/// three numerators add up to `range_y * kr.den * kb.den`.
pub proof fn lemma_luma_weights_sum(
    range_rgba: int,
    range_y: int,
    range_uv: int,
    kr: Fraction,
    kb: Fraction,
)
    requires
        weights_valid(kr, kb),
        0 < range_rgba <= 0xffff,
        0 < range_y <= 0xffff,
        0 < range_uv <= 0xffff,
    ensures
        ({
            let exact = spec_forward_transform(range_rgba, range_y, range_uv, kr, kb);
            &&& exact.yr.den * kb.den == exact.yg.den
            &&& exact.yb.den * kr.den == exact.yg.den
            &&& exact.yr.num * kb.den + exact.yg.num + exact.yb.num * kr.den == range_y * (kr.den
                * kb.den)
        }),
{
    let exact = spec_forward_transform(range_rgba, range_y, range_uv, kr, kb);
    let green = green_numerator(kr, kb);
    lemma_green_bound(kr, kb);
    lemma_product_bound(kr.num as int, range_y, 0x8000, 0x1_0000);
    lemma_product_bound(kb.num as int, range_y, 0x8000, 0x1_0000);
    lemma_product_bound(green, range_y, 0x4000_0000, 0x1_0000);
    lemma_product_bound(kr.den as int, range_rgba, 0x8000, 0x1_0000);
    lemma_product_bound(kb.den as int, range_rgba, 0x8000, 0x1_0000);
    lemma_product_bound(kr.den * kb.den, range_rgba, 0x4000_0000, 0x1_0000);
    assert(exact.yr.num == kr.num * range_y);
    assert(exact.yg.num == green * range_y);
    assert(exact.yb.num == kb.num * range_y);
    assert(exact.yr.den == kr.den * range_rgba);
    assert(exact.yb.den == kb.den * range_rgba);
    assert(exact.yg.den == (kr.den * kb.den) * range_rgba);
    let a = kr.num as int;
    let d1 = kr.den as int;
    let b = kb.num as int;
    let d2 = kb.den as int;
    assert((d1 * range_rgba) * d2 == (d1 * d2) * range_rgba && (d2 * range_rgba) * d1 == (d1 * d2)
        * range_rgba) by (nonlinear_arith);
    assert((a * range_y) * d2 + green * range_y + (b * range_y) * d1 == range_y * (d1 * d2))
        by (nonlinear_arith)
        requires
            green == (d1 - a) * d2 - b * d1,
    ;
}

/// The exact weights of each chroma row cancel, so that in exact arithmetic
/// every gray has neutral chroma: brought to the denominator of the first
/// two, the three numerators of a row add up to zero.
pub proof fn lemma_chroma_weights_cancel(
    range_rgba: int,
    range_y: int,
    range_uv: int,
    kr: Fraction,
    kb: Fraction,
)
    requires
        weights_valid(kr, kb),
        0 < range_rgba <= 0xffff,
        0 < range_y <= 0xffff,
        0 < range_uv <= 0xffff,
    ensures
        ({
            let exact = spec_forward_transform(range_rgba, range_y, range_uv, kr, kb);
            &&& exact.cb_r.den == exact.cb_g.den
            &&& exact.cb_r.den == exact.cb_b.den * (kr.den * (kb.den - kb.num))
            &&& exact.cb_r.num + exact.cb_g.num + exact.cb_b.num * (kr.den * (kb.den - kb.num))
                == 0
            &&& exact.cr_b.den == exact.cr_g.den
            &&& exact.cr_b.den == exact.cr_r.den * (kb.den * (kr.den - kr.num))
            &&& exact.cr_b.num + exact.cr_g.num + exact.cr_r.num * (kb.den * (kr.den - kr.num))
                == 0
        }),
{
    let exact = spec_forward_transform(range_rgba, range_y, range_uv, kr, kb);
    let green = green_numerator(kr, kb);
    let a = kr.num as int;
    let d1 = kr.den as int;
    let b = kb.num as int;
    let d2 = kb.den as int;
    lemma_green_bound(kr, kb);
    lemma_product_bound(2 * d1, d2 - b, 0x1_0000, 0x8000);
    lemma_product_bound((2 * d1) * (d2 - b), range_rgba, 0x8000_0000, 0x1_0000);
    lemma_product_bound(2 * d2, d1 - a, 0x1_0000, 0x8000);
    lemma_product_bound((2 * d2) * (d1 - a), range_rgba, 0x8000_0000, 0x1_0000);
    lemma_product_bound(a, d2, 0x8000, 0x8000);
    lemma_product_bound(a * d2, range_uv, 0x4000_0000, 0x1_0000);
    lemma_product_bound(b, d1, 0x8000, 0x8000);
    lemma_product_bound(b * d1, range_uv, 0x4000_0000, 0x1_0000);
    lemma_product_bound(green, range_uv, 0x4000_0000, 0x1_0000);
    assert(exact.cb_r.den == ((2 * d1) * (d2 - b)) * range_rgba);
    assert(exact.cr_b.den == ((2 * d2) * (d1 - a)) * range_rgba);
    assert(exact.cb_r.num == -((a * d2) * range_uv));
    assert(exact.cb_g.num == -(green * range_uv));
    assert(exact.cr_g.num == -(green * range_uv));
    assert(exact.cr_b.num == -((b * d1) * range_uv));
    assert(exact.cb_b.num == range_uv && exact.cb_b.den == 2 * range_rgba);
    assert(exact.cr_r.num == range_uv && exact.cr_r.den == 2 * range_rgba);
    assert(((2 * d1) * (d2 - b)) * range_rgba == (2 * range_rgba) * (d1 * (d2 - b)) && ((2 * d2)
        * (d1 - a)) * range_rgba == (2 * range_rgba) * (d2 * (d1 - a))) by (nonlinear_arith);
    assert(-((a * d2) * range_uv) + -(green * range_uv) + range_uv * (d1 * (d2 - b)) == 0 && -((b
        * d1) * range_uv) + -(green * range_uv) + range_uv * (d2 * (d1 - a)) == 0)
        by (nonlinear_arith)
        requires
            green == (d1 - a) * d2 - b * d1,
    ;
}

/// At 8 bits the limited range has luma from 16 over an excursion of 219 and
/// chroma around 128 over an excursion of 224; the full range has luma from 0
/// over an excursion of 255.
pub proof fn lemma_yuv_range_at_8_bits()
    ensures
        spec_yuv_range(8, YuvRange::TV) == (YuvChromaRange {
            bias_y: 16,
            bias_uv: 128,
            range_y: 219,
            range_uv: 224,
            range: YuvRange::TV,
        }),
        spec_yuv_range(8, YuvRange::Full) == (YuvChromaRange {
            bias_y: 0,
            bias_uv: 128,
            range_y: 255,
            range_uv: 255,
            range: YuvRange::Full,
        }),
{
    lemma2_to64();
}

/// The coefficients of BT.601 at full range, with 8 fractional bits.
pub proof fn lemma_bt601_full_forward()
    ensures
        forward_coefficients(YuvRange::Full, YuvStandardMatrix::Bt601) == (CbCrForwardTransform {
            yr: 77i32,
            yg: 150i32,
            yb: 29i32,
            cb_r: -43i32,
            cb_g: -85i32,
            cb_b: 128i32,
            cr_r: 128i32,
            cr_g: -107i32,
            cr_b: -21i32,
        }),
{
    lemma_standard_coefficients(YuvStandardMatrix::Bt601, YuvRange::Full);
}

/// The coefficients that undo BT.601 at full range, with 6 fractional bits.
pub proof fn lemma_bt601_full_inverse()
    ensures
        inverse_coefficients(YuvRange::Full, YuvStandardMatrix::Bt601, 8, 255, 6) == (
        CbCrInverseTransform {
            y_coef: 64i32,
            cr_coef: 90i32,
            cb_coef: 113i32,
            g_coeff_1: 46i32,
            g_coeff_2: 22i32,
        }),
{
    lemma_standard_coefficients(YuvStandardMatrix::Bt601, YuvRange::Full);
}

/// The arithmetic of one pixel taken through the BT.601 full-range
/// coefficients and back: no channel moves by more than 2.
proof fn lemma_round_trip_arithmetic(r: int, g: int, b: int)
    requires
        0 <= r <= 255,
        0 <= g <= 255,
        0 <= b <= 255,
    ensures
        ({
            let y = saturate((r * 77 + g * 150 + b * 29 + 128) / 256, 0, 255);
            let cb = saturate((r * -43 + g * -85 + b * 128 + 32896) / 256, 0, 255);
            let cr = saturate((r * 128 + g * -107 + b * -21 + 32896) / 256, 0, 255);
            let red = saturate(((y - 0) * 64 + (cr - 128) * 90 + 32) / 64, 0, 255);
            let green = saturate(
                ((y - 0) * 64 - (cr - 128) * 46 - (cb - 128) * 22 + 32) / 64,
                0,
                255,
            );
            let blue = saturate(((y - 0) * 64 + (cb - 128) * 113 + 32) / 64, 0, 255);
            &&& -2 <= red - r <= 2
            &&& -2 <= green - g <= 2
            &&& -2 <= blue - b <= 2
        }),
{
}

/// One pixel converted to Y, Cb, Cr with BT.601 at full range and back comes
/// out within 2 of what went in, in every channel.
pub proof fn lemma_round_trip_pixel(r: int, g: int, b: int)
    requires
        0 <= r <= 255,
        0 <= g <= 255,
        0 <= b <= 255,
    ensures
        ({
            let forward = forward_coefficients(YuvRange::Full, YuvStandardMatrix::Bt601);
            let inverse = inverse_coefficients(YuvRange::Full, YuvStandardMatrix::Bt601, 8, 255, 6);
            let range = spec_yuv_range(8, YuvRange::Full);
            let y = spec_luma(forward, range, r, g, b);
            let cb = spec_cb(forward, range, r, g, b);
            let cr = spec_cr(forward, range, r, g, b);
            &&& 0 <= y <= 255
            &&& 0 <= cb <= 255
            &&& 0 <= cr <= 255
            &&& -2 <= spec_red(inverse, range, inverse_rounding(), y, cr) - r <= 2
            &&& -2 <= spec_green(inverse, range, inverse_rounding(), y, cb, cr) - g <= 2
            &&& -2 <= spec_blue(inverse, range, inverse_rounding(), y, cb) - b <= 2
        }),
{
    lemma2_to64();
    lemma_yuv_range_at_8_bits();
    lemma_bt601_full_forward();
    lemma_bt601_full_inverse();
    lemma_round_trip_arithmetic(r, g, b);
}

/// Colour sample `c` of pixel `x` of row `row` of an interleaved image.
pub open spec fn color_sample(
    image: Seq<u8>,
    stride: int,
    channels: YuvSourceChannels,
    row: int,
    x: int,
    c: int,
) -> int {
    image[cell(stride, row, pixel_start(channels, x) + c)] as int
}

/// Round-trip bound. An RGB image converted to 4:4:4 YUV with BT.601 at full
/// range, and that converted back, differs from the first by at most 2 in
/// every colour sample of every pixel.
pub proof fn lemma_rgb_round_trip(
    rgb: Seq<u8>,
    rgb_stride: int,
    y_before: Seq<u8>,
    y_plane: Seq<u8>,
    y_stride: int,
    uv_before: Seq<u8>,
    uv_plane: Seq<u8>,
    uv_stride: int,
    back_before: Seq<u8>,
    back: Seq<u8>,
    back_stride: int,
    width: int,
    height: int,
    channels: YuvSourceChannels,
    order: YuvNVOrder,
)
    requires
        0 <= width,
        0 <= height,
        rgbx_to_nv_post(
            y_before,
            y_plane,
            y_stride,
            uv_before,
            uv_plane,
            uv_stride,
            rgb,
            rgb_stride,
            width,
            height,
            YuvRange::Full,
            YuvStandardMatrix::Bt601,
            channels,
            order,
            YuvChromaSample::YUV444,
            Ok(()),
        ),
        yuv_nv_to_rgbx_post(
            y_plane,
            y_stride,
            uv_plane,
            uv_stride,
            back_before,
            back,
            back_stride,
            width,
            height,
            YuvRange::Full,
            YuvStandardMatrix::Bt601,
            order,
            channels,
            YuvChromaSample::YUV444,
            Ok(()),
        ),
    ensures
        forall|row: int, x: int, c: int|
            0 <= row < height && 0 <= x < width && 0 <= c < 3 ==> -2 <= #[trigger] color_sample(
                back,
                back_stride,
                channels,
                row,
                x,
                c,
            ) - color_sample(rgb, rgb_stride, channels, row, x, c) <= 2,
{
    let forward = forward_coefficients(YuvRange::Full, YuvStandardMatrix::Bt601);
    let inverse = inverse_coefficients(YuvRange::Full, YuvStandardMatrix::Bt601, 8, 255, 6);
    let range = spec_yuv_range(8, YuvRange::Full);
    let sampling = YuvChromaSample::YUV444;
    let luma = luma_image(rgb, rgb_stride, channels, forward, range);
    let chroma = nv_chroma_image(rgb, rgb_stride, channels, width, order, sampling, forward, range);
    let image = nv_rgbx_image(
        y_plane,
        y_stride,
        uv_plane,
        uv_stride,
        order,
        channels,
        sampling,
        inverse,
        range,
    );
    assert forall|row: int, x: int, c: int|
        0 <= row < height && 0 <= x < width && 0 <= c < 3 implies -2 <= #[trigger] color_sample(
        back,
        back_stride,
        channels,
        row,
        x,
        c,
    ) - color_sample(rgb, rgb_stride, channels, row, x, c) <= 2 by {
        let source = cell(rgb_stride, row, 0);
        let r = channel_at(rgb, source, channels, x, channels.spec_r_offset()) as int;
        let g = channel_at(rgb, source, channels, x, channels.spec_g_offset()) as int;
        let b = channel_at(rgb, source, channels, x, channels.spec_b_offset()) as int;
        lemma_round_trip_pixel(r, g, b);
        let j = pixel_start(channels, x) + c;
        assert(pixel_of(channels, j) == x && slot_of(channels, j) == c);
        assert(back[cell(back_stride, row, j)] == image(row, j));
        assert(y_plane[cell(y_stride, row, x)] == luma(row, x));
        assert(uv_plane[cell(uv_stride, row, 2 * x + order.spec_u_position())] == chroma(
            row,
            2 * x + order.spec_u_position(),
        ));
        assert(uv_plane[cell(uv_stride, row, 2 * x + order.spec_v_position())] == chroma(
            row,
            2 * x + order.spec_v_position(),
        ));
        assert((2 * x + order.spec_u_position()) / 2 == x && (2 * x + order.spec_v_position()) / 2
            == x);
        assert(cell(rgb_stride, row, j) == source + pixel_start(channels, x) + c);
    }
}

/// Round-trip bound for planar images. An RGB image converted to planar
/// 4:4:4 YUV with BT.601 at full range, and that converted back, differs from
/// the first by at most 2 in every colour sample of every pixel.
pub proof fn lemma_rgb_planar_round_trip(
    rgb: Seq<u8>,
    rgb_stride: int,
    y_before: Seq<u8>,
    y_plane: Seq<u8>,
    y_stride: int,
    u_before: Seq<u8>,
    u_plane: Seq<u8>,
    u_stride: int,
    v_before: Seq<u8>,
    v_plane: Seq<u8>,
    v_stride: int,
    back_before: Seq<u8>,
    back: Seq<u8>,
    back_stride: int,
    width: int,
    height: int,
    channels: YuvSourceChannels,
)
    requires
        0 <= width,
        0 <= height,
        rgbx_to_yuv_post(
            y_before,
            y_plane,
            y_stride,
            u_before,
            u_plane,
            u_stride,
            v_before,
            v_plane,
            v_stride,
            rgb,
            rgb_stride,
            width,
            height,
            YuvRange::Full,
            YuvStandardMatrix::Bt601,
            channels,
            YuvChromaSample::YUV444,
            Ok(()),
        ),
        yuv_to_rgbx_post(
            y_plane,
            y_stride,
            u_plane,
            u_stride,
            v_plane,
            v_stride,
            None,
            0,
            false,
            back_before,
            back,
            back_stride,
            width,
            height,
            YuvRange::Full,
            YuvStandardMatrix::Bt601,
            channels,
            YuvChromaSample::YUV444,
            Ok(()),
        ),
    ensures
        forall|row: int, x: int, c: int|
            0 <= row < height && 0 <= x < width && 0 <= c < 3 ==> -2 <= #[trigger] color_sample(
                back,
                back_stride,
                channels,
                row,
                x,
                c,
            ) - color_sample(rgb, rgb_stride, channels, row, x, c) <= 2,
{
    let forward = forward_coefficients(YuvRange::Full, YuvStandardMatrix::Bt601);
    let inverse = inverse_coefficients(YuvRange::Full, YuvStandardMatrix::Bt601, 8, 255, 6);
    let range = spec_yuv_range(8, YuvRange::Full);
    let sampling = YuvChromaSample::YUV444;
    let luma = luma_image(rgb, rgb_stride, channels, forward, range);
    let blue = cb_image(rgb, rgb_stride, channels, width, sampling, forward, range);
    let red = cr_image(rgb, rgb_stride, channels, width, sampling, forward, range);
    let image = planar_rgbx_image(
        y_plane,
        y_stride,
        u_plane,
        u_stride,
        v_plane,
        v_stride,
        None,
        0,
        false,
        channels,
        sampling,
        inverse,
        range,
    );
    assert forall|row: int, x: int, c: int|
        0 <= row < height && 0 <= x < width && 0 <= c < 3 implies -2 <= #[trigger] color_sample(
        back,
        back_stride,
        channels,
        row,
        x,
        c,
    ) - color_sample(rgb, rgb_stride, channels, row, x, c) <= 2 by {
        let source = cell(rgb_stride, row, 0);
        let r = channel_at(rgb, source, channels, x, channels.spec_r_offset()) as int;
        let g = channel_at(rgb, source, channels, x, channels.spec_g_offset()) as int;
        let b = channel_at(rgb, source, channels, x, channels.spec_b_offset()) as int;
        lemma_round_trip_pixel(r, g, b);
        let j = pixel_start(channels, x) + c;
        assert(pixel_of(channels, j) == x && slot_of(channels, j) == c);
        assert(back[cell(back_stride, row, j)] == image(row, j));
        assert(y_plane[cell(y_stride, row, x)] == luma(row, x));
        assert(u_plane[cell(u_stride, row, x)] == blue(row, x));
        assert(v_plane[cell(v_stride, row, x)] == red(row, x));
        assert(cell(rgb_stride, row, j) == source + pixel_start(channels, x) + c);
    }
}

/// Packed round-trip exactness. A planar image of halved chroma (4:2:0 or
/// 4:2:2) packed into any of the four layouts, and that unpacked at the same
/// subsampling, gives back every luma and every chroma sample as it was.
pub proof fn lemma_packed_round_trip(
    y_plane: Seq<u8>,
    y_stride: int,
    u_plane: Seq<u8>,
    u_stride: int,
    v_plane: Seq<u8>,
    v_stride: int,
    packed_before: Seq<u8>,
    packed: Seq<u8>,
    packed_stride: int,
    y_before: Seq<u8>,
    y_back: Seq<u8>,
    y_back_stride: int,
    u_before: Seq<u8>,
    u_back: Seq<u8>,
    u_back_stride: int,
    v_before: Seq<u8>,
    v_back: Seq<u8>,
    v_back_stride: int,
    width: int,
    height: int,
    sampling: YuvChromaSample,
    target: Yuy2Description,
)
    requires
        0 <= width,
        0 <= height,
        sampling != YuvChromaSample::YUV444,
        yuv_to_yuy2_post(
            y_plane,
            y_stride,
            u_plane,
            u_stride,
            v_plane,
            v_stride,
            packed_before,
            packed,
            packed_stride,
            width,
            height,
            sampling,
            target,
            Ok(()),
        ),
        yuy2_to_yuv_post(
            y_before,
            y_back,
            y_back_stride,
            u_before,
            u_back,
            u_back_stride,
            v_before,
            v_back,
            v_back_stride,
            packed,
            packed_stride,
            width,
            height,
            sampling,
            target,
            Ok(()),
        ),
    ensures
        forall|row: int, x: int|
            0 <= row < height && 0 <= x < width ==> #[trigger] y_back[cell(y_back_stride, row, x)]
                == y_plane[cell(y_stride, row, x)],
        forall|row: int, x: int|
            0 <= row < sampling.chroma_height(height) && 0 <= x < sampling.chroma_width(width)
                ==> #[trigger] u_back[cell(u_back_stride, row, x)] == u_plane[cell(
                u_stride,
                row,
                x,
            )],
        forall|row: int, x: int|
            0 <= row < sampling.chroma_height(height) && 0 <= x < sampling.chroma_width(width)
                ==> #[trigger] v_back[cell(v_back_stride, row, x)] == v_plane[cell(
                v_stride,
                row,
                x,
            )],
{
    let image = packed_image(
        y_plane,
        y_stride,
        u_plane,
        u_stride,
        v_plane,
        v_stride,
        width,
        sampling,
        target,
    );
    let luma = unpacked_luma_image(packed, packed_stride, target);
    let chroma_u = unpacked_chroma_image(
        packed,
        packed_stride,
        sampling,
        target.spec_u_position(),
        height,
    );
    let chroma_v = unpacked_chroma_image(
        packed,
        packed_stride,
        sampling,
        target.spec_v_position(),
        height,
    );
    assert forall|row: int, x: int| 0 <= row < height && 0 <= x < width implies #[trigger] y_back[cell(
        y_back_stride,
        row,
        x,
    )] == y_plane[cell(y_stride, row, x)] by {
        assert(y_back[cell(y_back_stride, row, x)] == luma(row, x));
        let j = 4 * (x / 2) + if x % 2 == 0 {
            target.spec_first_y_position()
        } else {
            target.spec_second_y_position()
        };
        assert(packed[cell(packed_stride, row, j)] == image(row, j));
        assert(j / 4 == x / 2);
    }
    assert forall|row: int, x: int|
        0 <= row < sampling.chroma_height(height) && 0 <= x < sampling.chroma_width(
            width,
        ) implies #[trigger] u_back[cell(u_back_stride, row, x)] == u_plane[cell(
        u_stride,
        row,
        x,
    )] by {
        assert(u_back[cell(u_back_stride, row, x)] == chroma_u(row, x));
        let from = chroma_source_row(sampling, row, height);
        let j = 4 * x + target.spec_u_position();
        assert(packed[cell(packed_stride, from, j)] == image(from, j));
        assert(j / 4 == x && j % 4 == target.spec_u_position());
        assert(sampling.chroma_row(from) == row);
    }
    assert forall|row: int, x: int|
        0 <= row < sampling.chroma_height(height) && 0 <= x < sampling.chroma_width(
            width,
        ) implies #[trigger] v_back[cell(v_back_stride, row, x)] == v_plane[cell(
        v_stride,
        row,
        x,
    )] by {
        assert(v_back[cell(v_back_stride, row, x)] == chroma_v(row, x));
        let from = chroma_source_row(sampling, row, height);
        let j = 4 * x + target.spec_v_position();
        assert(packed[cell(packed_stride, from, j)] == image(from, j));
        assert(j / 4 == x && j % 4 == target.spec_v_position());
        assert(sampling.chroma_row(from) == row);
    }
}

/// Achromatic invariant, towards YUV. A gray pixel, R = G = B = `k`, gets
/// the neutral chroma value exactly when `k` times the sum of the three
/// coefficients of the chroma row stays within half a unit of the fixed
/// point. The sum is zero for a matrix whose quantized coefficients cancel,
/// and then every gray is neutral; where rounding leaves a sum of one, as
/// with BT.709 at limited range, the brighter grays miss neutral by one.
pub proof fn lemma_gray_has_neutral_chroma(
    transform: CbCrForwardTransform<i32>,
    range: YuvChromaRange,
    k: int,
)
    requires
        0 <= k <= 255,
        range.fits(255),
        range.bias_y < range.bias_uv < range.bias_y + range.range_uv,
    ensures
        spec_cb(transform, range, k, k, k) == range.bias_uv <==> -128 <= k * (transform.cb_r
            + transform.cb_g + transform.cb_b) < 128,
        spec_cr(transform, range, k, k, k) == range.bias_uv <==> -128 <= k * (transform.cr_r
            + transform.cr_g + transform.cr_b) < 128,
{
    assert(k * transform.cb_r + k * transform.cb_g + k * transform.cb_b == k * (transform.cb_r
        + transform.cb_g + transform.cb_b)) by (nonlinear_arith);
    assert(k * transform.cr_r + k * transform.cr_g + k * transform.cr_b == k * (transform.cr_r
        + transform.cr_g + transform.cr_b)) by (nonlinear_arith);
}

/// Achromatic invariant, back to RGB. Neutral chroma gives a gray pixel: red,
/// green and blue are the same value, whatever the luma, the matrix and the
/// rounding.
pub proof fn lemma_neutral_chroma_gives_gray(
    transform: CbCrInverseTransform<i32>,
    range: YuvChromaRange,
    mode: Rounding,
    y: int,
)
    ensures
        spec_red(transform, range, mode, y, range.bias_uv as int) == spec_blue(
            transform,
            range,
            mode,
            y,
            range.bias_uv as int,
        ),
        spec_green(transform, range, mode, y, range.bias_uv as int, range.bias_uv as int)
            == spec_blue(transform, range, mode, y, range.bias_uv as int),
{
    assert(0 * transform.cr_coef == 0 && 0 * transform.cb_coef == 0 && 0 * transform.g_coeff_1 == 0
        && 0 * transform.g_coeff_2 == 0) by (nonlinear_arith);
}

/// Achromatic invariant for BT.601 at full range: a gray pixel keeps its
/// value as luma, has neutral chroma, and comes back as it was.
pub proof fn lemma_gray_round_trip(k: int)
    requires
        0 <= k <= 255,
    ensures
        ({
            let forward = forward_coefficients(YuvRange::Full, YuvStandardMatrix::Bt601);
            let inverse = inverse_coefficients(YuvRange::Full, YuvStandardMatrix::Bt601, 8, 255, 6);
            let range = spec_yuv_range(8, YuvRange::Full);
            &&& spec_luma(forward, range, k, k, k) == k
            &&& spec_cb(forward, range, k, k, k) == 128
            &&& spec_cr(forward, range, k, k, k) == 128
            &&& spec_red(inverse, range, inverse_rounding(), k, 128) == k
            &&& spec_green(inverse, range, inverse_rounding(), k, 128, 128) == k
            &&& spec_blue(inverse, range, inverse_rounding(), k, 128) == k
        }),
{
    lemma2_to64();
    lemma_yuv_range_at_8_bits();
    lemma_bt601_full_forward();
    lemma_bt601_full_inverse();
}

/// What holds of a gray pixel under a standard matrix: red-difference chroma
/// is exactly 128; blue-difference chroma is 128 or, for the brighter grays
/// of BT.709 and BT.470 at limited range, 127; and the pixel that its luma
/// and chroma give back is within 3 of the gray in every channel.
pub open spec fn gray_comes_back(matrix: YuvStandardMatrix, range: YuvRange, k: int) -> bool {
    let forward = forward_coefficients(range, matrix);
    let inverse = inverse_coefficients(range, matrix, 8, 255, 6);
    let levels = spec_yuv_range(8, range);
    let y = spec_luma(forward, levels, k, k, k);
    let cb = spec_cb(forward, levels, k, k, k);
    let cr = spec_cr(forward, levels, k, k, k);
    &&& cr == 128
    &&& 127 <= cb <= 128
    &&& cb == 127 <==> range == YuvRange::TV && k > 128 && (matrix == YuvStandardMatrix::Bt709
        || matrix == YuvStandardMatrix::Bt470_6)
    &&& -3 <= spec_red(inverse, levels, inverse_rounding(), y, cr) - k <= 3
    &&& -3 <= spec_green(inverse, levels, inverse_rounding(), y, cb, cr) - k <= 3
    &&& -3 <= spec_blue(inverse, levels, inverse_rounding(), y, cb) - k <= 3
}

proof fn lemma_gray_bt601_full(k: int)
    requires
        0 <= k <= 255,
    ensures
        gray_comes_back(YuvStandardMatrix::Bt601, YuvRange::Full, k),
{
    lemma2_to64();
    lemma_yuv_range_at_8_bits();
    lemma_standard_coefficients(YuvStandardMatrix::Bt601, YuvRange::Full);
    let forward = forward_coefficients(YuvRange::Full, YuvStandardMatrix::Bt601);
    let inverse = inverse_coefficients(YuvRange::Full, YuvStandardMatrix::Bt601, 8, 255, 6);
    let levels = spec_yuv_range(8, YuvRange::Full);
    let y = spec_luma(forward, levels, k, k, k);
    let cb = spec_cb(forward, levels, k, k, k);
    let cr = spec_cr(forward, levels, k, k, k);
    assert(y == saturate((k * 77 + k * 150 + k * 29 + 128) / 256, 0, 255));
    assert(cb == saturate((k * -43 + k * -85 + k * 128 + 32896) / 256, 0, 255));
    assert(cr == saturate((k * 128 + k * -107 + k * -21 + 32896) / 256, 0, 255));
    assert(spec_red(inverse, levels, inverse_rounding(), y, cr) == saturate(
        ((y - 0) * 64 + (cr - 128) * 90 + 32) / 64,
        0,
        255,
    ));
    assert(spec_green(inverse, levels, inverse_rounding(), y, cb, cr) == saturate(
        ((y - 0) * 64 - (cr - 128) * 46 - (cb - 128) * 22 + 32) / 64,
        0,
        255,
    ));
    assert(spec_blue(inverse, levels, inverse_rounding(), y, cb) == saturate(
        ((y - 0) * 64 + (cb - 128) * 113 + 32) / 64,
        0,
        255,
    ));
}

proof fn lemma_gray_bt601_tv(k: int)
    requires
        0 <= k <= 255,
    ensures
        gray_comes_back(YuvStandardMatrix::Bt601, YuvRange::TV, k),
{
    lemma2_to64();
    lemma_yuv_range_at_8_bits();
    lemma_standard_coefficients(YuvStandardMatrix::Bt601, YuvRange::TV);
    let forward = forward_coefficients(YuvRange::TV, YuvStandardMatrix::Bt601);
    let inverse = inverse_coefficients(YuvRange::TV, YuvStandardMatrix::Bt601, 8, 255, 6);
    let levels = spec_yuv_range(8, YuvRange::TV);
    let y = spec_luma(forward, levels, k, k, k);
    let cb = spec_cb(forward, levels, k, k, k);
    let cr = spec_cr(forward, levels, k, k, k);
    assert(y == saturate((k * 66 + k * 129 + k * 25 + 4224) / 256, 16, 235));
    assert(cb == saturate((k * -38 + k * -74 + k * 112 + 32896) / 256, 16, 240));
    assert(cr == saturate((k * 112 + k * -94 + k * -18 + 32896) / 256, 16, 240));
    assert(spec_red(inverse, levels, inverse_rounding(), y, cr) == saturate(
        ((y - 16) * 75 + (cr - 128) * 102 + 32) / 64,
        0,
        255,
    ));
    assert(spec_green(inverse, levels, inverse_rounding(), y, cb, cr) == saturate(
        ((y - 16) * 75 - (cr - 128) * 52 - (cb - 128) * 25 + 32) / 64,
        0,
        255,
    ));
    assert(spec_blue(inverse, levels, inverse_rounding(), y, cb) == saturate(
        ((y - 16) * 75 + (cb - 128) * 129 + 32) / 64,
        0,
        255,
    ));
}

proof fn lemma_gray_bt709_full(k: int)
    requires
        0 <= k <= 255,
    ensures
        gray_comes_back(YuvStandardMatrix::Bt709, YuvRange::Full, k),
{
    lemma2_to64();
    lemma_yuv_range_at_8_bits();
    lemma_standard_coefficients(YuvStandardMatrix::Bt709, YuvRange::Full);
    let forward = forward_coefficients(YuvRange::Full, YuvStandardMatrix::Bt709);
    let inverse = inverse_coefficients(YuvRange::Full, YuvStandardMatrix::Bt709, 8, 255, 6);
    let levels = spec_yuv_range(8, YuvRange::Full);
    let y = spec_luma(forward, levels, k, k, k);
    let cb = spec_cb(forward, levels, k, k, k);
    let cr = spec_cr(forward, levels, k, k, k);
    assert(y == saturate((k * 54 + k * 183 + k * 18 + 128) / 256, 0, 255));
    assert(cb == saturate((k * -29 + k * -99 + k * 128 + 32896) / 256, 0, 255));
    assert(cr == saturate((k * 128 + k * -116 + k * -12 + 32896) / 256, 0, 255));
    assert(spec_red(inverse, levels, inverse_rounding(), y, cr) == saturate(
        ((y - 0) * 64 + (cr - 128) * 101 + 32) / 64,
        0,
        255,
    ));
    assert(spec_green(inverse, levels, inverse_rounding(), y, cb, cr) == saturate(
        ((y - 0) * 64 - (cr - 128) * 30 - (cb - 128) * 12 + 32) / 64,
        0,
        255,
    ));
    assert(spec_blue(inverse, levels, inverse_rounding(), y, cb) == saturate(
        ((y - 0) * 64 + (cb - 128) * 119 + 32) / 64,
        0,
        255,
    ));
}

proof fn lemma_gray_bt709_tv(k: int)
    requires
        0 <= k <= 255,
    ensures
        gray_comes_back(YuvStandardMatrix::Bt709, YuvRange::TV, k),
{
    lemma2_to64();
    lemma_yuv_range_at_8_bits();
    lemma_standard_coefficients(YuvStandardMatrix::Bt709, YuvRange::TV);
    let forward = forward_coefficients(YuvRange::TV, YuvStandardMatrix::Bt709);
    let inverse = inverse_coefficients(YuvRange::TV, YuvStandardMatrix::Bt709, 8, 255, 6);
    let levels = spec_yuv_range(8, YuvRange::TV);
    let y = spec_luma(forward, levels, k, k, k);
    let cb = spec_cb(forward, levels, k, k, k);
    let cr = spec_cr(forward, levels, k, k, k);
    assert(y == saturate((k * 47 + k * 157 + k * 16 + 4224) / 256, 16, 235));
    assert(cb == saturate((k * -26 + k * -87 + k * 112 + 32896) / 256, 16, 240));
    assert(cr == saturate((k * 112 + k * -102 + k * -10 + 32896) / 256, 16, 240));
    assert(spec_red(inverse, levels, inverse_rounding(), y, cr) == saturate(
        ((y - 16) * 75 + (cr - 128) * 115 + 32) / 64,
        0,
        255,
    ));
    assert(spec_green(inverse, levels, inverse_rounding(), y, cb, cr) == saturate(
        ((y - 16) * 75 - (cr - 128) * 34 - (cb - 128) * 14 + 32) / 64,
        0,
        255,
    ));
    assert(spec_blue(inverse, levels, inverse_rounding(), y, cb) == saturate(
        ((y - 16) * 75 + (cb - 128) * 135 + 32) / 64,
        0,
        255,
    ));
}

proof fn lemma_gray_bt2020_full(k: int)
    requires
        0 <= k <= 255,
    ensures
        gray_comes_back(YuvStandardMatrix::Bt2020, YuvRange::Full, k),
{
    lemma2_to64();
    lemma_yuv_range_at_8_bits();
    lemma_standard_coefficients(YuvStandardMatrix::Bt2020, YuvRange::Full);
    let forward = forward_coefficients(YuvRange::Full, YuvStandardMatrix::Bt2020);
    let inverse = inverse_coefficients(YuvRange::Full, YuvStandardMatrix::Bt2020, 8, 255, 6);
    let levels = spec_yuv_range(8, YuvRange::Full);
    let y = spec_luma(forward, levels, k, k, k);
    let cb = spec_cb(forward, levels, k, k, k);
    let cr = spec_cr(forward, levels, k, k, k);
    assert(y == saturate((k * 67 + k * 174 + k * 15 + 128) / 256, 0, 255));
    assert(cb == saturate((k * -36 + k * -92 + k * 128 + 32896) / 256, 0, 255));
    assert(cr == saturate((k * 128 + k * -118 + k * -10 + 32896) / 256, 0, 255));
    assert(spec_red(inverse, levels, inverse_rounding(), y, cr) == saturate(
        ((y - 0) * 64 + (cr - 128) * 94 + 32) / 64,
        0,
        255,
    ));
    assert(spec_green(inverse, levels, inverse_rounding(), y, cb, cr) == saturate(
        ((y - 0) * 64 - (cr - 128) * 37 - (cb - 128) * 11 + 32) / 64,
        0,
        255,
    ));
    assert(spec_blue(inverse, levels, inverse_rounding(), y, cb) == saturate(
        ((y - 0) * 64 + (cb - 128) * 120 + 32) / 64,
        0,
        255,
    ));
}

proof fn lemma_gray_bt2020_tv(k: int)
    requires
        0 <= k <= 255,
    ensures
        gray_comes_back(YuvStandardMatrix::Bt2020, YuvRange::TV, k),
{
    lemma2_to64();
    lemma_yuv_range_at_8_bits();
    lemma_standard_coefficients(YuvStandardMatrix::Bt2020, YuvRange::TV);
    let forward = forward_coefficients(YuvRange::TV, YuvStandardMatrix::Bt2020);
    let inverse = inverse_coefficients(YuvRange::TV, YuvStandardMatrix::Bt2020, 8, 255, 6);
    let levels = spec_yuv_range(8, YuvRange::TV);
    let y = spec_luma(forward, levels, k, k, k);
    let cb = spec_cb(forward, levels, k, k, k);
    let cr = spec_cr(forward, levels, k, k, k);
    assert(y == saturate((k * 58 + k * 149 + k * 13 + 4224) / 256, 16, 235));
    assert(cb == saturate((k * -31 + k * -81 + k * 112 + 32896) / 256, 16, 240));
    assert(cr == saturate((k * 112 + k * -103 + k * -9 + 32896) / 256, 16, 240));
    assert(spec_red(inverse, levels, inverse_rounding(), y, cr) == saturate(
        ((y - 16) * 75 + (cr - 128) * 107 + 32) / 64,
        0,
        255,
    ));
    assert(spec_green(inverse, levels, inverse_rounding(), y, cb, cr) == saturate(
        ((y - 16) * 75 - (cr - 128) * 42 - (cb - 128) * 12 + 32) / 64,
        0,
        255,
    ));
    assert(spec_blue(inverse, levels, inverse_rounding(), y, cb) == saturate(
        ((y - 16) * 75 + (cb - 128) * 137 + 32) / 64,
        0,
        255,
    ));
}

proof fn lemma_gray_smpte240_full(k: int)
    requires
        0 <= k <= 255,
    ensures
        gray_comes_back(YuvStandardMatrix::Smpte240, YuvRange::Full, k),
{
    lemma2_to64();
    lemma_yuv_range_at_8_bits();
    lemma_standard_coefficients(YuvStandardMatrix::Smpte240, YuvRange::Full);
    let forward = forward_coefficients(YuvRange::Full, YuvStandardMatrix::Smpte240);
    let inverse = inverse_coefficients(YuvRange::Full, YuvStandardMatrix::Smpte240, 8, 255, 6);
    let levels = spec_yuv_range(8, YuvRange::Full);
    let y = spec_luma(forward, levels, k, k, k);
    let cb = spec_cb(forward, levels, k, k, k);
    let cr = spec_cr(forward, levels, k, k, k);
    assert(y == saturate((k * 22 + k * 179 + k * 54 + 128) / 256, 0, 255));
    assert(cb == saturate((k * -14 + k * -114 + k * 128 + 32896) / 256, 0, 255));
    assert(cr == saturate((k * 128 + k * -98 + k * -30 + 32896) / 256, 0, 255));
    assert(spec_red(inverse, levels, inverse_rounding(), y, cr) == saturate(
        ((y - 0) * 64 + (cr - 128) * 117 + 32) / 64,
        0,
        255,
    ));
    assert(spec_green(inverse, levels, inverse_rounding(), y, cb, cr) == saturate(
        ((y - 0) * 64 - (cr - 128) * 15 - (cb - 128) * 31 + 32) / 64,
        0,
        255,
    ));
    assert(spec_blue(inverse, levels, inverse_rounding(), y, cb) == saturate(
        ((y - 0) * 64 + (cb - 128) * 101 + 32) / 64,
        0,
        255,
    ));
}

proof fn lemma_gray_smpte240_tv(k: int)
    requires
        0 <= k <= 255,
    ensures
        gray_comes_back(YuvStandardMatrix::Smpte240, YuvRange::TV, k),
{
    lemma2_to64();
    lemma_yuv_range_at_8_bits();
    lemma_standard_coefficients(YuvStandardMatrix::Smpte240, YuvRange::TV);
    let forward = forward_coefficients(YuvRange::TV, YuvStandardMatrix::Smpte240);
    let inverse = inverse_coefficients(YuvRange::TV, YuvStandardMatrix::Smpte240, 8, 255, 6);
    let levels = spec_yuv_range(8, YuvRange::TV);
    let y = spec_luma(forward, levels, k, k, k);
    let cb = spec_cb(forward, levels, k, k, k);
    let cr = spec_cr(forward, levels, k, k, k);
    assert(y == saturate((k * 19 + k * 154 + k * 47 + 4224) / 256, 16, 235));
    assert(cb == saturate((k * -12 + k * -100 + k * 112 + 32896) / 256, 16, 240));
    assert(cr == saturate((k * 112 + k * -86 + k * -26 + 32896) / 256, 16, 240));
    assert(spec_red(inverse, levels, inverse_rounding(), y, cr) == saturate(
        ((y - 16) * 75 + (cr - 128) * 133 + 32) / 64,
        0,
        255,
    ));
    assert(spec_green(inverse, levels, inverse_rounding(), y, cb, cr) == saturate(
        ((y - 16) * 75 - (cr - 128) * 17 - (cb - 128) * 35 + 32) / 64,
        0,
        255,
    ));
    assert(spec_blue(inverse, levels, inverse_rounding(), y, cb) == saturate(
        ((y - 16) * 75 + (cb - 128) * 115 + 32) / 64,
        0,
        255,
    ));
}

proof fn lemma_gray_bt470_6_full(k: int)
    requires
        0 <= k <= 255,
    ensures
        gray_comes_back(YuvStandardMatrix::Bt470_6, YuvRange::Full, k),
{
    lemma2_to64();
    lemma_yuv_range_at_8_bits();
    lemma_standard_coefficients(YuvStandardMatrix::Bt470_6, YuvRange::Full);
    let forward = forward_coefficients(YuvRange::Full, YuvStandardMatrix::Bt470_6);
    let inverse = inverse_coefficients(YuvRange::Full, YuvStandardMatrix::Bt470_6, 8, 255, 6);
    let levels = spec_yuv_range(8, YuvRange::Full);
    let y = spec_luma(forward, levels, k, k, k);
    let cb = spec_cb(forward, levels, k, k, k);
    let cr = spec_cr(forward, levels, k, k, k);
    assert(y == saturate((k * 57 + k * 181 + k * 18 + 128) / 256, 0, 255));
    assert(cb == saturate((k * -31 + k * -97 + k * 128 + 32896) / 256, 0, 255));
    assert(cr == saturate((k * 128 + k * -116 + k * -12 + 32896) / 256, 0, 255));
    assert(spec_red(inverse, levels, inverse_rounding(), y, cr) == saturate(
        ((y - 0) * 64 + (cr - 128) * 100 + 32) / 64,
        0,
        255,
    ));
    assert(spec_green(inverse, levels, inverse_rounding(), y, cb, cr) == saturate(
        ((y - 0) * 64 - (cr - 128) * 31 - (cb - 128) * 12 + 32) / 64,
        0,
        255,
    ));
    assert(spec_blue(inverse, levels, inverse_rounding(), y, cb) == saturate(
        ((y - 0) * 64 + (cb - 128) * 119 + 32) / 64,
        0,
        255,
    ));
}

proof fn lemma_gray_bt470_6_tv(k: int)
    requires
        0 <= k <= 255,
    ensures
        gray_comes_back(YuvStandardMatrix::Bt470_6, YuvRange::TV, k),
{
    lemma2_to64();
    lemma_yuv_range_at_8_bits();
    lemma_standard_coefficients(YuvStandardMatrix::Bt470_6, YuvRange::TV);
    let forward = forward_coefficients(YuvRange::TV, YuvStandardMatrix::Bt470_6);
    let inverse = inverse_coefficients(YuvRange::TV, YuvStandardMatrix::Bt470_6, 8, 255, 6);
    let levels = spec_yuv_range(8, YuvRange::TV);
    let y = spec_luma(forward, levels, k, k, k);
    let cb = spec_cb(forward, levels, k, k, k);
    let cr = spec_cr(forward, levels, k, k, k);
    assert(y == saturate((k * 49 + k * 155 + k * 16 + 4224) / 256, 16, 235));
    assert(cb == saturate((k * -27 + k * -86 + k * 112 + 32896) / 256, 16, 240));
    assert(cr == saturate((k * 112 + k * -102 + k * -10 + 32896) / 256, 16, 240));
    assert(spec_red(inverse, levels, inverse_rounding(), y, cr) == saturate(
        ((y - 16) * 75 + (cr - 128) * 113 + 32) / 64,
        0,
        255,
    ));
    assert(spec_green(inverse, levels, inverse_rounding(), y, cb, cr) == saturate(
        ((y - 16) * 75 - (cr - 128) * 36 - (cb - 128) * 14 + 32) / 64,
        0,
        255,
    ));
    assert(spec_blue(inverse, levels, inverse_rounding(), y, cb) == saturate(
        ((y - 16) * 75 + (cb - 128) * 135 + 32) / 64,
        0,
        255,
    ));
}

/// Achromatic invariant for the standard matrices: [`gray_comes_back`] holds
/// of every gray under each of the five standard matrices, at full and at
/// limited range.
pub proof fn lemma_gray_under_standard_matrices(matrix: YuvStandardMatrix, range: YuvRange, k: int)
    requires
        0 <= k <= 255,
        !(matrix is Custom),
    ensures
        gray_comes_back(matrix, range, k),
{
    match (matrix, range) {
        (YuvStandardMatrix::Bt601, YuvRange::Full) => lemma_gray_bt601_full(k),
        (YuvStandardMatrix::Bt601, YuvRange::TV) => lemma_gray_bt601_tv(k),
        (YuvStandardMatrix::Bt709, YuvRange::Full) => lemma_gray_bt709_full(k),
        (YuvStandardMatrix::Bt709, YuvRange::TV) => lemma_gray_bt709_tv(k),
        (YuvStandardMatrix::Bt2020, YuvRange::Full) => lemma_gray_bt2020_full(k),
        (YuvStandardMatrix::Bt2020, YuvRange::TV) => lemma_gray_bt2020_tv(k),
        (YuvStandardMatrix::Smpte240, YuvRange::Full) => lemma_gray_smpte240_full(k),
        (YuvStandardMatrix::Smpte240, YuvRange::TV) => lemma_gray_smpte240_tv(k),
        (YuvStandardMatrix::Bt470_6, YuvRange::Full) => lemma_gray_bt470_6_full(k),
        (YuvStandardMatrix::Bt470_6, YuvRange::TV) => lemma_gray_bt470_6_tv(k),
        (YuvStandardMatrix::Custom(_, _), _) => {},
    }
}

/// Clamping. Whatever the samples and the coefficients, a colour brought back
/// from Y, Cb, Cr lies within the samples of its depth: sums out of range
/// saturate.
pub proof fn lemma_colors_saturate(
    transform: CbCrInverseTransform<i32>,
    range: YuvChromaRange,
    mode: Rounding,
    y: int,
    cb: int,
    cr: int,
)
    requires
        mode.wf(),
    ensures
        0 <= spec_red(transform, range, mode, y, cr) <= mode.max,
        0 <= spec_green(transform, range, mode, y, cb, cr) <= mode.max,
        0 <= spec_blue(transform, range, mode, y, cb) <= mode.max,
{
}

/// The mean of a sample with itself is the sample.
pub proof fn lemma_average_of_equals(sample: int)
    ensures
        channel_average(sample, sample) == sample,
{
}

/// Odd-width handling. Where chroma is halved and the width is odd, the last
/// chroma sample of a row is computed from the last column alone, and so it
/// is the one that a row one column wider gives whose added column repeats
/// the last.
pub proof fn lemma_odd_width_pairs_last_column_with_itself(
    rgba: Seq<u8>,
    offset: int,
    wider: Seq<u8>,
    wider_offset: int,
    channels: YuvSourceChannels,
    width: int,
    sampling: YuvChromaSample,
    channel: int,
)
    requires
        width >= 1,
        width % 2 == 1,
        sampling.is_halved(),
        channel_at(wider, wider_offset, channels, width - 1, channel) == channel_at(
            rgba,
            offset,
            channels,
            width - 1,
            channel,
        ),
        channel_at(wider, wider_offset, channels, width, channel) == channel_at(
            rgba,
            offset,
            channels,
            width - 1,
            channel,
        ),
    ensures
        chroma_source(rgba, offset, channels, width, sampling, (width - 1) / 2, channel)
            == channel_at(rgba, offset, channels, width - 1, channel),
        chroma_source(wider, wider_offset, channels, width + 1, sampling, (width - 1) / 2, channel)
            == chroma_source(rgba, offset, channels, width, sampling, (width - 1) / 2, channel),
{
}

} // verus!

//! The arithmetic of one pixel, towards YUV and back, and the access to the
//! pixels of an interleaved row.

use crate::numerics::floor_shift;
use crate::numerics::lemma_product_bound;
use crate::numerics::saturate;
use crate::numerics::shift_saturate;
use crate::planes::lemma_len_fits;
use crate::yuv_error::YuvError;
use crate::yuv_support::CbCrForwardTransform;
use crate::yuv_support::CbCrInverseTransform;
use crate::yuv_support::get_inverse_transform;
use crate::yuv_support::get_yuv_range;
use crate::yuv_support::lemma_yuv_range_bounds;
use crate::yuv_support::spec_inverse_transform;
use crate::yuv_support::spec_yuv_range;
use crate::yuv_support::YuvChromaRange;
use crate::yuv_support::YuvRange;
use crate::yuv_support::YuvSourceChannels;
use crate::yuv_support::YuvStandardMatrix;
use vstd::arithmetic::power2::lemma2_to64;
use vstd::prelude::*;

verus! {

/// The fractional bits of the coefficients that take 8-bit R, G, B to Y, Cb,
/// Cr.
pub const FORWARD_PRECISION: u32 = 8;

impl YuvChromaRange {
    /// Black levels and excursions stay within the samples of `max` and
    /// below: every value a conversion can write is a sample.
    pub open spec fn fits(self, max: int) -> bool {
        &&& self.bias_y + self.range_y <= max
        &&& self.bias_y + self.range_uv <= max
        &&& self.bias_uv <= max
    }
}

/// Luma of one pixel: the weighted sum of R, G, B and the black level, with
/// 8 fractional bits, rounded to nearest and held to the luma excursion.
pub open spec fn spec_luma(
    transform: CbCrForwardTransform<i32>,
    range: YuvChromaRange,
    r: int,
    g: int,
    b: int,
) -> int {
    saturate(
        (r * transform.yr + g * transform.yg + b * transform.yb + range.bias_y * 256 + 128) / 256,
        range.bias_y as int,
        range.bias_y + range.range_y,
    )
}

/// Blue-difference chroma of one pixel, or of the mean of a pair.
pub open spec fn spec_cb(
    transform: CbCrForwardTransform<i32>,
    range: YuvChromaRange,
    r: int,
    g: int,
    b: int,
) -> int {
    saturate(
        (r * transform.cb_r + g * transform.cb_g + b * transform.cb_b + range.bias_uv * 256 + 128)
            / 256,
        range.bias_y as int,
        range.bias_y + range.range_uv,
    )
}

/// Red-difference chroma of one pixel, or of the mean of a pair.
pub open spec fn spec_cr(
    transform: CbCrForwardTransform<i32>,
    range: YuvChromaRange,
    r: int,
    g: int,
    b: int,
) -> int {
    saturate(
        (r * transform.cr_r + g * transform.cr_g + b * transform.cr_b + range.bias_uv * 256 + 128)
            / 256,
        range.bias_y as int,
        range.bias_y + range.range_uv,
    )
}

/// The mean of two samples of one channel, halves rounded up: the box filter
/// that halves chroma horizontally. It is applied to R, G, B before the
/// chroma transform, not to chroma after it.
pub open spec fn channel_average(first: int, second: int) -> int {
    (first + second + 1) / 2
}

/// A sample times a coefficient, in 64 bits.
pub fn weigh(sample: i64, coefficient: i32) -> (product: i64)
    requires
        -0x1_0000 <= sample <= 0x1_0000,
    ensures
        product == sample * coefficient,
        -0x8000_0000_0000 <= product <= 0x8000_0000_0000,
{
    proof {
        lemma_product_bound(sample as int, coefficient as int, 0x1_0000, 0x8000_0000);
    }
    sample * (coefficient as i64)
}

fn forward_channel(
    c_r: i32,
    c_g: i32,
    c_b: i32,
    bias: u32,
    low: u32,
    high: u32,
    r: u8,
    g: u8,
    b: u8,
) -> (sample: u8)
    requires
        bias <= 255,
        low <= high <= 255,
    ensures
        sample == saturate(
            (r * c_r + g * c_g + b * c_b + bias * 256 + 128) / 256,
            low as int,
            high as int,
        ),
{
    let sum: i64 = weigh(r as i64, c_r) + weigh(g as i64, c_g) + weigh(b as i64, c_b) + (bias as i64
        * 256 + 128);
    proof {
        lemma2_to64();
    }
    shift_saturate(sum, FORWARD_PRECISION, low as i32, high as i32) as u8
}

/// Computes [`spec_luma`].
pub fn rgb_to_luma(
    transform: &CbCrForwardTransform<i32>,
    range: &YuvChromaRange,
    r: u8,
    g: u8,
    b: u8,
) -> (y: u8)
    requires
        range.fits(255),
    ensures
        y == spec_luma(*transform, *range, r as int, g as int, b as int),
{
    forward_channel(
        transform.yr,
        transform.yg,
        transform.yb,
        range.bias_y,
        range.bias_y,
        range.bias_y + range.range_y,
        r,
        g,
        b,
    )
}

/// Computes [`spec_cb`] and [`spec_cr`].
pub fn rgb_to_chroma(
    transform: &CbCrForwardTransform<i32>,
    range: &YuvChromaRange,
    r: u8,
    g: u8,
    b: u8,
) -> (chroma: (u8, u8))
    requires
        range.fits(255),
    ensures
        chroma.0 == spec_cb(*transform, *range, r as int, g as int, b as int),
        chroma.1 == spec_cr(*transform, *range, r as int, g as int, b as int),
{
    let cb: u8 = forward_channel(
        transform.cb_r,
        transform.cb_g,
        transform.cb_b,
        range.bias_uv,
        range.bias_y,
        range.bias_y + range.range_uv,
        r,
        g,
        b,
    );
    let cr: u8 = forward_channel(
        transform.cr_r,
        transform.cr_g,
        transform.cr_b,
        range.bias_uv,
        range.bias_y,
        range.bias_y + range.range_uv,
        r,
        g,
        b,
    );
    (cb, cr)
}

/// Computes [`channel_average`].
pub fn average(first: u8, second: u8) -> (mean: u8)
    ensures
        mean == channel_average(first as int, second as int),
        first == second ==> mean == first,
{
    ((first as u16 + second as u16 + 1) / 2) as u8
}

/// How an inverse kernel brings its sums back to samples: `rounding` is added,
/// the sum is shifted right by `shift` and held to `0 ..= max`.
#[derive(Debug, Copy, Clone, PartialEq, Eq, Structural)]
pub struct Rounding {
    pub rounding: i32,
    pub shift: u32,
    pub max: i32,
}

impl Rounding {
    pub open spec fn wf(self) -> bool {
        &&& 0 <= self.rounding
        &&& self.shift < 63
        &&& 0 <= self.max
    }
}

/// Red of one pixel from luma and red-difference chroma, black levels taken
/// off first.
pub open spec fn spec_red(
    transform: CbCrInverseTransform<i32>,
    range: YuvChromaRange,
    mode: Rounding,
    y: int,
    cr: int,
) -> int {
    saturate(
        floor_shift(
            (y - range.bias_y) * transform.y_coef + (cr - range.bias_uv) * transform.cr_coef
                + mode.rounding,
            mode.shift as nat,
        ),
        0,
        mode.max as int,
    )
}

/// Blue of one pixel from luma and blue-difference chroma.
pub open spec fn spec_blue(
    transform: CbCrInverseTransform<i32>,
    range: YuvChromaRange,
    mode: Rounding,
    y: int,
    cb: int,
) -> int {
    saturate(
        floor_shift(
            (y - range.bias_y) * transform.y_coef + (cb - range.bias_uv) * transform.cb_coef
                + mode.rounding,
            mode.shift as nat,
        ),
        0,
        mode.max as int,
    )
}

/// Green of one pixel from luma and both chroma samples.
pub open spec fn spec_green(
    transform: CbCrInverseTransform<i32>,
    range: YuvChromaRange,
    mode: Rounding,
    y: int,
    cb: int,
    cr: int,
) -> int {
    saturate(
        floor_shift(
            (y - range.bias_y) * transform.y_coef - (cr - range.bias_uv) * transform.g_coeff_1 - (cb
                - range.bias_uv) * transform.g_coeff_2 + mode.rounding,
            mode.shift as nat,
        ),
        0,
        mode.max as int,
    )
}

/// One pixel brought back to R, G, B.
pub struct Rgb {
    pub r: i32,
    pub g: i32,
    pub b: i32,
}

/// Computes [`spec_red`], [`spec_green`] and [`spec_blue`]. The sums are taken
/// in 64 bits, which no 32-bit coefficient can overflow, so that a sum out of
/// range saturates and never wraps.
pub fn yuv_to_rgb(
    transform: &CbCrInverseTransform<i32>,
    range: &YuvChromaRange,
    mode: Rounding,
    y: u16,
    cb: u16,
    cr: u16,
) -> (rgb: Rgb)
    requires
        mode.wf(),
        range.fits(0xffff),
    ensures
        rgb.r == spec_red(*transform, *range, mode, y as int, cr as int),
        rgb.g == spec_green(*transform, *range, mode, y as int, cb as int, cr as int),
        rgb.b == spec_blue(*transform, *range, mode, y as int, cb as int),
        0 <= rgb.r <= mode.max,
        0 <= rgb.g <= mode.max,
        0 <= rgb.b <= mode.max,
{
    let y_value: i64 = weigh(y as i64 - range.bias_y as i64, transform.y_coef);
    let cb_value: i64 = cb as i64 - range.bias_uv as i64;
    let cr_value: i64 = cr as i64 - range.bias_uv as i64;
    let rounding: i64 = mode.rounding as i64;
    let r: i32 = shift_saturate(
        y_value + weigh(cr_value, transform.cr_coef) + rounding,
        mode.shift,
        0,
        mode.max,
    );
    let b: i32 = shift_saturate(
        y_value + weigh(cb_value, transform.cb_coef) + rounding,
        mode.shift,
        0,
        mode.max,
    );
    let g: i32 = shift_saturate(
        y_value - weigh(cr_value, transform.g_coeff_1) - weigh(cb_value, transform.g_coeff_2)
            + rounding,
        mode.shift,
        0,
        mode.max,
    );
    Rgb { r, g, b }
}

/// Where pixel `x` of an interleaved row starts, counted from the start of
/// the row.
pub open spec fn pixel_start(channels: YuvSourceChannels, x: int) -> int {
    if channels.spec_has_alpha() {
        4 * x
    } else {
        3 * x
    }
}

/// The sample of pixel `x` that stands `channel` places into the pixel, in
/// the interleaved row that starts at `offset`.
pub open spec fn channel_at(
    rgba: Seq<u8>,
    offset: int,
    channels: YuvSourceChannels,
    x: int,
    channel: int,
) -> u8 {
    rgba[offset + pixel_start(channels, x) + channel]
}

/// Computes [`pixel_start`].
pub fn get_pixel_start(channels: YuvSourceChannels, x: usize) -> (start: usize)
    requires
        pixel_start(channels, x as int) <= usize::MAX,
    ensures
        start == pixel_start(channels, x as int),
{
    if channels.has_alpha() {
        4 * x
    } else {
        3 * x
    }
}

/// The R, G, B of one pixel of an interleaved row.
pub struct Rgb8 {
    pub r: u8,
    pub g: u8,
    pub b: u8,
}

/// Reads pixel `x` of the interleaved row that starts at `offset`.
pub fn read_pixel(rgba: &[u8], offset: usize, channels: YuvSourceChannels, x: usize) -> (pixel:
    Rgb8)
    requires
        offset + pixel_start(channels, x + 1) <= rgba@.len(),
    ensures
        pixel.r == channel_at(rgba@, offset as int, channels, x as int, channels.spec_r_offset()),
        pixel.g == channel_at(rgba@, offset as int, channels, x as int, channels.spec_g_offset()),
        pixel.b == channel_at(rgba@, offset as int, channels, x as int, channels.spec_b_offset()),
{
    proof {
        lemma_len_fits(rgba);
    }
    let start: usize = offset + get_pixel_start(channels, x);
    Rgb8 {
        r: rgba[start + channels.get_r_channel_offset()],
        g: rgba[start + channels.get_g_channel_offset()],
        b: rgba[start + channels.get_b_channel_offset()],
    }
}

/// The fixed-point coefficients that take Y, Cb, Cr of `bit_depth` bits back
/// to R, G, B of excursion `range_rgba`, with `precision` fractional bits.
pub open spec fn inverse_coefficients(
    range: YuvRange,
    matrix: YuvStandardMatrix,
    bit_depth: nat,
    range_rgba: int,
    precision: nat,
) -> CbCrInverseTransform<i32> {
    let chroma_range = spec_yuv_range(bit_depth, range);
    spec_inverse_transform(
        range_rgba,
        chroma_range.range_y as int,
        chroma_range.range_uv as int,
        matrix.spec_kr_kb().kr,
        matrix.spec_kr_kb().kb,
    ).quantized(precision)
}

/// Derives [`inverse_coefficients`], or refuses the matrix.
pub fn get_inverse_coefficients(
    range: YuvRange,
    matrix: YuvStandardMatrix,
    bit_depth: u32,
    range_rgba: u32,
    precision: u32,
) -> (transform: Result<CbCrInverseTransform<i32>, YuvError>)
    requires
        8 <= bit_depth <= 16,
        0 < range_rgba <= 0xffff,
        precision <= 30,
    ensures
        transform is Ok <==> matrix.is_valid(),
        transform is Ok ==> transform->Ok_0 == inverse_coefficients(
            range,
            matrix,
            bit_depth as nat,
            range_rgba as int,
            precision as nat,
        ),
        transform is Err ==> transform->Err_0 == YuvError::InvalidMatrix,
{
    proof {
        lemma_yuv_range_bounds(bit_depth as nat, range);
    }
    let chroma_range: YuvChromaRange = get_yuv_range(bit_depth, range);
    let kr_kb = matrix.get_kr_kb();
    match get_inverse_transform(
        range_rgba,
        chroma_range.range_y,
        chroma_range.range_uv,
        kr_kb.kr,
        kr_kb.kb,
    ) {
        Ok(precise) => Ok(precise.to_integers(precision)),
        Err(error) => Err(error),
    }
}

/// The pixel that byte `j` of an interleaved row belongs to.
pub open spec fn pixel_of(channels: YuvSourceChannels, j: int) -> int {
    if channels.spec_has_alpha() {
        j / 4
    } else {
        j / 3
    }
}

/// The place of byte `j` of an interleaved row within its pixel.
pub open spec fn slot_of(channels: YuvSourceChannels, j: int) -> int {
    if channels.spec_has_alpha() {
        j % 4
    } else {
        j % 3
    }
}

/// Byte `slot` of an interleaved pixel with the given colour and alpha.
pub open spec fn color_byte(
    channels: YuvSourceChannels,
    r: int,
    g: int,
    b: int,
    a: int,
    slot: int,
) -> u8 {
    if slot == channels.spec_r_offset() {
        r as u8
    } else if slot == channels.spec_g_offset() {
        g as u8
    } else if slot == channels.spec_b_offset() {
        b as u8
    } else {
        a as u8
    }
}

/// Writes one interleaved pixel at `offset`. Alpha is written where the
/// channel order has it.
pub fn store_pixel(
    dst: &mut [u8],
    offset: usize,
    channels: YuvSourceChannels,
    r: u8,
    g: u8,
    b: u8,
    a: u8,
)
    requires
        offset + channels.spec_channels_count() <= old(dst)@.len(),
    ensures
        final(dst)@.len() == old(dst)@.len(),
        forall|i: int|
            offset <= i < offset + channels.spec_channels_count() ==> #[trigger] final(dst)@[i]
                == color_byte(channels, r as int, g as int, b as int, a as int, i - offset),
        forall|i: int|
            0 <= i < old(dst)@.len() && !(offset <= i < offset + channels.spec_channels_count())
                ==> #[trigger] final(dst)@[i] == old(dst)@[i],
{
    proof {
        lemma_len_fits(dst);
    }
    dst[offset + channels.get_b_channel_offset()] = b;
    dst[offset + channels.get_g_channel_offset()] = g;
    dst[offset + channels.get_r_channel_offset()] = r;
    if channels.has_alpha() {
        dst[offset + channels.get_a_channel_offset()] = a;
    }
}

} // verus!

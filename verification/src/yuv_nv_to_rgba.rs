//! Bi-planar YUV to interleaved RGB.

use crate::pixel::color_byte;
use crate::pixel::get_inverse_coefficients;
use crate::pixel::get_pixel_start;
use crate::pixel::inverse_coefficients;
use crate::pixel::pixel_of;
use crate::pixel::pixel_start;
use crate::pixel::Rgb;
use crate::pixel::Rounding;
use crate::pixel::slot_of;
use crate::pixel::spec_blue;
use crate::pixel::spec_green;
use crate::pixel::spec_red;
use crate::pixel::store_pixel;
use crate::pixel::yuv_to_rgb;
use crate::planes::cell;
use crate::planes::lemma_cell_order;
use crate::planes::lemma_len_fits;
use crate::planes::lemma_plane_row_written;
use crate::planes::lemma_row_extended;
use crate::planes::lemma_rows_fit;
use crate::planes::plane_written;
use crate::planes::row_written;
use crate::rgba_to_nv::check_nv_planes;
use crate::rgba_to_nv::nv_planes_fit;
use crate::yuv_error::YuvError;
use crate::yuv_support::CbCrInverseTransform;
use crate::yuv_support::get_yuv_range;
use crate::yuv_support::lemma_yuv_range_bounds;
use crate::yuv_support::spec_yuv_range;
use crate::yuv_support::YuvChromaRange;
use crate::yuv_support::YuvChromaSample;
use crate::yuv_support::YuvNVOrder;
use crate::yuv_support::YuvRange;
use crate::yuv_support::YuvSourceChannels;
use crate::yuv_support::YuvStandardMatrix;
use vstd::arithmetic::power2::lemma2_to64;
use vstd::prelude::*;

verus! {

/// The fractional bits of the coefficients that take 8-bit Y, Cb, Cr back to
/// R, G, B.
pub const INVERSE_PRECISION: u32 = 6;

/// How 8-bit kernels round: half of `2^6` is added, the sum is shifted right
/// by 6 and held to `0 ..= 255`.
pub open spec fn inverse_rounding() -> Rounding {
    Rounding { rounding: 32, shift: 6, max: 255 }
}

/// Byte `j` of an interleaved row of R, G, B (and alpha), from the luma row
/// that starts at `y_offset` and the interleaved chroma row that starts at
/// `uv_offset`. Where chroma is halved, the two columns of a pair use the
/// same chroma sample as it is. Alpha is 255.
pub open spec fn nv_rgbx_byte(
    y_plane: Seq<u8>,
    y_offset: int,
    uv_plane: Seq<u8>,
    uv_offset: int,
    order: YuvNVOrder,
    channels: YuvSourceChannels,
    sampling: YuvChromaSample,
    transform: CbCrInverseTransform<i32>,
    range: YuvChromaRange,
    j: int,
) -> u8 {
    let x = pixel_of(channels, j);
    let cx = sampling.chroma_column(x);
    let y = y_plane[y_offset + x] as int;
    let cb = uv_plane[uv_offset + 2 * cx + order.spec_u_position()] as int;
    let cr = uv_plane[uv_offset + 2 * cx + order.spec_v_position()] as int;
    color_byte(
        channels,
        spec_red(transform, range, inverse_rounding(), y, cr),
        spec_green(transform, range, inverse_rounding(), y, cb, cr),
        spec_blue(transform, range, inverse_rounding(), y, cb),
        255,
        slot_of(channels, j),
    )
}

/// An interleaved row as a function of the byte's place in it.
pub open spec fn nv_rgbx_row(
    y_plane: Seq<u8>,
    y_offset: int,
    uv_plane: Seq<u8>,
    uv_offset: int,
    order: YuvNVOrder,
    channels: YuvSourceChannels,
    sampling: YuvChromaSample,
    transform: CbCrInverseTransform<i32>,
    range: YuvChromaRange,
) -> spec_fn(int) -> u8 {
    |j: int|
        nv_rgbx_byte(
            y_plane,
            y_offset,
            uv_plane,
            uv_offset,
            order,
            channels,
            sampling,
            transform,
            range,
            j,
        )
}

/// The interleaved image as a function of row and byte: row `row` uses luma
/// row `row` and the chroma row it shares.
pub open spec fn nv_rgbx_image(
    y_plane: Seq<u8>,
    y_stride: int,
    uv_plane: Seq<u8>,
    uv_stride: int,
    order: YuvNVOrder,
    channels: YuvSourceChannels,
    sampling: YuvChromaSample,
    transform: CbCrInverseTransform<i32>,
    range: YuvChromaRange,
) -> spec_fn(int, int) -> u8 {
    |row: int, j: int|
        nv_rgbx_byte(
            y_plane,
            cell(y_stride, row, 0),
            uv_plane,
            cell(uv_stride, sampling.chroma_row(row), 0),
            order,
            channels,
            sampling,
            transform,
            range,
            j,
        )
}

/// What a conversion from a bi-planar image to interleaved RGB leaves behind.
/// A degenerate matrix is refused, then planes that do not fit; a refusal
/// writes nothing. Otherwise every pixel is written and the padding of the
/// destination is untouched.
pub open spec fn yuv_nv_to_rgbx_post(
    y_plane: Seq<u8>,
    y_stride: int,
    uv_plane: Seq<u8>,
    uv_stride: int,
    before: Seq<u8>,
    after: Seq<u8>,
    stride: int,
    width: int,
    height: int,
    range: YuvRange,
    matrix: YuvStandardMatrix,
    order: YuvNVOrder,
    channels: YuvSourceChannels,
    sampling: YuvChromaSample,
    result: Result<(), YuvError>,
) -> bool {
    if !matrix.is_valid() {
        &&& result == Err::<(), YuvError>(YuvError::InvalidMatrix)
        &&& after == before
    } else if !nv_planes_fit(
        y_plane.len() as int,
        y_stride,
        uv_plane.len() as int,
        uv_stride,
        before.len() as int,
        stride,
        width,
        height,
        channels,
        sampling,
    ) {
        &&& result == Err::<(), YuvError>(YuvError::BufferSizeMismatch)
        &&& after == before
    } else {
        &&& result is Ok
        &&& plane_written(
            before,
            after,
            stride,
            pixel_start(channels, width),
            height,
            nv_rgbx_image(
                y_plane,
                y_stride,
                uv_plane,
                uv_stride,
                order,
                channels,
                sampling,
                inverse_coefficients(range, matrix, 8, 255, INVERSE_PRECISION as nat),
                spec_yuv_range(8, range),
            ),
        )
    }
}

/// Converts one row.
pub fn yuv_nv_to_rgbx_row(
    y_plane: &[u8],
    y_offset: usize,
    uv_plane: &[u8],
    uv_offset: usize,
    bgra: &mut [u8],
    dst_offset: usize,
    width: u32,
    range: &YuvChromaRange,
    transform: &CbCrInverseTransform<i32>,
    order: YuvNVOrder,
    channels: YuvSourceChannels,
    sampling: YuvChromaSample,
)
    requires
        range.fits(255),
        y_offset + width <= y_plane@.len(),
        uv_offset + 2 * sampling.chroma_width(width as int) <= uv_plane@.len(),
        dst_offset + pixel_start(channels, width as int) <= old(bgra)@.len(),
    ensures
        row_written(
            old(bgra)@,
            final(bgra)@,
            dst_offset as int,
            pixel_start(channels, width as int),
            nv_rgbx_row(
                y_plane@,
                y_offset as int,
                uv_plane@,
                uv_offset as int,
                order,
                channels,
                sampling,
                *transform,
                *range,
            ),
        ),
{
    proof {
        lemma_len_fits(y_plane);
        lemma_len_fits(uv_plane);
        lemma_len_fits(bgra);
    }
    let halved: bool = sampling != YuvChromaSample::YUV444;
    let u_position: usize = order.get_u_position();
    let v_position: usize = order.get_v_position();
    let mode = Rounding { rounding: 32, shift: INVERSE_PRECISION, max: 255 };
    let ghost row = nv_rgbx_row(
        y_plane@,
        y_offset as int,
        uv_plane@,
        uv_offset as int,
        order,
        channels,
        sampling,
        *transform,
        *range,
    );
    let mut x: usize = 0;
    while x < width as usize
        invariant
            x <= width,
            halved == sampling.is_halved(),
            u_position == order.spec_u_position(),
            v_position == order.spec_v_position(),
            mode == inverse_rounding(),
            range.fits(255),
            row == nv_rgbx_row(
                y_plane@,
                y_offset as int,
                uv_plane@,
                uv_offset as int,
                order,
                channels,
                sampling,
                *transform,
                *range,
            ),
            y_offset + width <= y_plane@.len() <= usize::MAX,
            uv_offset + 2 * sampling.chroma_width(width as int) <= uv_plane@.len() <= usize::MAX,
            dst_offset + pixel_start(channels, width as int) <= bgra@.len() <= usize::MAX,
            bgra@.len() == old(bgra)@.len(),
            forall|i: int|
                dst_offset <= i < dst_offset + pixel_start(channels, x as int) ==> #[trigger] bgra@[i]
                    == row(i - dst_offset),
            forall|i: int|
                0 <= i < bgra@.len() && !(dst_offset <= i < dst_offset + pixel_start(
                    channels,
                    x as int,
                )) ==> #[trigger] bgra@[i] == old(bgra)@[i],
        decreases width - x,
    {
        let cx: usize = if halved {
            x / 2
        } else {
            x
        };
        let y_value: u8 = y_plane[y_offset + x];
        let cb_pos: usize = uv_offset + 2 * cx;
        let cb_value: u8 = uv_plane[cb_pos + u_position];
        let cr_value: u8 = uv_plane[cb_pos + v_position];
        let rgb: Rgb = yuv_to_rgb(
            transform,
            range,
            mode,
            y_value as u16,
            cb_value as u16,
            cr_value as u16,
        );
        let start: usize = get_pixel_start(channels, x);
        let ghost earlier = bgra@;
        store_pixel(bgra, dst_offset + start, channels, rgb.r as u8, rgb.g as u8, rgb.b as u8, 255);
        proof {
            let count = channels.spec_channels_count();
            assert forall|i: int|
                dst_offset + start <= i < dst_offset + start + count implies #[trigger] bgra@[i]
                == row(i - dst_offset) by {
                let j = i - dst_offset;
                assert(pixel_of(channels, j) == x);
                assert(slot_of(channels, j) == i - (dst_offset + start));
            }
            lemma_row_extended(
                old(bgra)@,
                earlier,
                bgra@,
                dst_offset as int,
                start as int,
                count,
                row,
            );
        }
        x += 1;
    }
}

/// Converts a bi-planar YUV image to an interleaved RGB image, row by row.
pub fn yuv_nv12_to_rgbx(
    y_plane: &[u8],
    y_stride: u32,
    uv_plane: &[u8],
    uv_stride: u32,
    bgra: &mut [u8],
    bgra_stride: u32,
    width: u32,
    height: u32,
    range: YuvRange,
    matrix: YuvStandardMatrix,
    order: YuvNVOrder,
    channels: YuvSourceChannels,
    sampling: YuvChromaSample,
) -> (result: Result<(), YuvError>)
    ensures
        yuv_nv_to_rgbx_post(
            y_plane@,
            y_stride as int,
            uv_plane@,
            uv_stride as int,
            old(bgra)@,
            final(bgra)@,
            bgra_stride as int,
            width as int,
            height as int,
            range,
            matrix,
            order,
            channels,
            sampling,
            result,
        ),
{
    let transform: CbCrInverseTransform<i32> = match get_inverse_coefficients(
        range,
        matrix,
        8,
        255,
        INVERSE_PRECISION,
    ) {
        Ok(transform) => transform,
        Err(error) => { return Err(error); },
    };
    if !check_nv_planes(
        y_plane.len(),
        y_stride,
        uv_plane.len(),
        uv_stride,
        bgra.len(),
        bgra_stride,
        width,
        height,
        channels,
        sampling,
    ) {
        return Err(YuvError::BufferSizeMismatch);
    }
    if width == 0 {
        return Ok(());
    }
    proof {
        lemma_len_fits(y_plane);
        lemma_len_fits(uv_plane);
        lemma_len_fits(bgra);
        lemma_yuv_range_bounds(8, range);
        lemma2_to64();
    }
    let chroma_range: YuvChromaRange = get_yuv_range(8, range);
    let ghost image = nv_rgbx_image(
        y_plane@,
        y_stride as int,
        uv_plane@,
        uv_stride as int,
        order,
        channels,
        sampling,
        transform,
        chroma_range,
    );
    let ghost row_len = pixel_start(channels, width as int);
    let ghost chroma_height = sampling.chroma_height(height as int);
    let mut y: usize = 0;
    while y < height as usize
        invariant
            y <= height,
            width > 0,
            chroma_range.fits(255),
            y_plane@.len() <= usize::MAX,
            uv_plane@.len() <= usize::MAX,
            bgra@.len() == old(bgra)@.len() <= usize::MAX,
            row_len == pixel_start(channels, width as int),
            chroma_height == sampling.chroma_height(height as int),
            nv_planes_fit(
                y_plane@.len() as int,
                y_stride as int,
                uv_plane@.len() as int,
                uv_stride as int,
                bgra@.len() as int,
                bgra_stride as int,
                width as int,
                height as int,
                channels,
                sampling,
            ),
            image == nv_rgbx_image(
                y_plane@,
                y_stride as int,
                uv_plane@,
                uv_stride as int,
                order,
                channels,
                sampling,
                transform,
                chroma_range,
            ),
            plane_written(old(bgra)@, bgra@, bgra_stride as int, row_len, y as int, image),
        decreases height - y,
    {
        let chroma_y: usize = if sampling == YuvChromaSample::YUV420 {
            y / 2
        } else {
            y
        };
        proof {
            lemma_cell_order(y_stride as int, y as int, 0, height as int);
            lemma_cell_order(bgra_stride as int, y as int, 0, height as int);
            lemma_cell_order(uv_stride as int, chroma_y as int, 0, chroma_height);
            lemma_rows_fit(bgra_stride as int, y as int, height as int);
        }
        let y_offset: usize = y * (y_stride as usize);
        let uv_offset: usize = chroma_y * (uv_stride as usize);
        let dst_offset: usize = y * (bgra_stride as usize);
        let ghost middle = bgra@;
        yuv_nv_to_rgbx_row(
            y_plane,
            y_offset,
            uv_plane,
            uv_offset,
            bgra,
            dst_offset,
            width,
            &chroma_range,
            &transform,
            order,
            channels,
            sampling,
        );
        proof {
            assert(row_written(
                middle,
                bgra@,
                cell(bgra_stride as int, y as int, 0),
                row_len,
                |j: int| image(y as int, j),
            ));
            lemma_plane_row_written(
                old(bgra)@,
                middle,
                bgra@,
                bgra_stride as int,
                row_len,
                y as int,
                y as int,
                image,
                image,
            );
        }
        y += 1;
    }
    Ok(())
}

/// Converts NV12, a luma plane and one chroma plane of 4:2:0 with U
/// first in each pair, to an interleaved BGRA image. Alpha is set to 255.
pub fn yuv_nv12_to_bgra(
    y_plane: &[u8],
    y_stride: u32,
    uv_plane: &[u8],
    uv_stride: u32,
    bgra: &mut [u8],
    bgra_stride: u32,
    width: u32,
    height: u32,
    range: YuvRange,
    matrix: YuvStandardMatrix,
) -> (result: Result<(), YuvError>)
    ensures
        yuv_nv_to_rgbx_post(
            y_plane@,
            y_stride as int,
            uv_plane@,
            uv_stride as int,
            old(bgra)@,
            final(bgra)@,
            bgra_stride as int,
            width as int,
            height as int,
            range,
            matrix,
            YuvNVOrder::UV,
            YuvSourceChannels::Bgra,
            YuvChromaSample::YUV420,
            result,
        ),
{
    yuv_nv12_to_rgbx(
        y_plane,
        y_stride,
        uv_plane,
        uv_stride,
        bgra,
        bgra_stride,
        width,
        height,
        range,
        matrix,
        YuvNVOrder::UV,
        YuvSourceChannels::Bgra,
        YuvChromaSample::YUV420,
    )
}

/// Converts NV16, a luma plane and one chroma plane of 4:2:2 with U
/// first in each pair, to an interleaved BGRA image. Alpha is set to 255.
pub fn yuv_nv16_to_bgra(
    y_plane: &[u8],
    y_stride: u32,
    uv_plane: &[u8],
    uv_stride: u32,
    bgra: &mut [u8],
    bgra_stride: u32,
    width: u32,
    height: u32,
    range: YuvRange,
    matrix: YuvStandardMatrix,
) -> (result: Result<(), YuvError>)
    ensures
        yuv_nv_to_rgbx_post(
            y_plane@,
            y_stride as int,
            uv_plane@,
            uv_stride as int,
            old(bgra)@,
            final(bgra)@,
            bgra_stride as int,
            width as int,
            height as int,
            range,
            matrix,
            YuvNVOrder::UV,
            YuvSourceChannels::Bgra,
            YuvChromaSample::YUV422,
            result,
        ),
{
    yuv_nv12_to_rgbx(
        y_plane,
        y_stride,
        uv_plane,
        uv_stride,
        bgra,
        bgra_stride,
        width,
        height,
        range,
        matrix,
        YuvNVOrder::UV,
        YuvSourceChannels::Bgra,
        YuvChromaSample::YUV422,
    )
}

/// Converts NV61, a luma plane and one chroma plane of 4:2:2 with V
/// first in each pair, to an interleaved BGRA image. Alpha is set to 255.
pub fn yuv_nv61_to_bgra(
    y_plane: &[u8],
    y_stride: u32,
    vu_plane: &[u8],
    vu_stride: u32,
    bgra: &mut [u8],
    bgra_stride: u32,
    width: u32,
    height: u32,
    range: YuvRange,
    matrix: YuvStandardMatrix,
) -> (result: Result<(), YuvError>)
    ensures
        yuv_nv_to_rgbx_post(
            y_plane@,
            y_stride as int,
            vu_plane@,
            vu_stride as int,
            old(bgra)@,
            final(bgra)@,
            bgra_stride as int,
            width as int,
            height as int,
            range,
            matrix,
            YuvNVOrder::VU,
            YuvSourceChannels::Bgra,
            YuvChromaSample::YUV422,
            result,
        ),
{
    yuv_nv12_to_rgbx(
        y_plane,
        y_stride,
        vu_plane,
        vu_stride,
        bgra,
        bgra_stride,
        width,
        height,
        range,
        matrix,
        YuvNVOrder::VU,
        YuvSourceChannels::Bgra,
        YuvChromaSample::YUV422,
    )
}

/// Converts NV21, a luma plane and one chroma plane of 4:2:0 with V
/// first in each pair, to an interleaved BGRA image. Alpha is set to 255.
pub fn yuv_nv21_to_bgra(
    y_plane: &[u8],
    y_stride: u32,
    vu_plane: &[u8],
    vu_stride: u32,
    bgra: &mut [u8],
    bgra_stride: u32,
    width: u32,
    height: u32,
    range: YuvRange,
    matrix: YuvStandardMatrix,
) -> (result: Result<(), YuvError>)
    ensures
        yuv_nv_to_rgbx_post(
            y_plane@,
            y_stride as int,
            vu_plane@,
            vu_stride as int,
            old(bgra)@,
            final(bgra)@,
            bgra_stride as int,
            width as int,
            height as int,
            range,
            matrix,
            YuvNVOrder::VU,
            YuvSourceChannels::Bgra,
            YuvChromaSample::YUV420,
            result,
        ),
{
    yuv_nv12_to_rgbx(
        y_plane,
        y_stride,
        vu_plane,
        vu_stride,
        bgra,
        bgra_stride,
        width,
        height,
        range,
        matrix,
        YuvNVOrder::VU,
        YuvSourceChannels::Bgra,
        YuvChromaSample::YUV420,
    )
}

/// Converts NV16, a luma plane and one chroma plane of 4:2:2 with U
/// first in each pair, to an interleaved RGBA image. Alpha is set to 255.
pub fn yuv_nv16_to_rgba(
    y_plane: &[u8],
    y_stride: u32,
    uv_plane: &[u8],
    uv_stride: u32,
    rgba: &mut [u8],
    rgba_stride: u32,
    width: u32,
    height: u32,
    range: YuvRange,
    matrix: YuvStandardMatrix,
) -> (result: Result<(), YuvError>)
    ensures
        yuv_nv_to_rgbx_post(
            y_plane@,
            y_stride as int,
            uv_plane@,
            uv_stride as int,
            old(rgba)@,
            final(rgba)@,
            rgba_stride as int,
            width as int,
            height as int,
            range,
            matrix,
            YuvNVOrder::UV,
            YuvSourceChannels::Rgba,
            YuvChromaSample::YUV422,
            result,
        ),
{
    yuv_nv12_to_rgbx(
        y_plane,
        y_stride,
        uv_plane,
        uv_stride,
        rgba,
        rgba_stride,
        width,
        height,
        range,
        matrix,
        YuvNVOrder::UV,
        YuvSourceChannels::Rgba,
        YuvChromaSample::YUV422,
    )
}

/// Converts NV61, a luma plane and one chroma plane of 4:2:2 with V
/// first in each pair, to an interleaved RGBA image. Alpha is set to 255.
pub fn yuv_nv61_to_rgba(
    y_plane: &[u8],
    y_stride: u32,
    uv_plane: &[u8],
    uv_stride: u32,
    rgba: &mut [u8],
    rgba_stride: u32,
    width: u32,
    height: u32,
    range: YuvRange,
    matrix: YuvStandardMatrix,
) -> (result: Result<(), YuvError>)
    ensures
        yuv_nv_to_rgbx_post(
            y_plane@,
            y_stride as int,
            uv_plane@,
            uv_stride as int,
            old(rgba)@,
            final(rgba)@,
            rgba_stride as int,
            width as int,
            height as int,
            range,
            matrix,
            YuvNVOrder::VU,
            YuvSourceChannels::Rgba,
            YuvChromaSample::YUV422,
            result,
        ),
{
    yuv_nv12_to_rgbx(
        y_plane,
        y_stride,
        uv_plane,
        uv_stride,
        rgba,
        rgba_stride,
        width,
        height,
        range,
        matrix,
        YuvNVOrder::VU,
        YuvSourceChannels::Rgba,
        YuvChromaSample::YUV422,
    )
}

/// Converts NV12, a luma plane and one chroma plane of 4:2:0 with U
/// first in each pair, to an interleaved RGBA image. Alpha is set to 255.
pub fn yuv_nv12_to_rgba(
    y_plane: &[u8],
    y_stride: u32,
    uv_plane: &[u8],
    uv_stride: u32,
    rgba: &mut [u8],
    rgba_stride: u32,
    width: u32,
    height: u32,
    range: YuvRange,
    matrix: YuvStandardMatrix,
) -> (result: Result<(), YuvError>)
    ensures
        yuv_nv_to_rgbx_post(
            y_plane@,
            y_stride as int,
            uv_plane@,
            uv_stride as int,
            old(rgba)@,
            final(rgba)@,
            rgba_stride as int,
            width as int,
            height as int,
            range,
            matrix,
            YuvNVOrder::UV,
            YuvSourceChannels::Rgba,
            YuvChromaSample::YUV420,
            result,
        ),
{
    yuv_nv12_to_rgbx(
        y_plane,
        y_stride,
        uv_plane,
        uv_stride,
        rgba,
        rgba_stride,
        width,
        height,
        range,
        matrix,
        YuvNVOrder::UV,
        YuvSourceChannels::Rgba,
        YuvChromaSample::YUV420,
    )
}

/// Converts NV21, a luma plane and one chroma plane of 4:2:0 with V
/// first in each pair, to an interleaved RGBA image. Alpha is set to 255.
pub fn yuv_nv21_to_rgba(
    y_plane: &[u8],
    y_stride: u32,
    vu_plane: &[u8],
    vu_stride: u32,
    rgba: &mut [u8],
    rgba_stride: u32,
    width: u32,
    height: u32,
    range: YuvRange,
    matrix: YuvStandardMatrix,
) -> (result: Result<(), YuvError>)
    ensures
        yuv_nv_to_rgbx_post(
            y_plane@,
            y_stride as int,
            vu_plane@,
            vu_stride as int,
            old(rgba)@,
            final(rgba)@,
            rgba_stride as int,
            width as int,
            height as int,
            range,
            matrix,
            YuvNVOrder::VU,
            YuvSourceChannels::Rgba,
            YuvChromaSample::YUV420,
            result,
        ),
{
    yuv_nv12_to_rgbx(
        y_plane,
        y_stride,
        vu_plane,
        vu_stride,
        rgba,
        rgba_stride,
        width,
        height,
        range,
        matrix,
        YuvNVOrder::VU,
        YuvSourceChannels::Rgba,
        YuvChromaSample::YUV420,
    )
}

/// Converts NV12, a luma plane and one chroma plane of 4:2:0 with U
/// first in each pair, to an interleaved RGB image.
pub fn yuv_nv12_to_rgb(
    y_plane: &[u8],
    y_stride: u32,
    uv_plane: &[u8],
    uv_stride: u32,
    rgb: &mut [u8],
    rgb_stride: u32,
    width: u32,
    height: u32,
    range: YuvRange,
    matrix: YuvStandardMatrix,
) -> (result: Result<(), YuvError>)
    ensures
        yuv_nv_to_rgbx_post(
            y_plane@,
            y_stride as int,
            uv_plane@,
            uv_stride as int,
            old(rgb)@,
            final(rgb)@,
            rgb_stride as int,
            width as int,
            height as int,
            range,
            matrix,
            YuvNVOrder::UV,
            YuvSourceChannels::Rgb,
            YuvChromaSample::YUV420,
            result,
        ),
{
    yuv_nv12_to_rgbx(
        y_plane,
        y_stride,
        uv_plane,
        uv_stride,
        rgb,
        rgb_stride,
        width,
        height,
        range,
        matrix,
        YuvNVOrder::UV,
        YuvSourceChannels::Rgb,
        YuvChromaSample::YUV420,
    )
}

/// Converts NV12, a luma plane and one chroma plane of 4:2:0 with U
/// first in each pair, to an interleaved BGR image.
pub fn yuv_nv12_to_bgr(
    y_plane: &[u8],
    y_stride: u32,
    uv_plane: &[u8],
    uv_stride: u32,
    bgr: &mut [u8],
    bgr_stride: u32,
    width: u32,
    height: u32,
    range: YuvRange,
    matrix: YuvStandardMatrix,
) -> (result: Result<(), YuvError>)
    ensures
        yuv_nv_to_rgbx_post(
            y_plane@,
            y_stride as int,
            uv_plane@,
            uv_stride as int,
            old(bgr)@,
            final(bgr)@,
            bgr_stride as int,
            width as int,
            height as int,
            range,
            matrix,
            YuvNVOrder::UV,
            YuvSourceChannels::Bgr,
            YuvChromaSample::YUV420,
            result,
        ),
{
    yuv_nv12_to_rgbx(
        y_plane,
        y_stride,
        uv_plane,
        uv_stride,
        bgr,
        bgr_stride,
        width,
        height,
        range,
        matrix,
        YuvNVOrder::UV,
        YuvSourceChannels::Bgr,
        YuvChromaSample::YUV420,
    )
}

/// Converts NV16, a luma plane and one chroma plane of 4:2:2 with U
/// first in each pair, to an interleaved RGB image.
pub fn yuv_nv16_to_rgb(
    y_plane: &[u8],
    y_stride: u32,
    uv_plane: &[u8],
    uv_stride: u32,
    rgb: &mut [u8],
    rgb_stride: u32,
    width: u32,
    height: u32,
    range: YuvRange,
    matrix: YuvStandardMatrix,
) -> (result: Result<(), YuvError>)
    ensures
        yuv_nv_to_rgbx_post(
            y_plane@,
            y_stride as int,
            uv_plane@,
            uv_stride as int,
            old(rgb)@,
            final(rgb)@,
            rgb_stride as int,
            width as int,
            height as int,
            range,
            matrix,
            YuvNVOrder::UV,
            YuvSourceChannels::Rgb,
            YuvChromaSample::YUV422,
            result,
        ),
{
    yuv_nv12_to_rgbx(
        y_plane,
        y_stride,
        uv_plane,
        uv_stride,
        rgb,
        rgb_stride,
        width,
        height,
        range,
        matrix,
        YuvNVOrder::UV,
        YuvSourceChannels::Rgb,
        YuvChromaSample::YUV422,
    )
}

/// Converts NV16, a luma plane and one chroma plane of 4:2:2 with U
/// first in each pair, to an interleaved BGR image.
pub fn yuv_nv16_to_bgr(
    y_plane: &[u8],
    y_stride: u32,
    uv_plane: &[u8],
    uv_stride: u32,
    bgr: &mut [u8],
    bgr_stride: u32,
    width: u32,
    height: u32,
    range: YuvRange,
    matrix: YuvStandardMatrix,
) -> (result: Result<(), YuvError>)
    ensures
        yuv_nv_to_rgbx_post(
            y_plane@,
            y_stride as int,
            uv_plane@,
            uv_stride as int,
            old(bgr)@,
            final(bgr)@,
            bgr_stride as int,
            width as int,
            height as int,
            range,
            matrix,
            YuvNVOrder::UV,
            YuvSourceChannels::Bgr,
            YuvChromaSample::YUV422,
            result,
        ),
{
    yuv_nv12_to_rgbx(
        y_plane,
        y_stride,
        uv_plane,
        uv_stride,
        bgr,
        bgr_stride,
        width,
        height,
        range,
        matrix,
        YuvNVOrder::UV,
        YuvSourceChannels::Bgr,
        YuvChromaSample::YUV422,
    )
}

/// Converts NV61, a luma plane and one chroma plane of 4:2:2 with V
/// first in each pair, to an interleaved RGB image.
pub fn yuv_nv61_to_rgb(
    y_plane: &[u8],
    y_stride: u32,
    uv_plane: &[u8],
    uv_stride: u32,
    rgb: &mut [u8],
    rgb_stride: u32,
    width: u32,
    height: u32,
    range: YuvRange,
    matrix: YuvStandardMatrix,
) -> (result: Result<(), YuvError>)
    ensures
        yuv_nv_to_rgbx_post(
            y_plane@,
            y_stride as int,
            uv_plane@,
            uv_stride as int,
            old(rgb)@,
            final(rgb)@,
            rgb_stride as int,
            width as int,
            height as int,
            range,
            matrix,
            YuvNVOrder::VU,
            YuvSourceChannels::Rgb,
            YuvChromaSample::YUV422,
            result,
        ),
{
    yuv_nv12_to_rgbx(
        y_plane,
        y_stride,
        uv_plane,
        uv_stride,
        rgb,
        rgb_stride,
        width,
        height,
        range,
        matrix,
        YuvNVOrder::VU,
        YuvSourceChannels::Rgb,
        YuvChromaSample::YUV422,
    )
}

/// Converts NV61, a luma plane and one chroma plane of 4:2:2 with V
/// first in each pair, to an interleaved BGR image.
pub fn yuv_nv61_to_bgr(
    y_plane: &[u8],
    y_stride: u32,
    uv_plane: &[u8],
    uv_stride: u32,
    bgr: &mut [u8],
    bgr_stride: u32,
    width: u32,
    height: u32,
    range: YuvRange,
    matrix: YuvStandardMatrix,
) -> (result: Result<(), YuvError>)
    ensures
        yuv_nv_to_rgbx_post(
            y_plane@,
            y_stride as int,
            uv_plane@,
            uv_stride as int,
            old(bgr)@,
            final(bgr)@,
            bgr_stride as int,
            width as int,
            height as int,
            range,
            matrix,
            YuvNVOrder::VU,
            YuvSourceChannels::Bgr,
            YuvChromaSample::YUV422,
            result,
        ),
{
    yuv_nv12_to_rgbx(
        y_plane,
        y_stride,
        uv_plane,
        uv_stride,
        bgr,
        bgr_stride,
        width,
        height,
        range,
        matrix,
        YuvNVOrder::VU,
        YuvSourceChannels::Bgr,
        YuvChromaSample::YUV422,
    )
}

/// Converts NV21, a luma plane and one chroma plane of 4:2:0 with V
/// first in each pair, to an interleaved RGB image.
pub fn yuv_nv21_to_rgb(
    y_plane: &[u8],
    y_stride: u32,
    vu_plane: &[u8],
    vu_stride: u32,
    rgb: &mut [u8],
    rgb_stride: u32,
    width: u32,
    height: u32,
    range: YuvRange,
    matrix: YuvStandardMatrix,
) -> (result: Result<(), YuvError>)
    ensures
        yuv_nv_to_rgbx_post(
            y_plane@,
            y_stride as int,
            vu_plane@,
            vu_stride as int,
            old(rgb)@,
            final(rgb)@,
            rgb_stride as int,
            width as int,
            height as int,
            range,
            matrix,
            YuvNVOrder::VU,
            YuvSourceChannels::Rgb,
            YuvChromaSample::YUV420,
            result,
        ),
{
    yuv_nv12_to_rgbx(
        y_plane,
        y_stride,
        vu_plane,
        vu_stride,
        rgb,
        rgb_stride,
        width,
        height,
        range,
        matrix,
        YuvNVOrder::VU,
        YuvSourceChannels::Rgb,
        YuvChromaSample::YUV420,
    )
}

/// Converts NV21, a luma plane and one chroma plane of 4:2:0 with V
/// first in each pair, to an interleaved BGR image.
pub fn yuv_nv21_to_bgr(
    y_plane: &[u8],
    y_stride: u32,
    vu_plane: &[u8],
    vu_stride: u32,
    bgr: &mut [u8],
    bgr_stride: u32,
    width: u32,
    height: u32,
    range: YuvRange,
    matrix: YuvStandardMatrix,
) -> (result: Result<(), YuvError>)
    ensures
        yuv_nv_to_rgbx_post(
            y_plane@,
            y_stride as int,
            vu_plane@,
            vu_stride as int,
            old(bgr)@,
            final(bgr)@,
            bgr_stride as int,
            width as int,
            height as int,
            range,
            matrix,
            YuvNVOrder::VU,
            YuvSourceChannels::Bgr,
            YuvChromaSample::YUV420,
            result,
        ),
{
    yuv_nv12_to_rgbx(
        y_plane,
        y_stride,
        vu_plane,
        vu_stride,
        bgr,
        bgr_stride,
        width,
        height,
        range,
        matrix,
        YuvNVOrder::VU,
        YuvSourceChannels::Bgr,
        YuvChromaSample::YUV420,
    )
}

/// Converts NV42, a luma plane and one chroma plane of 4:4:4 with V
/// first in each pair, to an interleaved RGBA image. Alpha is set to 255.
pub fn yuv_nv42_to_rgba(
    y_plane: &[u8],
    y_stride: u32,
    vu_plane: &[u8],
    vu_stride: u32,
    rgba: &mut [u8],
    rgba_stride: u32,
    width: u32,
    height: u32,
    range: YuvRange,
    matrix: YuvStandardMatrix,
) -> (result: Result<(), YuvError>)
    ensures
        yuv_nv_to_rgbx_post(
            y_plane@,
            y_stride as int,
            vu_plane@,
            vu_stride as int,
            old(rgba)@,
            final(rgba)@,
            rgba_stride as int,
            width as int,
            height as int,
            range,
            matrix,
            YuvNVOrder::VU,
            YuvSourceChannels::Rgba,
            YuvChromaSample::YUV444,
            result,
        ),
{
    yuv_nv12_to_rgbx(
        y_plane,
        y_stride,
        vu_plane,
        vu_stride,
        rgba,
        rgba_stride,
        width,
        height,
        range,
        matrix,
        YuvNVOrder::VU,
        YuvSourceChannels::Rgba,
        YuvChromaSample::YUV444,
    )
}

/// Converts NV24, a luma plane and one chroma plane of 4:4:4 with U
/// first in each pair, to an interleaved RGB image.
pub fn yuv_nv24_to_rgb(
    y_plane: &[u8],
    y_stride: u32,
    uv_plane: &[u8],
    uv_stride: u32,
    rgb: &mut [u8],
    rgb_stride: u32,
    width: u32,
    height: u32,
    range: YuvRange,
    matrix: YuvStandardMatrix,
) -> (result: Result<(), YuvError>)
    ensures
        yuv_nv_to_rgbx_post(
            y_plane@,
            y_stride as int,
            uv_plane@,
            uv_stride as int,
            old(rgb)@,
            final(rgb)@,
            rgb_stride as int,
            width as int,
            height as int,
            range,
            matrix,
            YuvNVOrder::UV,
            YuvSourceChannels::Rgb,
            YuvChromaSample::YUV444,
            result,
        ),
{
    yuv_nv12_to_rgbx(
        y_plane,
        y_stride,
        uv_plane,
        uv_stride,
        rgb,
        rgb_stride,
        width,
        height,
        range,
        matrix,
        YuvNVOrder::UV,
        YuvSourceChannels::Rgb,
        YuvChromaSample::YUV444,
    )
}

/// Converts NV24, a luma plane and one chroma plane of 4:4:4 with U
/// first in each pair, to an interleaved BGR image.
pub fn yuv_nv24_to_bgr(
    y_plane: &[u8],
    y_stride: u32,
    uv_plane: &[u8],
    uv_stride: u32,
    bgr: &mut [u8],
    bgr_stride: u32,
    width: u32,
    height: u32,
    range: YuvRange,
    matrix: YuvStandardMatrix,
) -> (result: Result<(), YuvError>)
    ensures
        yuv_nv_to_rgbx_post(
            y_plane@,
            y_stride as int,
            uv_plane@,
            uv_stride as int,
            old(bgr)@,
            final(bgr)@,
            bgr_stride as int,
            width as int,
            height as int,
            range,
            matrix,
            YuvNVOrder::UV,
            YuvSourceChannels::Bgr,
            YuvChromaSample::YUV444,
            result,
        ),
{
    yuv_nv12_to_rgbx(
        y_plane,
        y_stride,
        uv_plane,
        uv_stride,
        bgr,
        bgr_stride,
        width,
        height,
        range,
        matrix,
        YuvNVOrder::UV,
        YuvSourceChannels::Bgr,
        YuvChromaSample::YUV444,
    )
}

/// Converts NV24, a luma plane and one chroma plane of 4:4:4 with U
/// first in each pair, to an interleaved RGBA image. Alpha is set to 255.
pub fn yuv_nv24_to_rgba(
    y_plane: &[u8],
    y_stride: u32,
    uv_plane: &[u8],
    uv_stride: u32,
    rgba: &mut [u8],
    rgba_stride: u32,
    width: u32,
    height: u32,
    range: YuvRange,
    matrix: YuvStandardMatrix,
) -> (result: Result<(), YuvError>)
    ensures
        yuv_nv_to_rgbx_post(
            y_plane@,
            y_stride as int,
            uv_plane@,
            uv_stride as int,
            old(rgba)@,
            final(rgba)@,
            rgba_stride as int,
            width as int,
            height as int,
            range,
            matrix,
            YuvNVOrder::UV,
            YuvSourceChannels::Rgba,
            YuvChromaSample::YUV444,
            result,
        ),
{
    yuv_nv12_to_rgbx(
        y_plane,
        y_stride,
        uv_plane,
        uv_stride,
        rgba,
        rgba_stride,
        width,
        height,
        range,
        matrix,
        YuvNVOrder::UV,
        YuvSourceChannels::Rgba,
        YuvChromaSample::YUV444,
    )
}

/// Converts NV24, a luma plane and one chroma plane of 4:4:4 with U
/// first in each pair, to an interleaved BGRA image. Alpha is set to 255.
pub fn yuv_nv24_to_bgra(
    y_plane: &[u8],
    y_stride: u32,
    uv_plane: &[u8],
    uv_stride: u32,
    bgra: &mut [u8],
    bgra_stride: u32,
    width: u32,
    height: u32,
    range: YuvRange,
    matrix: YuvStandardMatrix,
) -> (result: Result<(), YuvError>)
    ensures
        yuv_nv_to_rgbx_post(
            y_plane@,
            y_stride as int,
            uv_plane@,
            uv_stride as int,
            old(bgra)@,
            final(bgra)@,
            bgra_stride as int,
            width as int,
            height as int,
            range,
            matrix,
            YuvNVOrder::UV,
            YuvSourceChannels::Bgra,
            YuvChromaSample::YUV444,
            result,
        ),
{
    yuv_nv12_to_rgbx(
        y_plane,
        y_stride,
        uv_plane,
        uv_stride,
        bgra,
        bgra_stride,
        width,
        height,
        range,
        matrix,
        YuvNVOrder::UV,
        YuvSourceChannels::Bgra,
        YuvChromaSample::YUV444,
    )
}

/// Converts NV42, a luma plane and one chroma plane of 4:4:4 with V
/// first in each pair, to an interleaved RGB image.
pub fn yuv_nv42_to_rgb(
    y_plane: &[u8],
    y_stride: u32,
    vu_plane: &[u8],
    vu_stride: u32,
    rgb: &mut [u8],
    rgb_stride: u32,
    width: u32,
    height: u32,
    range: YuvRange,
    matrix: YuvStandardMatrix,
) -> (result: Result<(), YuvError>)
    ensures
        yuv_nv_to_rgbx_post(
            y_plane@,
            y_stride as int,
            vu_plane@,
            vu_stride as int,
            old(rgb)@,
            final(rgb)@,
            rgb_stride as int,
            width as int,
            height as int,
            range,
            matrix,
            YuvNVOrder::VU,
            YuvSourceChannels::Rgb,
            YuvChromaSample::YUV444,
            result,
        ),
{
    yuv_nv12_to_rgbx(
        y_plane,
        y_stride,
        vu_plane,
        vu_stride,
        rgb,
        rgb_stride,
        width,
        height,
        range,
        matrix,
        YuvNVOrder::VU,
        YuvSourceChannels::Rgb,
        YuvChromaSample::YUV444,
    )
}

/// Converts NV42, a luma plane and one chroma plane of 4:4:4 with V
/// first in each pair, to an interleaved BGR image.
pub fn yuv_nv42_to_bgr(
    y_plane: &[u8],
    y_stride: u32,
    vu_plane: &[u8],
    vu_stride: u32,
    bgr: &mut [u8],
    bgr_stride: u32,
    width: u32,
    height: u32,
    range: YuvRange,
    matrix: YuvStandardMatrix,
) -> (result: Result<(), YuvError>)
    ensures
        yuv_nv_to_rgbx_post(
            y_plane@,
            y_stride as int,
            vu_plane@,
            vu_stride as int,
            old(bgr)@,
            final(bgr)@,
            bgr_stride as int,
            width as int,
            height as int,
            range,
            matrix,
            YuvNVOrder::VU,
            YuvSourceChannels::Bgr,
            YuvChromaSample::YUV444,
            result,
        ),
{
    yuv_nv12_to_rgbx(
        y_plane,
        y_stride,
        vu_plane,
        vu_stride,
        bgr,
        bgr_stride,
        width,
        height,
        range,
        matrix,
        YuvNVOrder::VU,
        YuvSourceChannels::Bgr,
        YuvChromaSample::YUV444,
    )
}

/// Converts NV42, a luma plane and one chroma plane of 4:4:4 with V
/// first in each pair, to an interleaved BGRA image. Alpha is set to 255.
pub fn yuv_nv42_to_bgra(
    y_plane: &[u8],
    y_stride: u32,
    vu_plane: &[u8],
    vu_stride: u32,
    bgra: &mut [u8],
    bgra_stride: u32,
    width: u32,
    height: u32,
    range: YuvRange,
    matrix: YuvStandardMatrix,
) -> (result: Result<(), YuvError>)
    ensures
        yuv_nv_to_rgbx_post(
            y_plane@,
            y_stride as int,
            vu_plane@,
            vu_stride as int,
            old(bgra)@,
            final(bgra)@,
            bgra_stride as int,
            width as int,
            height as int,
            range,
            matrix,
            YuvNVOrder::VU,
            YuvSourceChannels::Bgra,
            YuvChromaSample::YUV444,
            result,
        ),
{
    yuv_nv12_to_rgbx(
        y_plane,
        y_stride,
        vu_plane,
        vu_stride,
        bgra,
        bgra_stride,
        width,
        height,
        range,
        matrix,
        YuvNVOrder::VU,
        YuvSourceChannels::Bgra,
        YuvChromaSample::YUV444,
    )
}

} // verus!

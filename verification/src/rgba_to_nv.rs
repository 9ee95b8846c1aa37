//! Interleaved RGB to bi-planar YUV: a luma plane and one plane of interleaved
//! chroma.

use crate::pixel::average;
use crate::pixel::channel_at;
use crate::pixel::channel_average;
use crate::pixel::FORWARD_PRECISION;
use crate::pixel::pixel_start;
use crate::pixel::read_pixel;
use crate::pixel::Rgb8;
use crate::pixel::rgb_to_chroma;
use crate::pixel::rgb_to_luma;
use crate::pixel::spec_cb;
use crate::pixel::spec_cr;
use crate::pixel::spec_luma;
use crate::planes::cell;
use crate::planes::check_plane;
use crate::planes::lemma_cell_order;
use crate::planes::lemma_len_fits;
use crate::planes::lemma_plane_row_written;
use crate::planes::lemma_row_extended;
use crate::planes::lemma_rows_fit;
use crate::planes::plane_fits;
use crate::planes::plane_written;
use crate::planes::row_written;
use crate::yuv_error::YuvError;
use crate::yuv_support::CbCrForwardTransform;
use crate::yuv_support::get_forward_transform;
use crate::yuv_support::get_yuv_range;
use crate::yuv_support::lemma_yuv_range_bounds;
use crate::yuv_support::spec_forward_transform;
use crate::yuv_support::ToIntegerTransform;
use crate::yuv_support::spec_yuv_range;
use crate::yuv_support::YuvChromaRange;
use crate::yuv_support::YuvChromaSample;
use crate::yuv_support::YuvNVOrder;
use crate::yuv_support::YuvRange;
use crate::yuv_support::YuvSourceChannels;
use crate::yuv_support::YuvStandardMatrix;
use vstd::arithmetic::power2::lemma2_to64;
use vstd::prelude::*;

verus! {

/// The fixed-point coefficients that take 8-bit R, G, B to 8-bit Y, Cb, Cr
/// under `matrix` and `range`.
pub open spec fn forward_coefficients(
    range: YuvRange,
    matrix: YuvStandardMatrix,
) -> CbCrForwardTransform<i32> {
    let chroma_range = spec_yuv_range(8, range);
    spec_forward_transform(
        255,
        chroma_range.range_y as int,
        chroma_range.range_uv as int,
        matrix.spec_kr_kb().kr,
        matrix.spec_kr_kb().kb,
    ).quantized(FORWARD_PRECISION as nat)
}

/// Derives [`forward_coefficients`], or refuses the matrix.
pub fn get_forward_coefficients(range: YuvRange, matrix: YuvStandardMatrix) -> (transform: Result<
    CbCrForwardTransform<i32>,
    YuvError,
>)
    ensures
        transform is Ok <==> matrix.is_valid(),
        transform is Ok ==> transform->Ok_0 == forward_coefficients(range, matrix),
        transform is Err ==> transform->Err_0 == YuvError::InvalidMatrix,
{
    proof {
        lemma_yuv_range_bounds(8, range);
    }
    let chroma_range: YuvChromaRange = get_yuv_range(8, range);
    let kr_kb = matrix.get_kr_kb();
    match get_forward_transform(255, chroma_range.range_y, chroma_range.range_uv, kr_kb.kr, kr_kb.kb) {
        Ok(precise) => Ok(precise.to_integers(FORWARD_PRECISION)),
        Err(error) => Err(error),
    }
}

/// Luma of pixel `x` of the interleaved row that starts at `offset`.
pub open spec fn luma_at(
    rgba: Seq<u8>,
    offset: int,
    channels: YuvSourceChannels,
    transform: CbCrForwardTransform<i32>,
    range: YuvChromaRange,
    x: int,
) -> u8 {
    spec_luma(
        transform,
        range,
        channel_at(rgba, offset, channels, x, channels.spec_r_offset()) as int,
        channel_at(rgba, offset, channels, x, channels.spec_g_offset()) as int,
        channel_at(rgba, offset, channels, x, channels.spec_b_offset()) as int,
    ) as u8
}

/// One channel of what chroma sample `cx` of a row is computed from. Where
/// chroma is halved this is the mean of the two columns of the pair; the last
/// column of an odd width is paired with itself. In 4:4:4 it is the pixel's
/// own sample.
pub open spec fn chroma_source(
    rgba: Seq<u8>,
    offset: int,
    channels: YuvSourceChannels,
    width: int,
    sampling: YuvChromaSample,
    cx: int,
    channel: int,
) -> int {
    if sampling.is_halved() {
        let second = if 2 * cx + 1 < width {
            2 * cx + 1
        } else {
            2 * cx
        };
        channel_average(
            channel_at(rgba, offset, channels, 2 * cx, channel) as int,
            channel_at(rgba, offset, channels, second, channel) as int,
        )
    } else {
        channel_at(rgba, offset, channels, cx, channel) as int
    }
}

/// Blue-difference chroma sample `cx` of a row.
pub open spec fn cb_at(
    rgba: Seq<u8>,
    offset: int,
    channels: YuvSourceChannels,
    width: int,
    sampling: YuvChromaSample,
    transform: CbCrForwardTransform<i32>,
    range: YuvChromaRange,
    cx: int,
) -> u8 {
    spec_cb(
        transform,
        range,
        chroma_source(rgba, offset, channels, width, sampling, cx, channels.spec_r_offset()),
        chroma_source(rgba, offset, channels, width, sampling, cx, channels.spec_g_offset()),
        chroma_source(rgba, offset, channels, width, sampling, cx, channels.spec_b_offset()),
    ) as u8
}

/// Red-difference chroma sample `cx` of a row.
pub open spec fn cr_at(
    rgba: Seq<u8>,
    offset: int,
    channels: YuvSourceChannels,
    width: int,
    sampling: YuvChromaSample,
    transform: CbCrForwardTransform<i32>,
    range: YuvChromaRange,
    cx: int,
) -> u8 {
    spec_cr(
        transform,
        range,
        chroma_source(rgba, offset, channels, width, sampling, cx, channels.spec_r_offset()),
        chroma_source(rgba, offset, channels, width, sampling, cx, channels.spec_g_offset()),
        chroma_source(rgba, offset, channels, width, sampling, cx, channels.spec_b_offset()),
    ) as u8
}

/// Byte `j` of an interleaved chroma row: chroma sample `j / 2`, U and V in
/// the order asked for.
pub open spec fn nv_chroma_byte(
    rgba: Seq<u8>,
    offset: int,
    channels: YuvSourceChannels,
    width: int,
    order: YuvNVOrder,
    sampling: YuvChromaSample,
    transform: CbCrForwardTransform<i32>,
    range: YuvChromaRange,
    j: int,
) -> u8 {
    if j % 2 == order.spec_u_position() {
        cb_at(rgba, offset, channels, width, sampling, transform, range, j / 2)
    } else {
        cr_at(rgba, offset, channels, width, sampling, transform, range, j / 2)
    }
}

/// A luma row as a function of the column.
pub open spec fn luma_row(
    rgba: Seq<u8>,
    offset: int,
    channels: YuvSourceChannels,
    transform: CbCrForwardTransform<i32>,
    range: YuvChromaRange,
) -> spec_fn(int) -> u8 {
    |x: int| luma_at(rgba, offset, channels, transform, range, x)
}

/// An interleaved chroma row as a function of the byte's place in it.
pub open spec fn nv_chroma_row(
    rgba: Seq<u8>,
    offset: int,
    channels: YuvSourceChannels,
    width: int,
    order: YuvNVOrder,
    sampling: YuvChromaSample,
    transform: CbCrForwardTransform<i32>,
    range: YuvChromaRange,
) -> spec_fn(int) -> u8 {
    |j: int| nv_chroma_byte(rgba, offset, channels, width, order, sampling, transform, range, j)
}

/// The luma plane as a function of row and column.
pub open spec fn luma_image(
    rgba: Seq<u8>,
    stride: int,
    channels: YuvSourceChannels,
    transform: CbCrForwardTransform<i32>,
    range: YuvChromaRange,
) -> spec_fn(int, int) -> u8 {
    |row: int, x: int| luma_at(rgba, cell(stride, row, 0), channels, transform, range, x)
}

/// The source row that chroma row `chroma_row` is computed from: in 4:2:0 the
/// even row of the two that share it.
pub open spec fn chroma_origin_row(sampling: YuvChromaSample, chroma_row: int) -> int {
    if sampling == YuvChromaSample::YUV420 {
        2 * chroma_row
    } else {
        chroma_row
    }
}

/// The interleaved chroma plane as a function of row and byte.
pub open spec fn nv_chroma_image(
    rgba: Seq<u8>,
    stride: int,
    channels: YuvSourceChannels,
    width: int,
    order: YuvNVOrder,
    sampling: YuvChromaSample,
    transform: CbCrForwardTransform<i32>,
    range: YuvChromaRange,
) -> spec_fn(int, int) -> u8 {
    |chroma_row: int, j: int|
        nv_chroma_byte(
            rgba,
            cell(stride, chroma_origin_row(sampling, chroma_row), 0),
            channels,
            width,
            order,
            sampling,
            transform,
            range,
            j,
        )
}

/// The luma plane, the interleaved chroma plane and the interleaved RGB
/// buffer hold an image of `width` by `height` pixels.
pub open spec fn nv_planes_fit(
    y_len: int,
    y_stride: int,
    uv_len: int,
    uv_stride: int,
    rgba_len: int,
    rgba_stride: int,
    width: int,
    height: int,
    channels: YuvSourceChannels,
    sampling: YuvChromaSample,
) -> bool {
    &&& plane_fits(y_len, y_stride, width, height)
    &&& plane_fits(
        uv_len,
        uv_stride,
        2 * sampling.chroma_width(width),
        sampling.chroma_height(height),
    )
    &&& plane_fits(rgba_len, rgba_stride, pixel_start(channels, width), height)
}

/// Decides [`nv_planes_fit`].
pub fn check_nv_planes(
    y_len: usize,
    y_stride: u32,
    uv_len: usize,
    uv_stride: u32,
    rgba_len: usize,
    rgba_stride: u32,
    width: u32,
    height: u32,
    channels: YuvSourceChannels,
    sampling: YuvChromaSample,
) -> (fits: bool)
    ensures
        fits == nv_planes_fit(
            y_len as int,
            y_stride as int,
            uv_len as int,
            uv_stride as int,
            rgba_len as int,
            rgba_stride as int,
            width as int,
            height as int,
            channels,
            sampling,
        ),
{
    let chroma_width: u32 = sampling.get_chroma_width(width);
    let chroma_height: u32 = sampling.get_chroma_height(height);
    let pixel_bytes: u64 = if channels.has_alpha() {
        4 * width as u64
    } else {
        3 * width as u64
    };
    check_plane(y_len, y_stride, width as u64, height) && check_plane(
        uv_len,
        uv_stride,
        2 * chroma_width as u64,
        chroma_height,
    ) && check_plane(rgba_len, rgba_stride, pixel_bytes, height)
}

/// What a conversion from interleaved RGB to a bi-planar image leaves behind.
/// A degenerate matrix is refused, then planes that do not fit; a refusal
/// writes nothing. Otherwise every luma sample and every chroma pair is
/// written, and the padding of both planes is untouched.
pub open spec fn rgbx_to_nv_post(
    y_before: Seq<u8>,
    y_after: Seq<u8>,
    y_stride: int,
    uv_before: Seq<u8>,
    uv_after: Seq<u8>,
    uv_stride: int,
    rgba: Seq<u8>,
    rgba_stride: int,
    width: int,
    height: int,
    range: YuvRange,
    matrix: YuvStandardMatrix,
    channels: YuvSourceChannels,
    order: YuvNVOrder,
    sampling: YuvChromaSample,
    result: Result<(), YuvError>,
) -> bool {
    if !matrix.is_valid() {
        &&& result == Err::<(), YuvError>(YuvError::InvalidMatrix)
        &&& y_after == y_before
        &&& uv_after == uv_before
    } else if !nv_planes_fit(
        y_before.len() as int,
        y_stride,
        uv_before.len() as int,
        uv_stride,
        rgba.len() as int,
        rgba_stride,
        width,
        height,
        channels,
        sampling,
    ) {
        &&& result == Err::<(), YuvError>(YuvError::BufferSizeMismatch)
        &&& y_after == y_before
        &&& uv_after == uv_before
    } else {
        &&& result is Ok
        &&& plane_written(
            y_before,
            y_after,
            y_stride,
            width,
            height,
            luma_image(
                rgba,
                rgba_stride,
                channels,
                forward_coefficients(range, matrix),
                spec_yuv_range(8, range),
            ),
        )
        &&& plane_written(
            uv_before,
            uv_after,
            uv_stride,
            2 * sampling.chroma_width(width),
            sampling.chroma_height(height),
            nv_chroma_image(
                rgba,
                rgba_stride,
                channels,
                width,
                order,
                sampling,
                forward_coefficients(range, matrix),
                spec_yuv_range(8, range),
            ),
        )
    }
}

/// Writes the luma of one row.
pub fn rgbx_to_luma_row(
    y_plane: &mut [u8],
    y_offset: usize,
    rgba: &[u8],
    rgba_offset: usize,
    width: u32,
    range: &YuvChromaRange,
    transform: &CbCrForwardTransform<i32>,
    channels: YuvSourceChannels,
)
    requires
        range.fits(255),
        y_offset + width <= old(y_plane)@.len(),
        rgba_offset + pixel_start(channels, width as int) <= rgba@.len(),
    ensures
        row_written(
            old(y_plane)@,
            final(y_plane)@,
            y_offset as int,
            width as int,
            luma_row(rgba@, rgba_offset as int, channels, *transform, *range),
        ),
{
    proof {
        lemma_len_fits(y_plane);
        lemma_len_fits(rgba);
    }
    let ghost luma = luma_row(rgba@, rgba_offset as int, channels, *transform, *range);
    let mut x: usize = 0;
    while x < width as usize
        invariant
            x <= width,
            range.fits(255),
            luma == luma_row(rgba@, rgba_offset as int, channels, *transform, *range),
            y_offset + width <= y_plane@.len() <= usize::MAX,
            rgba_offset + pixel_start(channels, width as int) <= rgba@.len() <= usize::MAX,
            y_plane@.len() == old(y_plane)@.len(),
            forall|i: int| y_offset <= i < y_offset + x ==> #[trigger] y_plane@[i] == luma(i - y_offset),
            forall|i: int|
                0 <= i < y_plane@.len() && !(y_offset <= i < y_offset + x) ==> #[trigger] y_plane@[i]
                    == old(y_plane)@[i],
        decreases width - x,
    {
        let pixel: Rgb8 = read_pixel(rgba, rgba_offset, channels, x);
        let ghost earlier = y_plane@;
        y_plane[y_offset + x] = rgb_to_luma(transform, range, pixel.r, pixel.g, pixel.b);
        proof {
            assert(luma(x as int) == y_plane@[y_offset + x]);
            lemma_row_extended(old(y_plane)@, earlier, y_plane@, y_offset as int, x as int, 1, luma);
        }
        x += 1;
    }
}

/// Writes one pair of chroma bytes at `offset`, U and V in the order asked
/// for.
fn store_chroma(uv_plane: &mut [u8], offset: usize, order: YuvNVOrder, cb: u8, cr: u8)
    requires
        offset + 2 <= old(uv_plane)@.len(),
    ensures
        final(uv_plane)@.len() == old(uv_plane)@.len(),
        forall|i: int|
            offset <= i < offset + 2 ==> #[trigger] final(uv_plane)@[i] == (if i - offset
                == order.spec_u_position() {
                cb
            } else {
                cr
            }),
        forall|i: int|
            0 <= i < old(uv_plane)@.len() && !(offset <= i < offset + 2)
                ==> #[trigger] final(uv_plane)@[i] == old(uv_plane)@[i],
{
    proof {
        lemma_len_fits(uv_plane);
    }
    uv_plane[offset + order.get_u_position()] = cb;
    uv_plane[offset + order.get_v_position()] = cr;
}

/// What chroma sample `cx` of a row is computed from: the pixel itself in
/// 4:4:4, the mean of the pair otherwise.
pub fn read_chroma_source(
    rgba: &[u8],
    rgba_offset: usize,
    width: u32,
    channels: YuvSourceChannels,
    sampling: YuvChromaSample,
    cx: usize,
) -> (mean: Rgb8)
    requires
        cx < sampling.chroma_width(width as int),
        rgba_offset + pixel_start(channels, width as int) <= rgba@.len(),
    ensures
        mean.r == chroma_source(
            rgba@,
            rgba_offset as int,
            channels,
            width as int,
            sampling,
            cx as int,
            channels.spec_r_offset(),
        ),
        mean.g == chroma_source(
            rgba@,
            rgba_offset as int,
            channels,
            width as int,
            sampling,
            cx as int,
            channels.spec_g_offset(),
        ),
        mean.b == chroma_source(
            rgba@,
            rgba_offset as int,
            channels,
            width as int,
            sampling,
            cx as int,
            channels.spec_b_offset(),
        ),
{
    if sampling == YuvChromaSample::YUV444 {
        read_pixel(rgba, rgba_offset, channels, cx)
    } else {
        let x: usize = 2 * cx;
        let first: Rgb8 = read_pixel(rgba, rgba_offset, channels, x);
        let next_x: usize = if x + 1 < width as usize {
            x + 1
        } else {
            x
        };
        let second: Rgb8 = read_pixel(rgba, rgba_offset, channels, next_x);
        Rgb8 {
            r: average(first.r, second.r),
            g: average(first.g, second.g),
            b: average(first.b, second.b),
        }
    }
}

/// Writes the interleaved chroma of one row.
pub fn rgbx_to_nv_chroma_row(
    uv_plane: &mut [u8],
    uv_offset: usize,
    rgba: &[u8],
    rgba_offset: usize,
    width: u32,
    range: &YuvChromaRange,
    transform: &CbCrForwardTransform<i32>,
    channels: YuvSourceChannels,
    order: YuvNVOrder,
    sampling: YuvChromaSample,
)
    requires
        range.fits(255),
        uv_offset + 2 * sampling.chroma_width(width as int) <= old(uv_plane)@.len(),
        rgba_offset + pixel_start(channels, width as int) <= rgba@.len(),
    ensures
        row_written(
            old(uv_plane)@,
            final(uv_plane)@,
            uv_offset as int,
            2 * sampling.chroma_width(width as int),
            nv_chroma_row(
                rgba@,
                rgba_offset as int,
                channels,
                width as int,
                order,
                sampling,
                *transform,
                *range,
            ),
        ),
{
    proof {
        lemma_len_fits(uv_plane);
        lemma_len_fits(rgba);
    }
    let columns: usize = sampling.get_chroma_width(width) as usize;
    let ghost chroma = nv_chroma_row(
        rgba@,
        rgba_offset as int,
        channels,
        width as int,
        order,
        sampling,
        *transform,
        *range,
    );
    let mut cx: usize = 0;
    while cx < columns
        invariant
            cx <= columns,
            columns == sampling.chroma_width(width as int),
            range.fits(255),
            chroma == nv_chroma_row(
                rgba@,
                rgba_offset as int,
                channels,
                width as int,
                order,
                sampling,
                *transform,
                *range,
            ),
            uv_offset + 2 * columns <= uv_plane@.len() <= usize::MAX,
            rgba_offset + pixel_start(channels, width as int) <= rgba@.len(),
            uv_plane@.len() == old(uv_plane)@.len(),
            forall|i: int|
                uv_offset <= i < uv_offset + 2 * cx ==> #[trigger] uv_plane@[i] == chroma(
                    i - uv_offset,
                ),
            forall|i: int|
                0 <= i < uv_plane@.len() && !(uv_offset <= i < uv_offset + 2 * cx)
                    ==> #[trigger] uv_plane@[i] == old(uv_plane)@[i],
        decreases columns - cx,
    {
        let mean: Rgb8 = read_chroma_source(rgba, rgba_offset, width, channels, sampling, cx);
        let pair: (u8, u8) = rgb_to_chroma(transform, range, mean.r, mean.g, mean.b);
        let ghost earlier = uv_plane@;
        store_chroma(uv_plane, uv_offset + 2 * cx, order, pair.0, pair.1);
        proof {
            assert forall|i: int|
                uv_offset + 2 * cx <= i < uv_offset + 2 * cx + 2 implies #[trigger] uv_plane@[i]
                == chroma(i - uv_offset) by {
                let j = i - uv_offset;
                assert(j / 2 == cx && j % 2 == i - (uv_offset + 2 * cx));
            }
            lemma_row_extended(
                old(uv_plane)@,
                earlier,
                uv_plane@,
                uv_offset as int,
                2 * cx,
                2,
                chroma,
            );
        }
        cx += 1;
    }
}

/// Converts one row. Luma is written for every column; chroma, when
/// `compute_uv_row` asks for it, for every column in 4:4:4 and for every pair
/// of columns otherwise. In 4:2:0 the caller asks for chroma on even rows
/// only.
pub fn rgbx_to_nv_row(
    y_plane: &mut [u8],
    y_offset: usize,
    uv_plane: &mut [u8],
    uv_offset: usize,
    rgba: &[u8],
    rgba_offset: usize,
    width: u32,
    range: &YuvChromaRange,
    transform: &CbCrForwardTransform<i32>,
    channels: YuvSourceChannels,
    order: YuvNVOrder,
    sampling: YuvChromaSample,
    compute_uv_row: bool,
)
    requires
        range.fits(255),
        y_offset + width <= old(y_plane)@.len(),
        compute_uv_row ==> uv_offset + 2 * sampling.chroma_width(width as int) <= old(
            uv_plane,
        )@.len(),
        rgba_offset + pixel_start(channels, width as int) <= rgba@.len(),
    ensures
        row_written(
            old(y_plane)@,
            final(y_plane)@,
            y_offset as int,
            width as int,
            luma_row(rgba@, rgba_offset as int, channels, *transform, *range),
        ),
        compute_uv_row ==> row_written(
            old(uv_plane)@,
            final(uv_plane)@,
            uv_offset as int,
            2 * sampling.chroma_width(width as int),
            nv_chroma_row(
                rgba@,
                rgba_offset as int,
                channels,
                width as int,
                order,
                sampling,
                *transform,
                *range,
            ),
        ),
        !compute_uv_row ==> final(uv_plane)@ == old(uv_plane)@,
{
    rgbx_to_luma_row(y_plane, y_offset, rgba, rgba_offset, width, range, transform, channels);
    if compute_uv_row {
        rgbx_to_nv_chroma_row(
            uv_plane,
            uv_offset,
            rgba,
            rgba_offset,
            width,
            range,
            transform,
            channels,
            order,
            sampling,
        );
    }
}

/// Converts an interleaved RGB image to a bi-planar YUV image, row by row.
pub fn rgbx_to_nv(
    y_plane: &mut [u8],
    y_stride: u32,
    uv_plane: &mut [u8],
    uv_stride: u32,
    rgba: &[u8],
    rgba_stride: u32,
    width: u32,
    height: u32,
    range: YuvRange,
    matrix: YuvStandardMatrix,
    channels: YuvSourceChannels,
    order: YuvNVOrder,
    sampling: YuvChromaSample,
) -> (result: Result<(), YuvError>)
    ensures
        rgbx_to_nv_post(
            old(y_plane)@,
            final(y_plane)@,
            y_stride as int,
            old(uv_plane)@,
            final(uv_plane)@,
            uv_stride as int,
            rgba@,
            rgba_stride as int,
            width as int,
            height as int,
            range,
            matrix,
            channels,
            order,
            sampling,
            result,
        ),
{
    let transform: CbCrForwardTransform<i32> = match get_forward_coefficients(range, matrix) {
        Ok(transform) => transform,
        Err(error) => { return Err(error); },
    };
    if !check_nv_planes(
        y_plane.len(),
        y_stride,
        uv_plane.len(),
        uv_stride,
        rgba.len(),
        rgba_stride,
        width,
        height,
        channels,
        sampling,
    ) {
        return Err(YuvError::BufferSizeMismatch);
    }
    if width == 0 {
        return Ok(());
    }
    proof {
        lemma_len_fits(y_plane);
        lemma_len_fits(uv_plane);
        lemma_len_fits(rgba);
        lemma_yuv_range_bounds(8, range);
        lemma2_to64();
    }
    let chroma_range: YuvChromaRange = get_yuv_range(8, range);
    let ghost luma = luma_image(rgba@, rgba_stride as int, channels, transform, chroma_range);
    let ghost chroma = nv_chroma_image(
        rgba@,
        rgba_stride as int,
        channels,
        width as int,
        order,
        sampling,
        transform,
        chroma_range,
    );
    let ghost chroma_len = 2 * sampling.chroma_width(width as int);
    let ghost chroma_height = sampling.chroma_height(height as int);
    let mut y: usize = 0;
    while y < height as usize
        invariant
            y <= height,
            width > 0,
            chroma_range.fits(255),
            y_plane@.len() == old(y_plane)@.len() <= usize::MAX,
            uv_plane@.len() == old(uv_plane)@.len() <= usize::MAX,
            rgba@.len() <= usize::MAX,
            chroma_len == 2 * sampling.chroma_width(width as int),
            chroma_height == sampling.chroma_height(height as int),
            nv_planes_fit(
                y_plane@.len() as int,
                y_stride as int,
                uv_plane@.len() as int,
                uv_stride as int,
                rgba@.len() as int,
                rgba_stride as int,
                width as int,
                height as int,
                channels,
                sampling,
            ),
            luma == luma_image(rgba@, rgba_stride as int, channels, transform, chroma_range),
            chroma == nv_chroma_image(
                rgba@,
                rgba_stride as int,
                channels,
                width as int,
                order,
                sampling,
                transform,
                chroma_range,
            ),
            plane_written(old(y_plane)@, y_plane@, y_stride as int, width as int, y as int, luma),
            plane_written(
                old(uv_plane)@,
                uv_plane@,
                uv_stride as int,
                chroma_len,
                sampling.chroma_height(y as int),
                chroma,
            ),
        decreases height - y,
    {
        let compute_uv_row: bool = sampling != YuvChromaSample::YUV420 || y % 2 == 0;
        let chroma_y: usize = if sampling == YuvChromaSample::YUV420 {
            y / 2
        } else {
            y
        };
        let ghost chroma_done = sampling.chroma_height(y as int);
        proof {
            lemma_cell_order(y_stride as int, y as int, 0, height as int);
            lemma_cell_order(rgba_stride as int, y as int, 0, height as int);
            lemma_cell_order(uv_stride as int, chroma_y as int, 0, chroma_height);
            lemma_rows_fit(y_stride as int, y as int, height as int);
            lemma_rows_fit(uv_stride as int, chroma_done, chroma_height);
        }
        let y_offset: usize = y * (y_stride as usize);
        let uv_offset: usize = chroma_y * (uv_stride as usize);
        let rgba_offset: usize = y * (rgba_stride as usize);
        let ghost y_middle = y_plane@;
        let ghost uv_middle = uv_plane@;
        rgbx_to_nv_row(
            y_plane,
            y_offset,
            uv_plane,
            uv_offset,
            rgba,
            rgba_offset,
            width,
            &chroma_range,
            &transform,
            channels,
            order,
            sampling,
            compute_uv_row,
        );
        proof {
            assert(row_written(
                y_middle,
                y_plane@,
                cell(y_stride as int, y as int, 0),
                width as int,
                |j: int| luma(y as int, j),
            ));
            lemma_plane_row_written(
                old(y_plane)@,
                y_middle,
                y_plane@,
                y_stride as int,
                width as int,
                y as int,
                y as int,
                luma,
                luma,
            );
            if compute_uv_row {
                assert(chroma_origin_row(sampling, chroma_y as int) == y);
                assert(chroma_done == chroma_y);
                assert(row_written(
                    uv_middle,
                    uv_plane@,
                    cell(uv_stride as int, chroma_y as int, 0),
                    chroma_len,
                    |j: int| chroma(chroma_y as int, j),
                ));
                lemma_plane_row_written(
                    old(uv_plane)@,
                    uv_middle,
                    uv_plane@,
                    uv_stride as int,
                    chroma_len,
                    chroma_done,
                    chroma_y as int,
                    chroma,
                    chroma,
                );
            }
        }
        y += 1;
    }
    Ok(())
}

/// Converts an interleaved RGB image to NV16: a luma plane and one
/// chroma plane of 4:2:2 with U first in each pair.
pub fn rgb_to_yuv_nv16(
    y_plane: &mut [u8],
    y_stride: u32,
    uv_plane: &mut [u8],
    uv_stride: u32,
    rgb: &[u8],
    rgb_stride: u32,
    width: u32,
    height: u32,
    range: YuvRange,
    matrix: YuvStandardMatrix,
) -> (result: Result<(), YuvError>)
    ensures
        rgbx_to_nv_post(
            old(y_plane)@,
            final(y_plane)@,
            y_stride as int,
            old(uv_plane)@,
            final(uv_plane)@,
            uv_stride as int,
            rgb@,
            rgb_stride as int,
            width as int,
            height as int,
            range,
            matrix,
            YuvSourceChannels::Rgb,
            YuvNVOrder::UV,
            YuvChromaSample::YUV422,
            result,
        ),
{
    rgbx_to_nv(
        y_plane,
        y_stride,
        uv_plane,
        uv_stride,
        rgb,
        rgb_stride,
        width,
        height,
        range,
        matrix,
        YuvSourceChannels::Rgb,
        YuvNVOrder::UV,
        YuvChromaSample::YUV422,
    )
}

/// Converts an interleaved RGB image to NV61: a luma plane and one
/// chroma plane of 4:2:2 with V first in each pair.
pub fn rgb_to_yuv_nv61(
    y_plane: &mut [u8],
    y_stride: u32,
    uv_plane: &mut [u8],
    uv_stride: u32,
    rgb: &[u8],
    rgb_stride: u32,
    width: u32,
    height: u32,
    range: YuvRange,
    matrix: YuvStandardMatrix,
) -> (result: Result<(), YuvError>)
    ensures
        rgbx_to_nv_post(
            old(y_plane)@,
            final(y_plane)@,
            y_stride as int,
            old(uv_plane)@,
            final(uv_plane)@,
            uv_stride as int,
            rgb@,
            rgb_stride as int,
            width as int,
            height as int,
            range,
            matrix,
            YuvSourceChannels::Rgb,
            YuvNVOrder::VU,
            YuvChromaSample::YUV422,
            result,
        ),
{
    rgbx_to_nv(
        y_plane,
        y_stride,
        uv_plane,
        uv_stride,
        rgb,
        rgb_stride,
        width,
        height,
        range,
        matrix,
        YuvSourceChannels::Rgb,
        YuvNVOrder::VU,
        YuvChromaSample::YUV422,
    )
}

/// Converts an interleaved BGR image to NV16: a luma plane and one
/// chroma plane of 4:2:2 with U first in each pair.
pub fn bgr_to_yuv_nv16(
    y_plane: &mut [u8],
    y_stride: u32,
    uv_plane: &mut [u8],
    uv_stride: u32,
    bgr: &[u8],
    bgr_stride: u32,
    width: u32,
    height: u32,
    range: YuvRange,
    matrix: YuvStandardMatrix,
) -> (result: Result<(), YuvError>)
    ensures
        rgbx_to_nv_post(
            old(y_plane)@,
            final(y_plane)@,
            y_stride as int,
            old(uv_plane)@,
            final(uv_plane)@,
            uv_stride as int,
            bgr@,
            bgr_stride as int,
            width as int,
            height as int,
            range,
            matrix,
            YuvSourceChannels::Bgr,
            YuvNVOrder::UV,
            YuvChromaSample::YUV422,
            result,
        ),
{
    rgbx_to_nv(
        y_plane,
        y_stride,
        uv_plane,
        uv_stride,
        bgr,
        bgr_stride,
        width,
        height,
        range,
        matrix,
        YuvSourceChannels::Bgr,
        YuvNVOrder::UV,
        YuvChromaSample::YUV422,
    )
}

/// Converts an interleaved BGR image to NV61: a luma plane and one
/// chroma plane of 4:2:2 with V first in each pair.
pub fn bgr_to_yuv_nv61(
    y_plane: &mut [u8],
    y_stride: u32,
    uv_plane: &mut [u8],
    uv_stride: u32,
    bgr: &[u8],
    bgr_stride: u32,
    width: u32,
    height: u32,
    range: YuvRange,
    matrix: YuvStandardMatrix,
) -> (result: Result<(), YuvError>)
    ensures
        rgbx_to_nv_post(
            old(y_plane)@,
            final(y_plane)@,
            y_stride as int,
            old(uv_plane)@,
            final(uv_plane)@,
            uv_stride as int,
            bgr@,
            bgr_stride as int,
            width as int,
            height as int,
            range,
            matrix,
            YuvSourceChannels::Bgr,
            YuvNVOrder::VU,
            YuvChromaSample::YUV422,
            result,
        ),
{
    rgbx_to_nv(
        y_plane,
        y_stride,
        uv_plane,
        uv_stride,
        bgr,
        bgr_stride,
        width,
        height,
        range,
        matrix,
        YuvSourceChannels::Bgr,
        YuvNVOrder::VU,
        YuvChromaSample::YUV422,
    )
}

/// Converts an interleaved RGBA image to NV16: a luma plane and one
/// chroma plane of 4:2:2 with U first in each pair. Alpha is read past and plays no part.
pub fn rgba_to_yuv_nv16(
    y_plane: &mut [u8],
    y_stride: u32,
    uv_plane: &mut [u8],
    uv_stride: u32,
    rgba: &[u8],
    rgba_stride: u32,
    width: u32,
    height: u32,
    range: YuvRange,
    matrix: YuvStandardMatrix,
) -> (result: Result<(), YuvError>)
    ensures
        rgbx_to_nv_post(
            old(y_plane)@,
            final(y_plane)@,
            y_stride as int,
            old(uv_plane)@,
            final(uv_plane)@,
            uv_stride as int,
            rgba@,
            rgba_stride as int,
            width as int,
            height as int,
            range,
            matrix,
            YuvSourceChannels::Rgba,
            YuvNVOrder::UV,
            YuvChromaSample::YUV422,
            result,
        ),
{
    rgbx_to_nv(
        y_plane,
        y_stride,
        uv_plane,
        uv_stride,
        rgba,
        rgba_stride,
        width,
        height,
        range,
        matrix,
        YuvSourceChannels::Rgba,
        YuvNVOrder::UV,
        YuvChromaSample::YUV422,
    )
}

/// Converts an interleaved RGBA image to NV61: a luma plane and one
/// chroma plane of 4:2:2 with V first in each pair. Alpha is read past and plays no part.
pub fn rgba_to_yuv_nv61(
    y_plane: &mut [u8],
    y_stride: u32,
    uv_plane: &mut [u8],
    uv_stride: u32,
    rgba: &[u8],
    rgba_stride: u32,
    width: u32,
    height: u32,
    range: YuvRange,
    matrix: YuvStandardMatrix,
) -> (result: Result<(), YuvError>)
    ensures
        rgbx_to_nv_post(
            old(y_plane)@,
            final(y_plane)@,
            y_stride as int,
            old(uv_plane)@,
            final(uv_plane)@,
            uv_stride as int,
            rgba@,
            rgba_stride as int,
            width as int,
            height as int,
            range,
            matrix,
            YuvSourceChannels::Rgba,
            YuvNVOrder::VU,
            YuvChromaSample::YUV422,
            result,
        ),
{
    rgbx_to_nv(
        y_plane,
        y_stride,
        uv_plane,
        uv_stride,
        rgba,
        rgba_stride,
        width,
        height,
        range,
        matrix,
        YuvSourceChannels::Rgba,
        YuvNVOrder::VU,
        YuvChromaSample::YUV422,
    )
}

/// Converts an interleaved BGRA image to NV16: a luma plane and one
/// chroma plane of 4:2:2 with U first in each pair. Alpha is read past and plays no part.
pub fn bgra_to_yuv_nv16(
    y_plane: &mut [u8],
    y_stride: u32,
    uv_plane: &mut [u8],
    uv_stride: u32,
    bgra: &[u8],
    bgra_stride: u32,
    width: u32,
    height: u32,
    range: YuvRange,
    matrix: YuvStandardMatrix,
) -> (result: Result<(), YuvError>)
    ensures
        rgbx_to_nv_post(
            old(y_plane)@,
            final(y_plane)@,
            y_stride as int,
            old(uv_plane)@,
            final(uv_plane)@,
            uv_stride as int,
            bgra@,
            bgra_stride as int,
            width as int,
            height as int,
            range,
            matrix,
            YuvSourceChannels::Bgra,
            YuvNVOrder::UV,
            YuvChromaSample::YUV422,
            result,
        ),
{
    rgbx_to_nv(
        y_plane,
        y_stride,
        uv_plane,
        uv_stride,
        bgra,
        bgra_stride,
        width,
        height,
        range,
        matrix,
        YuvSourceChannels::Bgra,
        YuvNVOrder::UV,
        YuvChromaSample::YUV422,
    )
}

/// Converts an interleaved BGRA image to NV61: a luma plane and one
/// chroma plane of 4:2:2 with V first in each pair. Alpha is read past and plays no part.
pub fn bgra_to_yuv_nv61(
    y_plane: &mut [u8],
    y_stride: u32,
    uv_plane: &mut [u8],
    uv_stride: u32,
    bgra: &[u8],
    bgra_stride: u32,
    width: u32,
    height: u32,
    range: YuvRange,
    matrix: YuvStandardMatrix,
) -> (result: Result<(), YuvError>)
    ensures
        rgbx_to_nv_post(
            old(y_plane)@,
            final(y_plane)@,
            y_stride as int,
            old(uv_plane)@,
            final(uv_plane)@,
            uv_stride as int,
            bgra@,
            bgra_stride as int,
            width as int,
            height as int,
            range,
            matrix,
            YuvSourceChannels::Bgra,
            YuvNVOrder::VU,
            YuvChromaSample::YUV422,
            result,
        ),
{
    rgbx_to_nv(
        y_plane,
        y_stride,
        uv_plane,
        uv_stride,
        bgra,
        bgra_stride,
        width,
        height,
        range,
        matrix,
        YuvSourceChannels::Bgra,
        YuvNVOrder::VU,
        YuvChromaSample::YUV422,
    )
}

/// Converts an interleaved RGB image to NV12: a luma plane and one
/// chroma plane of 4:2:0 with U first in each pair.
pub fn rgb_to_yuv_nv12(
    y_plane: &mut [u8],
    y_stride: u32,
    uv_plane: &mut [u8],
    uv_stride: u32,
    rgb: &[u8],
    rgb_stride: u32,
    width: u32,
    height: u32,
    range: YuvRange,
    matrix: YuvStandardMatrix,
) -> (result: Result<(), YuvError>)
    ensures
        rgbx_to_nv_post(
            old(y_plane)@,
            final(y_plane)@,
            y_stride as int,
            old(uv_plane)@,
            final(uv_plane)@,
            uv_stride as int,
            rgb@,
            rgb_stride as int,
            width as int,
            height as int,
            range,
            matrix,
            YuvSourceChannels::Rgb,
            YuvNVOrder::UV,
            YuvChromaSample::YUV420,
            result,
        ),
{
    rgbx_to_nv(
        y_plane,
        y_stride,
        uv_plane,
        uv_stride,
        rgb,
        rgb_stride,
        width,
        height,
        range,
        matrix,
        YuvSourceChannels::Rgb,
        YuvNVOrder::UV,
        YuvChromaSample::YUV420,
    )
}

/// Converts an interleaved RGB image to NV21: a luma plane and one
/// chroma plane of 4:2:0 with V first in each pair.
pub fn rgb_to_yuv_nv21(
    y_plane: &mut [u8],
    y_stride: u32,
    uv_plane: &mut [u8],
    uv_stride: u32,
    rgb: &[u8],
    rgb_stride: u32,
    width: u32,
    height: u32,
    range: YuvRange,
    matrix: YuvStandardMatrix,
) -> (result: Result<(), YuvError>)
    ensures
        rgbx_to_nv_post(
            old(y_plane)@,
            final(y_plane)@,
            y_stride as int,
            old(uv_plane)@,
            final(uv_plane)@,
            uv_stride as int,
            rgb@,
            rgb_stride as int,
            width as int,
            height as int,
            range,
            matrix,
            YuvSourceChannels::Rgb,
            YuvNVOrder::VU,
            YuvChromaSample::YUV420,
            result,
        ),
{
    rgbx_to_nv(
        y_plane,
        y_stride,
        uv_plane,
        uv_stride,
        rgb,
        rgb_stride,
        width,
        height,
        range,
        matrix,
        YuvSourceChannels::Rgb,
        YuvNVOrder::VU,
        YuvChromaSample::YUV420,
    )
}

/// Converts an interleaved BGR image to NV12: a luma plane and one
/// chroma plane of 4:2:0 with U first in each pair.
pub fn bgr_to_yuv_nv12(
    y_plane: &mut [u8],
    y_stride: u32,
    uv_plane: &mut [u8],
    uv_stride: u32,
    bgr: &[u8],
    bgr_stride: u32,
    width: u32,
    height: u32,
    range: YuvRange,
    matrix: YuvStandardMatrix,
) -> (result: Result<(), YuvError>)
    ensures
        rgbx_to_nv_post(
            old(y_plane)@,
            final(y_plane)@,
            y_stride as int,
            old(uv_plane)@,
            final(uv_plane)@,
            uv_stride as int,
            bgr@,
            bgr_stride as int,
            width as int,
            height as int,
            range,
            matrix,
            YuvSourceChannels::Bgr,
            YuvNVOrder::UV,
            YuvChromaSample::YUV420,
            result,
        ),
{
    rgbx_to_nv(
        y_plane,
        y_stride,
        uv_plane,
        uv_stride,
        bgr,
        bgr_stride,
        width,
        height,
        range,
        matrix,
        YuvSourceChannels::Bgr,
        YuvNVOrder::UV,
        YuvChromaSample::YUV420,
    )
}

/// Converts an interleaved BGR image to NV21: a luma plane and one
/// chroma plane of 4:2:0 with V first in each pair.
pub fn bgr_to_yuv_nv21(
    y_plane: &mut [u8],
    y_stride: u32,
    uv_plane: &mut [u8],
    uv_stride: u32,
    bgr: &[u8],
    bgr_stride: u32,
    width: u32,
    height: u32,
    range: YuvRange,
    matrix: YuvStandardMatrix,
) -> (result: Result<(), YuvError>)
    ensures
        rgbx_to_nv_post(
            old(y_plane)@,
            final(y_plane)@,
            y_stride as int,
            old(uv_plane)@,
            final(uv_plane)@,
            uv_stride as int,
            bgr@,
            bgr_stride as int,
            width as int,
            height as int,
            range,
            matrix,
            YuvSourceChannels::Bgr,
            YuvNVOrder::VU,
            YuvChromaSample::YUV420,
            result,
        ),
{
    rgbx_to_nv(
        y_plane,
        y_stride,
        uv_plane,
        uv_stride,
        bgr,
        bgr_stride,
        width,
        height,
        range,
        matrix,
        YuvSourceChannels::Bgr,
        YuvNVOrder::VU,
        YuvChromaSample::YUV420,
    )
}

/// Converts an interleaved RGBA image to NV12: a luma plane and one
/// chroma plane of 4:2:0 with U first in each pair. Alpha is read past and plays no part.
pub fn rgba_to_yuv_nv12(
    y_plane: &mut [u8],
    y_stride: u32,
    uv_plane: &mut [u8],
    uv_stride: u32,
    rgba: &[u8],
    rgba_stride: u32,
    width: u32,
    height: u32,
    range: YuvRange,
    matrix: YuvStandardMatrix,
) -> (result: Result<(), YuvError>)
    ensures
        rgbx_to_nv_post(
            old(y_plane)@,
            final(y_plane)@,
            y_stride as int,
            old(uv_plane)@,
            final(uv_plane)@,
            uv_stride as int,
            rgba@,
            rgba_stride as int,
            width as int,
            height as int,
            range,
            matrix,
            YuvSourceChannels::Rgba,
            YuvNVOrder::UV,
            YuvChromaSample::YUV420,
            result,
        ),
{
    rgbx_to_nv(
        y_plane,
        y_stride,
        uv_plane,
        uv_stride,
        rgba,
        rgba_stride,
        width,
        height,
        range,
        matrix,
        YuvSourceChannels::Rgba,
        YuvNVOrder::UV,
        YuvChromaSample::YUV420,
    )
}

/// Converts an interleaved RGBA image to NV21: a luma plane and one
/// chroma plane of 4:2:0 with V first in each pair. Alpha is read past and plays no part.
pub fn rgba_to_yuv_nv21(
    y_plane: &mut [u8],
    y_stride: u32,
    uv_plane: &mut [u8],
    uv_stride: u32,
    rgba: &[u8],
    rgba_stride: u32,
    width: u32,
    height: u32,
    range: YuvRange,
    matrix: YuvStandardMatrix,
) -> (result: Result<(), YuvError>)
    ensures
        rgbx_to_nv_post(
            old(y_plane)@,
            final(y_plane)@,
            y_stride as int,
            old(uv_plane)@,
            final(uv_plane)@,
            uv_stride as int,
            rgba@,
            rgba_stride as int,
            width as int,
            height as int,
            range,
            matrix,
            YuvSourceChannels::Rgba,
            YuvNVOrder::VU,
            YuvChromaSample::YUV420,
            result,
        ),
{
    rgbx_to_nv(
        y_plane,
        y_stride,
        uv_plane,
        uv_stride,
        rgba,
        rgba_stride,
        width,
        height,
        range,
        matrix,
        YuvSourceChannels::Rgba,
        YuvNVOrder::VU,
        YuvChromaSample::YUV420,
    )
}

/// Converts an interleaved BGRA image to NV12: a luma plane and one
/// chroma plane of 4:2:0 with U first in each pair. Alpha is read past and plays no part.
pub fn bgra_to_yuv_nv12(
    y_plane: &mut [u8],
    y_stride: u32,
    uv_plane: &mut [u8],
    uv_stride: u32,
    bgra: &[u8],
    bgra_stride: u32,
    width: u32,
    height: u32,
    range: YuvRange,
    matrix: YuvStandardMatrix,
) -> (result: Result<(), YuvError>)
    ensures
        rgbx_to_nv_post(
            old(y_plane)@,
            final(y_plane)@,
            y_stride as int,
            old(uv_plane)@,
            final(uv_plane)@,
            uv_stride as int,
            bgra@,
            bgra_stride as int,
            width as int,
            height as int,
            range,
            matrix,
            YuvSourceChannels::Bgra,
            YuvNVOrder::UV,
            YuvChromaSample::YUV420,
            result,
        ),
{
    rgbx_to_nv(
        y_plane,
        y_stride,
        uv_plane,
        uv_stride,
        bgra,
        bgra_stride,
        width,
        height,
        range,
        matrix,
        YuvSourceChannels::Bgra,
        YuvNVOrder::UV,
        YuvChromaSample::YUV420,
    )
}

/// Converts an interleaved BGRA image to NV21: a luma plane and one
/// chroma plane of 4:2:0 with V first in each pair. Alpha is read past and plays no part.
pub fn bgra_to_yuv_nv21(
    y_plane: &mut [u8],
    y_stride: u32,
    uv_plane: &mut [u8],
    uv_stride: u32,
    bgra: &[u8],
    bgra_stride: u32,
    width: u32,
    height: u32,
    range: YuvRange,
    matrix: YuvStandardMatrix,
) -> (result: Result<(), YuvError>)
    ensures
        rgbx_to_nv_post(
            old(y_plane)@,
            final(y_plane)@,
            y_stride as int,
            old(uv_plane)@,
            final(uv_plane)@,
            uv_stride as int,
            bgra@,
            bgra_stride as int,
            width as int,
            height as int,
            range,
            matrix,
            YuvSourceChannels::Bgra,
            YuvNVOrder::VU,
            YuvChromaSample::YUV420,
            result,
        ),
{
    rgbx_to_nv(
        y_plane,
        y_stride,
        uv_plane,
        uv_stride,
        bgra,
        bgra_stride,
        width,
        height,
        range,
        matrix,
        YuvSourceChannels::Bgra,
        YuvNVOrder::VU,
        YuvChromaSample::YUV420,
    )
}

/// Converts an interleaved RGB image to NV24: a luma plane and one
/// chroma plane of 4:4:4 with U first in each pair.
pub fn rgb_to_yuv_nv24(
    y_plane: &mut [u8],
    y_stride: u32,
    uv_plane: &mut [u8],
    uv_stride: u32,
    rgb: &[u8],
    rgb_stride: u32,
    width: u32,
    height: u32,
    range: YuvRange,
    matrix: YuvStandardMatrix,
) -> (result: Result<(), YuvError>)
    ensures
        rgbx_to_nv_post(
            old(y_plane)@,
            final(y_plane)@,
            y_stride as int,
            old(uv_plane)@,
            final(uv_plane)@,
            uv_stride as int,
            rgb@,
            rgb_stride as int,
            width as int,
            height as int,
            range,
            matrix,
            YuvSourceChannels::Rgb,
            YuvNVOrder::UV,
            YuvChromaSample::YUV444,
            result,
        ),
{
    rgbx_to_nv(
        y_plane,
        y_stride,
        uv_plane,
        uv_stride,
        rgb,
        rgb_stride,
        width,
        height,
        range,
        matrix,
        YuvSourceChannels::Rgb,
        YuvNVOrder::UV,
        YuvChromaSample::YUV444,
    )
}

/// Converts an interleaved RGB image to NV42: a luma plane and one
/// chroma plane of 4:4:4 with V first in each pair.
pub fn rgb_to_yuv_nv42(
    y_plane: &mut [u8],
    y_stride: u32,
    uv_plane: &mut [u8],
    uv_stride: u32,
    rgb: &[u8],
    rgb_stride: u32,
    width: u32,
    height: u32,
    range: YuvRange,
    matrix: YuvStandardMatrix,
) -> (result: Result<(), YuvError>)
    ensures
        rgbx_to_nv_post(
            old(y_plane)@,
            final(y_plane)@,
            y_stride as int,
            old(uv_plane)@,
            final(uv_plane)@,
            uv_stride as int,
            rgb@,
            rgb_stride as int,
            width as int,
            height as int,
            range,
            matrix,
            YuvSourceChannels::Rgb,
            YuvNVOrder::VU,
            YuvChromaSample::YUV444,
            result,
        ),
{
    rgbx_to_nv(
        y_plane,
        y_stride,
        uv_plane,
        uv_stride,
        rgb,
        rgb_stride,
        width,
        height,
        range,
        matrix,
        YuvSourceChannels::Rgb,
        YuvNVOrder::VU,
        YuvChromaSample::YUV444,
    )
}

/// Converts an interleaved BGR image to NV24: a luma plane and one
/// chroma plane of 4:4:4 with U first in each pair.
pub fn bgr_to_yuv_nv24(
    y_plane: &mut [u8],
    y_stride: u32,
    uv_plane: &mut [u8],
    uv_stride: u32,
    bgr: &[u8],
    bgr_stride: u32,
    width: u32,
    height: u32,
    range: YuvRange,
    matrix: YuvStandardMatrix,
) -> (result: Result<(), YuvError>)
    ensures
        rgbx_to_nv_post(
            old(y_plane)@,
            final(y_plane)@,
            y_stride as int,
            old(uv_plane)@,
            final(uv_plane)@,
            uv_stride as int,
            bgr@,
            bgr_stride as int,
            width as int,
            height as int,
            range,
            matrix,
            YuvSourceChannels::Bgr,
            YuvNVOrder::UV,
            YuvChromaSample::YUV444,
            result,
        ),
{
    rgbx_to_nv(
        y_plane,
        y_stride,
        uv_plane,
        uv_stride,
        bgr,
        bgr_stride,
        width,
        height,
        range,
        matrix,
        YuvSourceChannels::Bgr,
        YuvNVOrder::UV,
        YuvChromaSample::YUV444,
    )
}

/// Converts an interleaved BGR image to NV42: a luma plane and one
/// chroma plane of 4:4:4 with V first in each pair.
pub fn bgr_to_yuv_nv42(
    y_plane: &mut [u8],
    y_stride: u32,
    uv_plane: &mut [u8],
    uv_stride: u32,
    bgr: &[u8],
    bgr_stride: u32,
    width: u32,
    height: u32,
    range: YuvRange,
    matrix: YuvStandardMatrix,
) -> (result: Result<(), YuvError>)
    ensures
        rgbx_to_nv_post(
            old(y_plane)@,
            final(y_plane)@,
            y_stride as int,
            old(uv_plane)@,
            final(uv_plane)@,
            uv_stride as int,
            bgr@,
            bgr_stride as int,
            width as int,
            height as int,
            range,
            matrix,
            YuvSourceChannels::Bgr,
            YuvNVOrder::VU,
            YuvChromaSample::YUV444,
            result,
        ),
{
    rgbx_to_nv(
        y_plane,
        y_stride,
        uv_plane,
        uv_stride,
        bgr,
        bgr_stride,
        width,
        height,
        range,
        matrix,
        YuvSourceChannels::Bgr,
        YuvNVOrder::VU,
        YuvChromaSample::YUV444,
    )
}

/// Converts an interleaved RGBA image to NV24: a luma plane and one
/// chroma plane of 4:4:4 with U first in each pair. Alpha is read past and plays no part.
pub fn rgba_to_yuv_nv24(
    y_plane: &mut [u8],
    y_stride: u32,
    uv_plane: &mut [u8],
    uv_stride: u32,
    rgba: &[u8],
    rgba_stride: u32,
    width: u32,
    height: u32,
    range: YuvRange,
    matrix: YuvStandardMatrix,
) -> (result: Result<(), YuvError>)
    ensures
        rgbx_to_nv_post(
            old(y_plane)@,
            final(y_plane)@,
            y_stride as int,
            old(uv_plane)@,
            final(uv_plane)@,
            uv_stride as int,
            rgba@,
            rgba_stride as int,
            width as int,
            height as int,
            range,
            matrix,
            YuvSourceChannels::Rgba,
            YuvNVOrder::UV,
            YuvChromaSample::YUV444,
            result,
        ),
{
    rgbx_to_nv(
        y_plane,
        y_stride,
        uv_plane,
        uv_stride,
        rgba,
        rgba_stride,
        width,
        height,
        range,
        matrix,
        YuvSourceChannels::Rgba,
        YuvNVOrder::UV,
        YuvChromaSample::YUV444,
    )
}

/// Converts an interleaved RGBA image to NV42: a luma plane and one
/// chroma plane of 4:4:4 with V first in each pair. Alpha is read past and plays no part.
pub fn rgba_to_yuv_nv42(
    y_plane: &mut [u8],
    y_stride: u32,
    uv_plane: &mut [u8],
    uv_stride: u32,
    rgba: &[u8],
    rgba_stride: u32,
    width: u32,
    height: u32,
    range: YuvRange,
    matrix: YuvStandardMatrix,
) -> (result: Result<(), YuvError>)
    ensures
        rgbx_to_nv_post(
            old(y_plane)@,
            final(y_plane)@,
            y_stride as int,
            old(uv_plane)@,
            final(uv_plane)@,
            uv_stride as int,
            rgba@,
            rgba_stride as int,
            width as int,
            height as int,
            range,
            matrix,
            YuvSourceChannels::Rgba,
            YuvNVOrder::VU,
            YuvChromaSample::YUV444,
            result,
        ),
{
    rgbx_to_nv(
        y_plane,
        y_stride,
        uv_plane,
        uv_stride,
        rgba,
        rgba_stride,
        width,
        height,
        range,
        matrix,
        YuvSourceChannels::Rgba,
        YuvNVOrder::VU,
        YuvChromaSample::YUV444,
    )
}

/// Converts an interleaved BGRA image to NV24: a luma plane and one
/// chroma plane of 4:4:4 with U first in each pair. Alpha is read past and plays no part.
pub fn bgra_to_yuv_nv24(
    y_plane: &mut [u8],
    y_stride: u32,
    uv_plane: &mut [u8],
    uv_stride: u32,
    bgra: &[u8],
    bgra_stride: u32,
    width: u32,
    height: u32,
    range: YuvRange,
    matrix: YuvStandardMatrix,
) -> (result: Result<(), YuvError>)
    ensures
        rgbx_to_nv_post(
            old(y_plane)@,
            final(y_plane)@,
            y_stride as int,
            old(uv_plane)@,
            final(uv_plane)@,
            uv_stride as int,
            bgra@,
            bgra_stride as int,
            width as int,
            height as int,
            range,
            matrix,
            YuvSourceChannels::Bgra,
            YuvNVOrder::UV,
            YuvChromaSample::YUV444,
            result,
        ),
{
    rgbx_to_nv(
        y_plane,
        y_stride,
        uv_plane,
        uv_stride,
        bgra,
        bgra_stride,
        width,
        height,
        range,
        matrix,
        YuvSourceChannels::Bgra,
        YuvNVOrder::UV,
        YuvChromaSample::YUV444,
    )
}

/// Converts an interleaved BGRA image to NV42: a luma plane and one
/// chroma plane of 4:4:4 with V first in each pair. Alpha is read past and plays no part.
pub fn bgra_to_yuv_nv42(
    y_plane: &mut [u8],
    y_stride: u32,
    uv_plane: &mut [u8],
    uv_stride: u32,
    bgra: &[u8],
    bgra_stride: u32,
    width: u32,
    height: u32,
    range: YuvRange,
    matrix: YuvStandardMatrix,
) -> (result: Result<(), YuvError>)
    ensures
        rgbx_to_nv_post(
            old(y_plane)@,
            final(y_plane)@,
            y_stride as int,
            old(uv_plane)@,
            final(uv_plane)@,
            uv_stride as int,
            bgra@,
            bgra_stride as int,
            width as int,
            height as int,
            range,
            matrix,
            YuvSourceChannels::Bgra,
            YuvNVOrder::VU,
            YuvChromaSample::YUV444,
            result,
        ),
{
    rgbx_to_nv(
        y_plane,
        y_stride,
        uv_plane,
        uv_stride,
        bgra,
        bgra_stride,
        width,
        height,
        range,
        matrix,
        YuvSourceChannels::Bgra,
        YuvNVOrder::VU,
        YuvChromaSample::YUV444,
    )
}

} // verus!

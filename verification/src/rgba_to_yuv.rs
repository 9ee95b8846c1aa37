//! Interleaved RGB to planar YUV: a luma plane and two chroma planes.

use crate::images::check_rgba_destination;
use crate::images::destination_fits;
use crate::pixel::pixel_start;
use crate::pixel::Rgb8;
use crate::pixel::rgb_to_chroma;
use crate::planes::cell;
use crate::planes::check_plane;
use crate::planes::lemma_cell_order;
use crate::planes::lemma_len_fits;
use crate::planes::lemma_plane_row_written;
use crate::planes::lemma_row_extended;
use crate::planes::lemma_rows_fit;
use crate::planes::plane_fits;
use crate::planes::plane_len;
use crate::planes::plane_written;
use crate::planes::row_written;
use crate::rgba_to_nv::cb_at;
use crate::rgba_to_nv::chroma_origin_row;
use crate::rgba_to_nv::cr_at;
use crate::rgba_to_nv::forward_coefficients;
use crate::rgba_to_nv::get_forward_coefficients;
use crate::rgba_to_nv::luma_image;
use crate::rgba_to_nv::read_chroma_source;
use crate::rgba_to_nv::rgbx_to_luma_row;
use crate::yuv_error::YuvError;
use crate::yuv_support::CbCrForwardTransform;
use crate::yuv_support::get_yuv_range;
use crate::yuv_support::lemma_yuv_range_bounds;
use crate::yuv_support::spec_yuv_range;
use crate::yuv_support::YuvChromaRange;
use crate::yuv_support::YuvChromaSample;
use crate::yuv_support::YuvRange;
use crate::yuv_support::YuvSourceChannels;
use crate::yuv_support::YuvStandardMatrix;
use vstd::arithmetic::power2::lemma2_to64;
use vstd::prelude::*;

verus! {

/// The three planes of an 8-bit planar image hold `width` by `height` pixels.
pub open spec fn planar_fits(
    y_len: int,
    y_stride: int,
    u_len: int,
    u_stride: int,
    v_len: int,
    v_stride: int,
    width: int,
    height: int,
    sampling: YuvChromaSample,
) -> bool {
    &&& plane_fits(y_len, y_stride, width, height)
    &&& plane_fits(u_len, u_stride, sampling.chroma_width(width), sampling.chroma_height(height))
    &&& plane_fits(v_len, v_stride, sampling.chroma_width(width), sampling.chroma_height(height))
}

/// Decides [`planar_fits`].
pub fn check_planar(
    y_len: usize,
    y_stride: u32,
    u_len: usize,
    u_stride: u32,
    v_len: usize,
    v_stride: u32,
    width: u32,
    height: u32,
    sampling: YuvChromaSample,
) -> (fits: bool)
    ensures
        fits == planar_fits(
            y_len as int,
            y_stride as int,
            u_len as int,
            u_stride as int,
            v_len as int,
            v_stride as int,
            width as int,
            height as int,
            sampling,
        ),
{
    let chroma_width: u32 = sampling.get_chroma_width(width);
    let chroma_height: u32 = sampling.get_chroma_height(height);
    check_plane(y_len, y_stride, width as u64, height) && check_plane(
        u_len,
        u_stride,
        chroma_width as u64,
        chroma_height,
    ) && check_plane(v_len, v_stride, chroma_width as u64, chroma_height)
}

/// A row of blue-difference chroma as a function of the sample's place.
pub open spec fn cb_row(
    rgba: Seq<u8>,
    offset: int,
    channels: YuvSourceChannels,
    width: int,
    sampling: YuvChromaSample,
    transform: CbCrForwardTransform<i32>,
    range: YuvChromaRange,
) -> spec_fn(int) -> u8 {
    |cx: int| cb_at(rgba, offset, channels, width, sampling, transform, range, cx)
}

/// A row of red-difference chroma as a function of the sample's place.
pub open spec fn cr_row(
    rgba: Seq<u8>,
    offset: int,
    channels: YuvSourceChannels,
    width: int,
    sampling: YuvChromaSample,
    transform: CbCrForwardTransform<i32>,
    range: YuvChromaRange,
) -> spec_fn(int) -> u8 {
    |cx: int| cr_at(rgba, offset, channels, width, sampling, transform, range, cx)
}

/// The plane of blue-difference chroma as a function of row and sample. In
/// 4:2:0 a chroma row is computed from the even source row of its two.
pub open spec fn cb_image(
    rgba: Seq<u8>,
    stride: int,
    channels: YuvSourceChannels,
    width: int,
    sampling: YuvChromaSample,
    transform: CbCrForwardTransform<i32>,
    range: YuvChromaRange,
) -> spec_fn(int, int) -> u8 {
    |chroma_row: int, cx: int|
        cb_at(
            rgba,
            cell(stride, chroma_origin_row(sampling, chroma_row), 0),
            channels,
            width,
            sampling,
            transform,
            range,
            cx,
        )
}

/// The plane of red-difference chroma as a function of row and sample.
pub open spec fn cr_image(
    rgba: Seq<u8>,
    stride: int,
    channels: YuvSourceChannels,
    width: int,
    sampling: YuvChromaSample,
    transform: CbCrForwardTransform<i32>,
    range: YuvChromaRange,
) -> spec_fn(int, int) -> u8 {
    |chroma_row: int, cx: int|
        cr_at(
            rgba,
            cell(stride, chroma_origin_row(sampling, chroma_row), 0),
            channels,
            width,
            sampling,
            transform,
            range,
            cx,
        )
}

/// What a conversion from interleaved RGB to a planar image leaves behind. A
/// degenerate matrix is refused, then planes that do not fit; a refusal
/// writes nothing. Otherwise every luma and chroma sample is written, and the
/// padding of the planes is untouched.
pub open spec fn rgbx_to_yuv_post(
    y_before: Seq<u8>,
    y_after: Seq<u8>,
    y_stride: int,
    u_before: Seq<u8>,
    u_after: Seq<u8>,
    u_stride: int,
    v_before: Seq<u8>,
    v_after: Seq<u8>,
    v_stride: int,
    rgba: Seq<u8>,
    rgba_stride: int,
    width: int,
    height: int,
    range: YuvRange,
    matrix: YuvStandardMatrix,
    channels: YuvSourceChannels,
    sampling: YuvChromaSample,
    result: Result<(), YuvError>,
) -> bool {
    if !matrix.is_valid() {
        &&& result == Err::<(), YuvError>(YuvError::InvalidMatrix)
        &&& y_after == y_before
        &&& u_after == u_before
        &&& v_after == v_before
    } else if !(planar_fits(
        y_before.len() as int,
        y_stride,
        u_before.len() as int,
        u_stride,
        v_before.len() as int,
        v_stride,
        width,
        height,
        sampling,
    ) && destination_fits(rgba.len() as int, rgba_stride, width, height, channels)) {
        &&& result == Err::<(), YuvError>(YuvError::BufferSizeMismatch)
        &&& y_after == y_before
        &&& u_after == u_before
        &&& v_after == v_before
    } else {
        &&& result is Ok
        &&& plane_written(
            y_before,
            y_after,
            y_stride,
            width,
            height,
            luma_image(
                rgba,
                rgba_stride,
                channels,
                forward_coefficients(range, matrix),
                spec_yuv_range(8, range),
            ),
        )
        &&& plane_written(
            u_before,
            u_after,
            u_stride,
            sampling.chroma_width(width),
            sampling.chroma_height(height),
            cb_image(
                rgba,
                rgba_stride,
                channels,
                width,
                sampling,
                forward_coefficients(range, matrix),
                spec_yuv_range(8, range),
            ),
        )
        &&& plane_written(
            v_before,
            v_after,
            v_stride,
            sampling.chroma_width(width),
            sampling.chroma_height(height),
            cr_image(
                rgba,
                rgba_stride,
                channels,
                width,
                sampling,
                forward_coefficients(range, matrix),
                spec_yuv_range(8, range),
            ),
        )
    }
}

/// Writes the two chroma rows of one source row.
pub fn rgbx_to_chroma_rows(
    u_plane: &mut [u8],
    u_offset: usize,
    v_plane: &mut [u8],
    v_offset: usize,
    rgba: &[u8],
    rgba_offset: usize,
    width: u32,
    range: &YuvChromaRange,
    transform: &CbCrForwardTransform<i32>,
    channels: YuvSourceChannels,
    sampling: YuvChromaSample,
)
    requires
        range.fits(255),
        u_offset + sampling.chroma_width(width as int) <= old(u_plane)@.len(),
        v_offset + sampling.chroma_width(width as int) <= old(v_plane)@.len(),
        rgba_offset + pixel_start(channels, width as int) <= rgba@.len(),
    ensures
        row_written(
            old(u_plane)@,
            final(u_plane)@,
            u_offset as int,
            sampling.chroma_width(width as int),
            cb_row(rgba@, rgba_offset as int, channels, width as int, sampling, *transform, *range),
        ),
        row_written(
            old(v_plane)@,
            final(v_plane)@,
            v_offset as int,
            sampling.chroma_width(width as int),
            cr_row(rgba@, rgba_offset as int, channels, width as int, sampling, *transform, *range),
        ),
{
    proof {
        lemma_len_fits(u_plane);
        lemma_len_fits(v_plane);
        lemma_len_fits(rgba);
    }
    let columns: usize = sampling.get_chroma_width(width) as usize;
    let ghost blue = cb_row(
        rgba@,
        rgba_offset as int,
        channels,
        width as int,
        sampling,
        *transform,
        *range,
    );
    let ghost red = cr_row(
        rgba@,
        rgba_offset as int,
        channels,
        width as int,
        sampling,
        *transform,
        *range,
    );
    let mut cx: usize = 0;
    while cx < columns
        invariant
            cx <= columns,
            columns == sampling.chroma_width(width as int),
            range.fits(255),
            blue == cb_row(
                rgba@,
                rgba_offset as int,
                channels,
                width as int,
                sampling,
                *transform,
                *range,
            ),
            red == cr_row(
                rgba@,
                rgba_offset as int,
                channels,
                width as int,
                sampling,
                *transform,
                *range,
            ),
            u_offset + columns <= u_plane@.len() <= usize::MAX,
            v_offset + columns <= v_plane@.len() <= usize::MAX,
            rgba_offset + pixel_start(channels, width as int) <= rgba@.len(),
            u_plane@.len() == old(u_plane)@.len(),
            v_plane@.len() == old(v_plane)@.len(),
            forall|i: int| u_offset <= i < u_offset + cx ==> #[trigger] u_plane@[i] == blue(i - u_offset),
            forall|i: int|
                0 <= i < u_plane@.len() && !(u_offset <= i < u_offset + cx) ==> #[trigger] u_plane@[i]
                    == old(u_plane)@[i],
            forall|i: int| v_offset <= i < v_offset + cx ==> #[trigger] v_plane@[i] == red(i - v_offset),
            forall|i: int|
                0 <= i < v_plane@.len() && !(v_offset <= i < v_offset + cx) ==> #[trigger] v_plane@[i]
                    == old(v_plane)@[i],
        decreases columns - cx,
    {
        let mean: Rgb8 = read_chroma_source(rgba, rgba_offset, width, channels, sampling, cx);
        let pair: (u8, u8) = rgb_to_chroma(transform, range, mean.r, mean.g, mean.b);
        let ghost u_earlier = u_plane@;
        let ghost v_earlier = v_plane@;
        u_plane[u_offset + cx] = pair.0;
        v_plane[v_offset + cx] = pair.1;
        proof {
            assert(blue(cx as int) == pair.0);
            assert(red(cx as int) == pair.1);
            lemma_row_extended(old(u_plane)@, u_earlier, u_plane@, u_offset as int, cx as int, 1, blue);
            lemma_row_extended(old(v_plane)@, v_earlier, v_plane@, v_offset as int, cx as int, 1, red);
        }
        cx += 1;
    }
}

/// Converts an interleaved RGB image to a planar YUV image, row by row.
pub fn rgbx_to_yuv8(
    y_plane: &mut [u8],
    y_stride: u32,
    u_plane: &mut [u8],
    u_stride: u32,
    v_plane: &mut [u8],
    v_stride: u32,
    rgba: &[u8],
    rgba_stride: u32,
    width: u32,
    height: u32,
    range: YuvRange,
    matrix: YuvStandardMatrix,
    channels: YuvSourceChannels,
    sampling: YuvChromaSample,
) -> (result: Result<(), YuvError>)
    ensures
        rgbx_to_yuv_post(
            old(y_plane)@,
            final(y_plane)@,
            y_stride as int,
            old(u_plane)@,
            final(u_plane)@,
            u_stride as int,
            old(v_plane)@,
            final(v_plane)@,
            v_stride as int,
            rgba@,
            rgba_stride as int,
            width as int,
            height as int,
            range,
            matrix,
            channels,
            sampling,
            result,
        ),
{
    let transform: CbCrForwardTransform<i32> = match get_forward_coefficients(range, matrix) {
        Ok(transform) => transform,
        Err(error) => { return Err(error); },
    };
    if !check_planar(
        plane_len(y_plane),
        y_stride,
        plane_len(u_plane),
        u_stride,
        plane_len(v_plane),
        v_stride,
        width,
        height,
        sampling,
    ) {
        return Err(YuvError::BufferSizeMismatch);
    }
    if check_rgba_destination(rgba, rgba_stride, width, height, channels).is_err() {
        return Err(YuvError::BufferSizeMismatch);
    }
    if width == 0 {
        return Ok(());
    }
    proof {
        lemma_len_fits(y_plane);
        lemma_len_fits(u_plane);
        lemma_len_fits(v_plane);
        lemma_len_fits(rgba);
        lemma_yuv_range_bounds(8, range);
        lemma2_to64();
    }
    let chroma_range: YuvChromaRange = get_yuv_range(8, range);
    let ghost luma = luma_image(rgba@, rgba_stride as int, channels, transform, chroma_range);
    let ghost blue = cb_image(
        rgba@,
        rgba_stride as int,
        channels,
        width as int,
        sampling,
        transform,
        chroma_range,
    );
    let ghost red = cr_image(
        rgba@,
        rgba_stride as int,
        channels,
        width as int,
        sampling,
        transform,
        chroma_range,
    );
    let ghost chroma_width = sampling.chroma_width(width as int);
    let ghost chroma_height = sampling.chroma_height(height as int);
    let mut y: usize = 0;
    while y < height as usize
        invariant
            y <= height,
            width > 0,
            chroma_range.fits(255),
            y_plane@.len() == old(y_plane)@.len() <= usize::MAX,
            u_plane@.len() == old(u_plane)@.len() <= usize::MAX,
            v_plane@.len() == old(v_plane)@.len() <= usize::MAX,
            rgba@.len() <= usize::MAX,
            chroma_width == sampling.chroma_width(width as int),
            chroma_height == sampling.chroma_height(height as int),
            planar_fits(
                y_plane@.len() as int,
                y_stride as int,
                u_plane@.len() as int,
                u_stride as int,
                v_plane@.len() as int,
                v_stride as int,
                width as int,
                height as int,
                sampling,
            ),
            destination_fits(
                rgba@.len() as int,
                rgba_stride as int,
                width as int,
                height as int,
                channels,
            ),
            luma == luma_image(rgba@, rgba_stride as int, channels, transform, chroma_range),
            blue == cb_image(
                rgba@,
                rgba_stride as int,
                channels,
                width as int,
                sampling,
                transform,
                chroma_range,
            ),
            red == cr_image(
                rgba@,
                rgba_stride as int,
                channels,
                width as int,
                sampling,
                transform,
                chroma_range,
            ),
            plane_written(old(y_plane)@, y_plane@, y_stride as int, width as int, y as int, luma),
            plane_written(
                old(u_plane)@,
                u_plane@,
                u_stride as int,
                chroma_width,
                sampling.chroma_height(y as int),
                blue,
            ),
            plane_written(
                old(v_plane)@,
                v_plane@,
                v_stride as int,
                chroma_width,
                sampling.chroma_height(y as int),
                red,
            ),
        decreases height - y,
    {
        let compute_uv_row: bool = sampling != YuvChromaSample::YUV420 || y % 2 == 0;
        let chroma_y: usize = if sampling == YuvChromaSample::YUV420 {
            y / 2
        } else {
            y
        };
        let ghost chroma_done = sampling.chroma_height(y as int);
        proof {
            lemma_cell_order(y_stride as int, y as int, 0, height as int);
            lemma_cell_order(rgba_stride as int, y as int, 0, height as int);
            lemma_cell_order(u_stride as int, chroma_y as int, 0, chroma_height);
            lemma_cell_order(v_stride as int, chroma_y as int, 0, chroma_height);
            lemma_rows_fit(y_stride as int, y as int, height as int);
            lemma_rows_fit(u_stride as int, chroma_done, chroma_height);
            lemma_rows_fit(v_stride as int, chroma_done, chroma_height);
        }
        let y_offset: usize = y * (y_stride as usize);
        let u_offset: usize = chroma_y * (u_stride as usize);
        let v_offset: usize = chroma_y * (v_stride as usize);
        let rgba_offset: usize = y * (rgba_stride as usize);
        let ghost y_middle = y_plane@;
        let ghost u_middle = u_plane@;
        let ghost v_middle = v_plane@;
        rgbx_to_luma_row(
            y_plane,
            y_offset,
            rgba,
            rgba_offset,
            width,
            &chroma_range,
            &transform,
            channels,
        );
        proof {
            assert(row_written(
                y_middle,
                y_plane@,
                cell(y_stride as int, y as int, 0),
                width as int,
                |j: int| luma(y as int, j),
            ));
            lemma_plane_row_written(
                old(y_plane)@,
                y_middle,
                y_plane@,
                y_stride as int,
                width as int,
                y as int,
                y as int,
                luma,
                luma,
            );
        }
        if compute_uv_row {
            rgbx_to_chroma_rows(
                u_plane,
                u_offset,
                v_plane,
                v_offset,
                rgba,
                rgba_offset,
                width,
                &chroma_range,
                &transform,
                channels,
                sampling,
            );
            proof {
                assert(chroma_origin_row(sampling, chroma_y as int) == y);
                assert(chroma_done == chroma_y);
                assert(row_written(
                    u_middle,
                    u_plane@,
                    cell(u_stride as int, chroma_y as int, 0),
                    chroma_width,
                    |j: int| blue(chroma_y as int, j),
                ));
                lemma_plane_row_written(
                    old(u_plane)@,
                    u_middle,
                    u_plane@,
                    u_stride as int,
                    chroma_width,
                    chroma_done,
                    chroma_y as int,
                    blue,
                    blue,
                );
                assert(row_written(
                    v_middle,
                    v_plane@,
                    cell(v_stride as int, chroma_y as int, 0),
                    chroma_width,
                    |j: int| red(chroma_y as int, j),
                ));
                lemma_plane_row_written(
                    old(v_plane)@,
                    v_middle,
                    v_plane@,
                    v_stride as int,
                    chroma_width,
                    chroma_done,
                    chroma_y as int,
                    red,
                    red,
                );
            }
        }
        y += 1;
    }
    Ok(())
}

/// Converts an interleaved RGB image to planar YUV 4:2:2.
pub fn rgb_to_yuv422(
    y_plane: &mut [u8],
    y_stride: u32,
    u_plane: &mut [u8],
    u_stride: u32,
    v_plane: &mut [u8],
    v_stride: u32,
    rgb: &[u8],
    rgb_stride: u32,
    width: u32,
    height: u32,
    range: YuvRange,
    matrix: YuvStandardMatrix,
) -> (result: Result<(), YuvError>)
    ensures
        rgbx_to_yuv_post(
            old(y_plane)@,
            final(y_plane)@,
            y_stride as int,
            old(u_plane)@,
            final(u_plane)@,
            u_stride as int,
            old(v_plane)@,
            final(v_plane)@,
            v_stride as int,
            rgb@,
            rgb_stride as int,
            width as int,
            height as int,
            range,
            matrix,
            YuvSourceChannels::Rgb,
            YuvChromaSample::YUV422,
            result,
        ),
{
    rgbx_to_yuv8(
        y_plane,
        y_stride,
        u_plane,
        u_stride,
        v_plane,
        v_stride,
        rgb,
        rgb_stride,
        width,
        height,
        range,
        matrix,
        YuvSourceChannels::Rgb,
        YuvChromaSample::YUV422,
    )
}

/// Converts an interleaved RGB image to planar YUV 4:2:0.
pub fn rgb_to_yuv420(
    y_plane: &mut [u8],
    y_stride: u32,
    u_plane: &mut [u8],
    u_stride: u32,
    v_plane: &mut [u8],
    v_stride: u32,
    rgb: &[u8],
    rgb_stride: u32,
    width: u32,
    height: u32,
    range: YuvRange,
    matrix: YuvStandardMatrix,
) -> (result: Result<(), YuvError>)
    ensures
        rgbx_to_yuv_post(
            old(y_plane)@,
            final(y_plane)@,
            y_stride as int,
            old(u_plane)@,
            final(u_plane)@,
            u_stride as int,
            old(v_plane)@,
            final(v_plane)@,
            v_stride as int,
            rgb@,
            rgb_stride as int,
            width as int,
            height as int,
            range,
            matrix,
            YuvSourceChannels::Rgb,
            YuvChromaSample::YUV420,
            result,
        ),
{
    rgbx_to_yuv8(
        y_plane,
        y_stride,
        u_plane,
        u_stride,
        v_plane,
        v_stride,
        rgb,
        rgb_stride,
        width,
        height,
        range,
        matrix,
        YuvSourceChannels::Rgb,
        YuvChromaSample::YUV420,
    )
}

/// Converts an interleaved RGB image to planar YUV 4:4:4.
pub fn rgb_to_yuv444(
    y_plane: &mut [u8],
    y_stride: u32,
    u_plane: &mut [u8],
    u_stride: u32,
    v_plane: &mut [u8],
    v_stride: u32,
    rgb: &[u8],
    rgb_stride: u32,
    width: u32,
    height: u32,
    range: YuvRange,
    matrix: YuvStandardMatrix,
) -> (result: Result<(), YuvError>)
    ensures
        rgbx_to_yuv_post(
            old(y_plane)@,
            final(y_plane)@,
            y_stride as int,
            old(u_plane)@,
            final(u_plane)@,
            u_stride as int,
            old(v_plane)@,
            final(v_plane)@,
            v_stride as int,
            rgb@,
            rgb_stride as int,
            width as int,
            height as int,
            range,
            matrix,
            YuvSourceChannels::Rgb,
            YuvChromaSample::YUV444,
            result,
        ),
{
    rgbx_to_yuv8(
        y_plane,
        y_stride,
        u_plane,
        u_stride,
        v_plane,
        v_stride,
        rgb,
        rgb_stride,
        width,
        height,
        range,
        matrix,
        YuvSourceChannels::Rgb,
        YuvChromaSample::YUV444,
    )
}

/// Converts an interleaved RGBA image to planar YUV 4:2:2. Alpha is read past and plays no part.
pub fn rgba_to_yuv422(
    y_plane: &mut [u8],
    y_stride: u32,
    u_plane: &mut [u8],
    u_stride: u32,
    v_plane: &mut [u8],
    v_stride: u32,
    rgba: &[u8],
    rgba_stride: u32,
    width: u32,
    height: u32,
    range: YuvRange,
    matrix: YuvStandardMatrix,
) -> (result: Result<(), YuvError>)
    ensures
        rgbx_to_yuv_post(
            old(y_plane)@,
            final(y_plane)@,
            y_stride as int,
            old(u_plane)@,
            final(u_plane)@,
            u_stride as int,
            old(v_plane)@,
            final(v_plane)@,
            v_stride as int,
            rgba@,
            rgba_stride as int,
            width as int,
            height as int,
            range,
            matrix,
            YuvSourceChannels::Rgba,
            YuvChromaSample::YUV422,
            result,
        ),
{
    rgbx_to_yuv8(
        y_plane,
        y_stride,
        u_plane,
        u_stride,
        v_plane,
        v_stride,
        rgba,
        rgba_stride,
        width,
        height,
        range,
        matrix,
        YuvSourceChannels::Rgba,
        YuvChromaSample::YUV422,
    )
}

/// Converts an interleaved RGBA image to planar YUV 4:2:0. Alpha is read past and plays no part.
pub fn rgba_to_yuv420(
    y_plane: &mut [u8],
    y_stride: u32,
    u_plane: &mut [u8],
    u_stride: u32,
    v_plane: &mut [u8],
    v_stride: u32,
    rgba: &[u8],
    rgba_stride: u32,
    width: u32,
    height: u32,
    range: YuvRange,
    matrix: YuvStandardMatrix,
) -> (result: Result<(), YuvError>)
    ensures
        rgbx_to_yuv_post(
            old(y_plane)@,
            final(y_plane)@,
            y_stride as int,
            old(u_plane)@,
            final(u_plane)@,
            u_stride as int,
            old(v_plane)@,
            final(v_plane)@,
            v_stride as int,
            rgba@,
            rgba_stride as int,
            width as int,
            height as int,
            range,
            matrix,
            YuvSourceChannels::Rgba,
            YuvChromaSample::YUV420,
            result,
        ),
{
    rgbx_to_yuv8(
        y_plane,
        y_stride,
        u_plane,
        u_stride,
        v_plane,
        v_stride,
        rgba,
        rgba_stride,
        width,
        height,
        range,
        matrix,
        YuvSourceChannels::Rgba,
        YuvChromaSample::YUV420,
    )
}

/// Converts an interleaved RGBA image to planar YUV 4:4:4. Alpha is read past and plays no part.
pub fn rgba_to_yuv444(
    y_plane: &mut [u8],
    y_stride: u32,
    u_plane: &mut [u8],
    u_stride: u32,
    v_plane: &mut [u8],
    v_stride: u32,
    rgba: &[u8],
    rgba_stride: u32,
    width: u32,
    height: u32,
    range: YuvRange,
    matrix: YuvStandardMatrix,
) -> (result: Result<(), YuvError>)
    ensures
        rgbx_to_yuv_post(
            old(y_plane)@,
            final(y_plane)@,
            y_stride as int,
            old(u_plane)@,
            final(u_plane)@,
            u_stride as int,
            old(v_plane)@,
            final(v_plane)@,
            v_stride as int,
            rgba@,
            rgba_stride as int,
            width as int,
            height as int,
            range,
            matrix,
            YuvSourceChannels::Rgba,
            YuvChromaSample::YUV444,
            result,
        ),
{
    rgbx_to_yuv8(
        y_plane,
        y_stride,
        u_plane,
        u_stride,
        v_plane,
        v_stride,
        rgba,
        rgba_stride,
        width,
        height,
        range,
        matrix,
        YuvSourceChannels::Rgba,
        YuvChromaSample::YUV444,
    )
}

/// Converts an interleaved BGRA image to planar YUV 4:2:2. Alpha is read past and plays no part.
pub fn bgra_to_yuv422(
    y_plane: &mut [u8],
    y_stride: u32,
    u_plane: &mut [u8],
    u_stride: u32,
    v_plane: &mut [u8],
    v_stride: u32,
    bgra: &[u8],
    bgra_stride: u32,
    width: u32,
    height: u32,
    range: YuvRange,
    matrix: YuvStandardMatrix,
) -> (result: Result<(), YuvError>)
    ensures
        rgbx_to_yuv_post(
            old(y_plane)@,
            final(y_plane)@,
            y_stride as int,
            old(u_plane)@,
            final(u_plane)@,
            u_stride as int,
            old(v_plane)@,
            final(v_plane)@,
            v_stride as int,
            bgra@,
            bgra_stride as int,
            width as int,
            height as int,
            range,
            matrix,
            YuvSourceChannels::Bgra,
            YuvChromaSample::YUV422,
            result,
        ),
{
    rgbx_to_yuv8(
        y_plane,
        y_stride,
        u_plane,
        u_stride,
        v_plane,
        v_stride,
        bgra,
        bgra_stride,
        width,
        height,
        range,
        matrix,
        YuvSourceChannels::Bgra,
        YuvChromaSample::YUV422,
    )
}

/// Converts an interleaved BGRA image to planar YUV 4:2:0. Alpha is read past and plays no part.
pub fn bgra_to_yuv420(
    y_plane: &mut [u8],
    y_stride: u32,
    u_plane: &mut [u8],
    u_stride: u32,
    v_plane: &mut [u8],
    v_stride: u32,
    bgra: &[u8],
    bgra_stride: u32,
    width: u32,
    height: u32,
    range: YuvRange,
    matrix: YuvStandardMatrix,
) -> (result: Result<(), YuvError>)
    ensures
        rgbx_to_yuv_post(
            old(y_plane)@,
            final(y_plane)@,
            y_stride as int,
            old(u_plane)@,
            final(u_plane)@,
            u_stride as int,
            old(v_plane)@,
            final(v_plane)@,
            v_stride as int,
            bgra@,
            bgra_stride as int,
            width as int,
            height as int,
            range,
            matrix,
            YuvSourceChannels::Bgra,
            YuvChromaSample::YUV420,
            result,
        ),
{
    rgbx_to_yuv8(
        y_plane,
        y_stride,
        u_plane,
        u_stride,
        v_plane,
        v_stride,
        bgra,
        bgra_stride,
        width,
        height,
        range,
        matrix,
        YuvSourceChannels::Bgra,
        YuvChromaSample::YUV420,
    )
}

/// Converts an interleaved BGRA image to planar YUV 4:4:4. Alpha is read past and plays no part.
pub fn bgra_to_yuv444(
    y_plane: &mut [u8],
    y_stride: u32,
    u_plane: &mut [u8],
    u_stride: u32,
    v_plane: &mut [u8],
    v_stride: u32,
    bgra: &[u8],
    bgra_stride: u32,
    width: u32,
    height: u32,
    range: YuvRange,
    matrix: YuvStandardMatrix,
) -> (result: Result<(), YuvError>)
    ensures
        rgbx_to_yuv_post(
            old(y_plane)@,
            final(y_plane)@,
            y_stride as int,
            old(u_plane)@,
            final(u_plane)@,
            u_stride as int,
            old(v_plane)@,
            final(v_plane)@,
            v_stride as int,
            bgra@,
            bgra_stride as int,
            width as int,
            height as int,
            range,
            matrix,
            YuvSourceChannels::Bgra,
            YuvChromaSample::YUV444,
            result,
        ),
{
    rgbx_to_yuv8(
        y_plane,
        y_stride,
        u_plane,
        u_stride,
        v_plane,
        v_stride,
        bgra,
        bgra_stride,
        width,
        height,
        range,
        matrix,
        YuvSourceChannels::Bgra,
        YuvChromaSample::YUV444,
    )
}

/// Converts an interleaved BGR image to planar YUV 4:2:2.
pub fn bgr_to_yuv422(
    y_plane: &mut [u8],
    y_stride: u32,
    u_plane: &mut [u8],
    u_stride: u32,
    v_plane: &mut [u8],
    v_stride: u32,
    bgr: &[u8],
    bgr_stride: u32,
    width: u32,
    height: u32,
    range: YuvRange,
    matrix: YuvStandardMatrix,
) -> (result: Result<(), YuvError>)
    ensures
        rgbx_to_yuv_post(
            old(y_plane)@,
            final(y_plane)@,
            y_stride as int,
            old(u_plane)@,
            final(u_plane)@,
            u_stride as int,
            old(v_plane)@,
            final(v_plane)@,
            v_stride as int,
            bgr@,
            bgr_stride as int,
            width as int,
            height as int,
            range,
            matrix,
            YuvSourceChannels::Bgr,
            YuvChromaSample::YUV422,
            result,
        ),
{
    rgbx_to_yuv8(
        y_plane,
        y_stride,
        u_plane,
        u_stride,
        v_plane,
        v_stride,
        bgr,
        bgr_stride,
        width,
        height,
        range,
        matrix,
        YuvSourceChannels::Bgr,
        YuvChromaSample::YUV422,
    )
}

/// Converts an interleaved BGR image to planar YUV 4:2:0.
pub fn bgr_to_yuv420(
    y_plane: &mut [u8],
    y_stride: u32,
    u_plane: &mut [u8],
    u_stride: u32,
    v_plane: &mut [u8],
    v_stride: u32,
    bgr: &[u8],
    bgr_stride: u32,
    width: u32,
    height: u32,
    range: YuvRange,
    matrix: YuvStandardMatrix,
) -> (result: Result<(), YuvError>)
    ensures
        rgbx_to_yuv_post(
            old(y_plane)@,
            final(y_plane)@,
            y_stride as int,
            old(u_plane)@,
            final(u_plane)@,
            u_stride as int,
            old(v_plane)@,
            final(v_plane)@,
            v_stride as int,
            bgr@,
            bgr_stride as int,
            width as int,
            height as int,
            range,
            matrix,
            YuvSourceChannels::Bgr,
            YuvChromaSample::YUV420,
            result,
        ),
{
    rgbx_to_yuv8(
        y_plane,
        y_stride,
        u_plane,
        u_stride,
        v_plane,
        v_stride,
        bgr,
        bgr_stride,
        width,
        height,
        range,
        matrix,
        YuvSourceChannels::Bgr,
        YuvChromaSample::YUV420,
    )
}

/// Converts an interleaved BGR image to planar YUV 4:4:4.
pub fn bgr_to_yuv444(
    y_plane: &mut [u8],
    y_stride: u32,
    u_plane: &mut [u8],
    u_stride: u32,
    v_plane: &mut [u8],
    v_stride: u32,
    bgr: &[u8],
    bgr_stride: u32,
    width: u32,
    height: u32,
    range: YuvRange,
    matrix: YuvStandardMatrix,
) -> (result: Result<(), YuvError>)
    ensures
        rgbx_to_yuv_post(
            old(y_plane)@,
            final(y_plane)@,
            y_stride as int,
            old(u_plane)@,
            final(u_plane)@,
            u_stride as int,
            old(v_plane)@,
            final(v_plane)@,
            v_stride as int,
            bgr@,
            bgr_stride as int,
            width as int,
            height as int,
            range,
            matrix,
            YuvSourceChannels::Bgr,
            YuvChromaSample::YUV444,
            result,
        ),
{
    rgbx_to_yuv8(
        y_plane,
        y_stride,
        u_plane,
        u_stride,
        v_plane,
        v_stride,
        bgr,
        bgr_stride,
        width,
        height,
        range,
        matrix,
        YuvSourceChannels::Bgr,
        YuvChromaSample::YUV444,
    )
}

} // verus!

//! Planar YUV, with or without an alpha plane, to interleaved RGB.

use crate::images::check_rgba_destination;
use crate::images::destination_fits;
use crate::numerics::premultiply;
use crate::numerics::spec_premultiply;
use crate::pixel::color_byte;
use crate::pixel::get_inverse_coefficients;
use crate::pixel::get_pixel_start;
use crate::pixel::inverse_coefficients;
use crate::pixel::pixel_of;
use crate::pixel::pixel_start;
use crate::pixel::Rgb;
use crate::pixel::Rounding;
use crate::pixel::slot_of;
use crate::pixel::spec_blue;
use crate::pixel::spec_green;
use crate::pixel::spec_red;
use crate::pixel::store_pixel;
use crate::pixel::yuv_to_rgb;
use crate::planes::cell;
use crate::planes::check_plane;
use crate::planes::lemma_cell_order;
use crate::planes::lemma_len_fits;
use crate::planes::lemma_plane_row_written;
use crate::planes::lemma_row_extended;
use crate::planes::lemma_rows_fit;
use crate::planes::plane_fits;
use crate::planes::plane_len;
use crate::planes::plane_written;
use crate::planes::row_written;
use crate::rgba_to_yuv::check_planar;
use crate::rgba_to_yuv::planar_fits;
use crate::yuv_error::YuvError;
use crate::yuv_nv_to_rgba::INVERSE_PRECISION;
use crate::yuv_nv_to_rgba::inverse_rounding;
use crate::yuv_support::CbCrInverseTransform;
use crate::yuv_support::get_yuv_range;
use crate::yuv_support::lemma_yuv_range_bounds;
use crate::yuv_support::spec_yuv_range;
use crate::yuv_support::YuvChromaRange;
use crate::yuv_support::YuvChromaSample;
use crate::yuv_support::YuvRange;
use crate::yuv_support::YuvSourceChannels;
use crate::yuv_support::YuvStandardMatrix;
use vstd::arithmetic::power2::lemma2_to64;
use vstd::prelude::*;

verus! {

/// The alpha of column `x`: that of the alpha row that starts at `offset`,
/// or 255 where the source has no alpha plane.
pub open spec fn alpha_at(alpha: Option<Seq<u8>>, offset: int, x: int) -> int {
    match alpha {
        Some(plane) => plane[offset + x] as int,
        None => 255,
    }
}

/// A colour sample as it is stored: scaled by alpha where the source has an
/// alpha plane and premultiplication is asked for, as it is otherwise.
pub open spec fn stored_color(value: int, alpha: int, scale: bool) -> int {
    if scale {
        spec_premultiply(value, alpha)
    } else {
        value
    }
}

/// Byte `j` of an interleaved row of R, G, B (and alpha), from a luma row,
/// two chroma rows and, where there is one, an alpha row. Where chroma is
/// halved, the two columns of a pair use the same chroma sample as it is.
/// Alpha itself is stored unscaled.
pub open spec fn planar_rgbx_byte(
    y_plane: Seq<u8>,
    y_offset: int,
    u_plane: Seq<u8>,
    u_offset: int,
    v_plane: Seq<u8>,
    v_offset: int,
    alpha: Option<Seq<u8>>,
    a_offset: int,
    premultiply_alpha: bool,
    channels: YuvSourceChannels,
    sampling: YuvChromaSample,
    transform: CbCrInverseTransform<i32>,
    range: YuvChromaRange,
    j: int,
) -> u8 {
    let x = pixel_of(channels, j);
    let cx = sampling.chroma_column(x);
    let y = y_plane[y_offset + x] as int;
    let cb = u_plane[u_offset + cx] as int;
    let cr = v_plane[v_offset + cx] as int;
    let a = alpha_at(alpha, a_offset, x);
    let scale = alpha is Some && premultiply_alpha;
    color_byte(
        channels,
        stored_color(spec_red(transform, range, inverse_rounding(), y, cr), a, scale),
        stored_color(spec_green(transform, range, inverse_rounding(), y, cb, cr), a, scale),
        stored_color(spec_blue(transform, range, inverse_rounding(), y, cb), a, scale),
        a,
        slot_of(channels, j),
    )
}

/// An interleaved row as a function of the byte's place in it.
pub open spec fn planar_rgbx_row(
    y_plane: Seq<u8>,
    y_offset: int,
    u_plane: Seq<u8>,
    u_offset: int,
    v_plane: Seq<u8>,
    v_offset: int,
    alpha: Option<Seq<u8>>,
    a_offset: int,
    premultiply_alpha: bool,
    channels: YuvSourceChannels,
    sampling: YuvChromaSample,
    transform: CbCrInverseTransform<i32>,
    range: YuvChromaRange,
) -> spec_fn(int) -> u8 {
    |j: int|
        planar_rgbx_byte(
            y_plane,
            y_offset,
            u_plane,
            u_offset,
            v_plane,
            v_offset,
            alpha,
            a_offset,
            premultiply_alpha,
            channels,
            sampling,
            transform,
            range,
            j,
        )
}

/// The interleaved image as a function of row and byte.
pub open spec fn planar_rgbx_image(
    y_plane: Seq<u8>,
    y_stride: int,
    u_plane: Seq<u8>,
    u_stride: int,
    v_plane: Seq<u8>,
    v_stride: int,
    alpha: Option<Seq<u8>>,
    a_stride: int,
    premultiply_alpha: bool,
    channels: YuvSourceChannels,
    sampling: YuvChromaSample,
    transform: CbCrInverseTransform<i32>,
    range: YuvChromaRange,
) -> spec_fn(int, int) -> u8 {
    |row: int, j: int|
        planar_rgbx_byte(
            y_plane,
            cell(y_stride, row, 0),
            u_plane,
            cell(u_stride, sampling.chroma_row(row), 0),
            v_plane,
            cell(v_stride, sampling.chroma_row(row), 0),
            alpha,
            cell(a_stride, row, 0),
            premultiply_alpha,
            channels,
            sampling,
            transform,
            range,
            j,
        )
}

/// The alpha plane, where there is one, holds `width` by `height` samples.
pub open spec fn alpha_fits(alpha: Option<Seq<u8>>, a_stride: int, width: int, height: int) -> bool {
    match alpha {
        Some(plane) => plane_fits(plane.len() as int, a_stride, width, height),
        None => true,
    }
}

/// What a conversion from a planar image to interleaved RGB leaves behind. A
/// degenerate matrix is refused, then planes that do not fit; a refusal
/// writes nothing. Otherwise every pixel is written and the padding of the
/// destination is untouched.
pub open spec fn yuv_to_rgbx_post(
    y_plane: Seq<u8>,
    y_stride: int,
    u_plane: Seq<u8>,
    u_stride: int,
    v_plane: Seq<u8>,
    v_stride: int,
    alpha: Option<Seq<u8>>,
    a_stride: int,
    premultiply_alpha: bool,
    before: Seq<u8>,
    after: Seq<u8>,
    stride: int,
    width: int,
    height: int,
    range: YuvRange,
    matrix: YuvStandardMatrix,
    channels: YuvSourceChannels,
    sampling: YuvChromaSample,
    result: Result<(), YuvError>,
) -> bool {
    if !matrix.is_valid() {
        &&& result == Err::<(), YuvError>(YuvError::InvalidMatrix)
        &&& after == before
    } else if !(planar_fits(
        y_plane.len() as int,
        y_stride,
        u_plane.len() as int,
        u_stride,
        v_plane.len() as int,
        v_stride,
        width,
        height,
        sampling,
    ) && alpha_fits(alpha, a_stride, width, height) && destination_fits(
        before.len() as int,
        stride,
        width,
        height,
        channels,
    )) {
        &&& result == Err::<(), YuvError>(YuvError::BufferSizeMismatch)
        &&& after == before
    } else {
        &&& result is Ok
        &&& plane_written(
            before,
            after,
            stride,
            pixel_start(channels, width),
            height,
            planar_rgbx_image(
                y_plane,
                y_stride,
                u_plane,
                u_stride,
                v_plane,
                v_stride,
                alpha,
                a_stride,
                premultiply_alpha,
                channels,
                sampling,
                inverse_coefficients(range, matrix, 8, 255, INVERSE_PRECISION as nat),
                spec_yuv_range(8, range),
            ),
        )
    }
}

/// The view of an alpha plane that may be absent.
pub open spec fn alpha_view(a_plane: Option<&[u8]>) -> Option<Seq<u8>> {
    match a_plane {
        Some(plane) => Some(plane@),
        None => None,
    }
}

/// Converts one row.
pub fn yuv_to_rgbx_row(
    y_plane: &[u8],
    y_offset: usize,
    u_plane: &[u8],
    u_offset: usize,
    v_plane: &[u8],
    v_offset: usize,
    a_plane: Option<&[u8]>,
    a_offset: usize,
    rgba: &mut [u8],
    dst_offset: usize,
    width: u32,
    range: &YuvChromaRange,
    transform: &CbCrInverseTransform<i32>,
    channels: YuvSourceChannels,
    sampling: YuvChromaSample,
    premultiply_alpha: bool,
)
    requires
        range.fits(255),
        y_offset + width <= y_plane@.len(),
        u_offset + sampling.chroma_width(width as int) <= u_plane@.len(),
        v_offset + sampling.chroma_width(width as int) <= v_plane@.len(),
        a_plane is Some ==> a_offset + width <= a_plane->Some_0@.len(),
        dst_offset + pixel_start(channels, width as int) <= old(rgba)@.len(),
    ensures
        row_written(
            old(rgba)@,
            final(rgba)@,
            dst_offset as int,
            pixel_start(channels, width as int),
            planar_rgbx_row(
                y_plane@,
                y_offset as int,
                u_plane@,
                u_offset as int,
                v_plane@,
                v_offset as int,
                alpha_view(a_plane),
                a_offset as int,
                premultiply_alpha,
                channels,
                sampling,
                *transform,
                *range,
            ),
        ),
{
    proof {
        lemma_len_fits(y_plane);
        lemma_len_fits(u_plane);
        lemma_len_fits(v_plane);
        lemma_len_fits(rgba);
        if a_plane is Some {
            lemma_len_fits(a_plane->Some_0);
        }
    }
    let halved: bool = sampling != YuvChromaSample::YUV444;
    let mode = Rounding { rounding: 32, shift: INVERSE_PRECISION, max: 255 };
    let ghost row = planar_rgbx_row(
        y_plane@,
        y_offset as int,
        u_plane@,
        u_offset as int,
        v_plane@,
        v_offset as int,
        alpha_view(a_plane),
        a_offset as int,
        premultiply_alpha,
        channels,
        sampling,
        *transform,
        *range,
    );
    let mut x: usize = 0;
    while x < width as usize
        invariant
            x <= width,
            halved == sampling.is_halved(),
            mode == inverse_rounding(),
            range.fits(255),
            row == planar_rgbx_row(
                y_plane@,
                y_offset as int,
                u_plane@,
                u_offset as int,
                v_plane@,
                v_offset as int,
                alpha_view(a_plane),
                a_offset as int,
                premultiply_alpha,
                channels,
                sampling,
                *transform,
                *range,
            ),
            y_offset + width <= y_plane@.len() <= usize::MAX,
            u_offset + sampling.chroma_width(width as int) <= u_plane@.len() <= usize::MAX,
            v_offset + sampling.chroma_width(width as int) <= v_plane@.len() <= usize::MAX,
            a_plane is Some ==> a_offset + width <= a_plane->Some_0@.len() <= usize::MAX,
            dst_offset + pixel_start(channels, width as int) <= rgba@.len() <= usize::MAX,
            rgba@.len() == old(rgba)@.len(),
            forall|i: int|
                dst_offset <= i < dst_offset + pixel_start(channels, x as int) ==> #[trigger] rgba@[i]
                    == row(i - dst_offset),
            forall|i: int|
                0 <= i < rgba@.len() && !(dst_offset <= i < dst_offset + pixel_start(
                    channels,
                    x as int,
                )) ==> #[trigger] rgba@[i] == old(rgba)@[i],
        decreases width - x,
    {
        let cx: usize = if halved {
            x / 2
        } else {
            x
        };
        let y_value: u8 = y_plane[y_offset + x];
        let cb_value: u8 = u_plane[u_offset + cx];
        let cr_value: u8 = v_plane[v_offset + cx];
        let rgb: Rgb = yuv_to_rgb(
            transform,
            range,
            mode,
            y_value as u16,
            cb_value as u16,
            cr_value as u16,
        );
        let mut r: u8 = rgb.r as u8;
        let mut g: u8 = rgb.g as u8;
        let mut b: u8 = rgb.b as u8;
        let mut a: u8 = 255;
        match a_plane {
            Some(plane) => {
                a = plane[a_offset + x];
                if premultiply_alpha {
                    r = premultiply(r, a);
                    g = premultiply(g, a);
                    b = premultiply(b, a);
                }
            },
            None => {},
        }
        let start: usize = get_pixel_start(channels, x);
        let ghost earlier = rgba@;
        store_pixel(rgba, dst_offset + start, channels, r, g, b, a);
        proof {
            let count = channels.spec_channels_count();
            assert(a == alpha_at(alpha_view(a_plane), a_offset as int, x as int));
            assert forall|i: int|
                dst_offset + start <= i < dst_offset + start + count implies #[trigger] rgba@[i]
                == row(i - dst_offset) by {
                let j = i - dst_offset;
                assert(pixel_of(channels, j) == x);
                assert(slot_of(channels, j) == i - (dst_offset + start));
            }
            lemma_row_extended(
                old(rgba)@,
                earlier,
                rgba@,
                dst_offset as int,
                start as int,
                count,
                row,
            );
        }
        x += 1;
    }
}

fn yuv_to_rgbx_planes(
    y_plane: &[u8],
    y_stride: u32,
    u_plane: &[u8],
    u_stride: u32,
    v_plane: &[u8],
    v_stride: u32,
    a_plane: Option<&[u8]>,
    a_stride: u32,
    rgba: &mut [u8],
    rgba_stride: u32,
    width: u32,
    height: u32,
    range: YuvRange,
    matrix: YuvStandardMatrix,
    premultiply_alpha: bool,
    channels: YuvSourceChannels,
    sampling: YuvChromaSample,
) -> (result: Result<(), YuvError>)
    ensures
        yuv_to_rgbx_post(
            y_plane@,
            y_stride as int,
            u_plane@,
            u_stride as int,
            v_plane@,
            v_stride as int,
            alpha_view(a_plane),
            a_stride as int,
            premultiply_alpha,
            old(rgba)@,
            final(rgba)@,
            rgba_stride as int,
            width as int,
            height as int,
            range,
            matrix,
            channels,
            sampling,
            result,
        ),
{
    let transform: CbCrInverseTransform<i32> = match get_inverse_coefficients(
        range,
        matrix,
        8,
        255,
        INVERSE_PRECISION,
    ) {
        Ok(transform) => transform,
        Err(error) => { return Err(error); },
    };
    if !check_planar(
        plane_len(y_plane),
        y_stride,
        plane_len(u_plane),
        u_stride,
        plane_len(v_plane),
        v_stride,
        width,
        height,
        sampling,
    ) {
        return Err(YuvError::BufferSizeMismatch);
    }
    match a_plane {
        Some(plane) => {
            if !check_plane(plane_len(plane), a_stride, width as u64, height) {
                return Err(YuvError::BufferSizeMismatch);
            }
        },
        None => {},
    }
    if check_rgba_destination(rgba, rgba_stride, width, height, channels).is_err() {
        return Err(YuvError::BufferSizeMismatch);
    }
    if width == 0 {
        return Ok(());
    }
    proof {
        lemma_len_fits(y_plane);
        lemma_len_fits(u_plane);
        lemma_len_fits(v_plane);
        lemma_len_fits(rgba);
        if a_plane is Some {
            lemma_len_fits(a_plane->Some_0);
        }
        lemma_yuv_range_bounds(8, range);
        lemma2_to64();
    }
    let chroma_range: YuvChromaRange = get_yuv_range(8, range);
    let ghost image = planar_rgbx_image(
        y_plane@,
        y_stride as int,
        u_plane@,
        u_stride as int,
        v_plane@,
        v_stride as int,
        alpha_view(a_plane),
        a_stride as int,
        premultiply_alpha,
        channels,
        sampling,
        transform,
        chroma_range,
    );
    let ghost row_len = pixel_start(channels, width as int);
    let ghost chroma_height = sampling.chroma_height(height as int);
    let mut y: usize = 0;
    while y < height as usize
        invariant
            y <= height,
            width > 0,
            chroma_range.fits(255),
            y_plane@.len() <= usize::MAX,
            u_plane@.len() <= usize::MAX,
            v_plane@.len() <= usize::MAX,
            a_plane is Some ==> a_plane->Some_0@.len() <= usize::MAX,
            rgba@.len() == old(rgba)@.len() <= usize::MAX,
            row_len == pixel_start(channels, width as int),
            chroma_height == sampling.chroma_height(height as int),
            planar_fits(
                y_plane@.len() as int,
                y_stride as int,
                u_plane@.len() as int,
                u_stride as int,
                v_plane@.len() as int,
                v_stride as int,
                width as int,
                height as int,
                sampling,
            ),
            alpha_fits(alpha_view(a_plane), a_stride as int, width as int, height as int),
            destination_fits(
                rgba@.len() as int,
                rgba_stride as int,
                width as int,
                height as int,
                channels,
            ),
            image == planar_rgbx_image(
                y_plane@,
                y_stride as int,
                u_plane@,
                u_stride as int,
                v_plane@,
                v_stride as int,
                alpha_view(a_plane),
                a_stride as int,
                premultiply_alpha,
                channels,
                sampling,
                transform,
                chroma_range,
            ),
            plane_written(old(rgba)@, rgba@, rgba_stride as int, row_len, y as int, image),
        decreases height - y,
    {
        let chroma_y: usize = if sampling == YuvChromaSample::YUV420 {
            y / 2
        } else {
            y
        };
        proof {
            lemma_cell_order(y_stride as int, y as int, 0, height as int);
            lemma_cell_order(rgba_stride as int, y as int, 0, height as int);
            lemma_cell_order(u_stride as int, chroma_y as int, 0, chroma_height);
            lemma_cell_order(v_stride as int, chroma_y as int, 0, chroma_height);
            if a_plane is Some {
                lemma_cell_order(a_stride as int, y as int, 0, height as int);
            }
            lemma_rows_fit(rgba_stride as int, y as int, height as int);
        }
        let y_offset: usize = y * (y_stride as usize);
        let u_offset: usize = chroma_y * (u_stride as usize);
        let v_offset: usize = chroma_y * (v_stride as usize);
        let a_offset: usize = if a_plane.is_some() {
            y * (a_stride as usize)
        } else {
            0
        };
        let dst_offset: usize = y * (rgba_stride as usize);
        let ghost middle = rgba@;
        yuv_to_rgbx_row(
            y_plane,
            y_offset,
            u_plane,
            u_offset,
            v_plane,
            v_offset,
            a_plane,
            a_offset,
            rgba,
            dst_offset,
            width,
            &chroma_range,
            &transform,
            channels,
            sampling,
            premultiply_alpha,
        );
        proof {
            assert forall|i: int|
                dst_offset <= i < dst_offset + row_len implies #[trigger] rgba@[i] == image(
                y as int,
                i - dst_offset,
            ) by {
                if a_plane is None {
                    assert(alpha_at(alpha_view(a_plane), a_offset as int, 0) == 255);
                }
            }
            assert(row_written(
                middle,
                rgba@,
                cell(rgba_stride as int, y as int, 0),
                row_len,
                |j: int| image(y as int, j),
            ));
            lemma_plane_row_written(
                old(rgba)@,
                middle,
                rgba@,
                rgba_stride as int,
                row_len,
                y as int,
                y as int,
                image,
                image,
            );
        }
        y += 1;
    }
    Ok(())
}

/// Converts a planar YUV image to an interleaved RGB image, row by row.
pub fn yuv_to_rgbx(
    y_plane: &[u8],
    y_stride: u32,
    u_plane: &[u8],
    u_stride: u32,
    v_plane: &[u8],
    v_stride: u32,
    rgba: &mut [u8],
    rgba_stride: u32,
    width: u32,
    height: u32,
    range: YuvRange,
    matrix: YuvStandardMatrix,
    channels: YuvSourceChannels,
    sampling: YuvChromaSample,
) -> (result: Result<(), YuvError>)
    ensures
        yuv_to_rgbx_post(
            y_plane@,
            y_stride as int,
            u_plane@,
            u_stride as int,
            v_plane@,
            v_stride as int,
            None,
            0,
            false,
            old(rgba)@,
            final(rgba)@,
            rgba_stride as int,
            width as int,
            height as int,
            range,
            matrix,
            channels,
            sampling,
            result,
        ),
{
    yuv_to_rgbx_planes(
        y_plane,
        y_stride,
        u_plane,
        u_stride,
        v_plane,
        v_stride,
        None,
        0,
        rgba,
        rgba_stride,
        width,
        height,
        range,
        matrix,
        false,
        channels,
        sampling,
    )
}

/// Converts a planar YUV image with an alpha plane to an interleaved RGB
/// image, row by row.
pub fn yuv_with_alpha_to_rgbx(
    y_plane: &[u8],
    y_stride: u32,
    u_plane: &[u8],
    u_stride: u32,
    v_plane: &[u8],
    v_stride: u32,
    a_plane: &[u8],
    a_stride: u32,
    rgba: &mut [u8],
    rgba_stride: u32,
    width: u32,
    height: u32,
    range: YuvRange,
    matrix: YuvStandardMatrix,
    premultiply_alpha: bool,
    channels: YuvSourceChannels,
    sampling: YuvChromaSample,
) -> (result: Result<(), YuvError>)
    ensures
        yuv_to_rgbx_post(
            y_plane@,
            y_stride as int,
            u_plane@,
            u_stride as int,
            v_plane@,
            v_stride as int,
            Some(a_plane@),
            a_stride as int,
            premultiply_alpha,
            old(rgba)@,
            final(rgba)@,
            rgba_stride as int,
            width as int,
            height as int,
            range,
            matrix,
            channels,
            sampling,
            result,
        ),
{
    yuv_to_rgbx_planes(
        y_plane,
        y_stride,
        u_plane,
        u_stride,
        v_plane,
        v_stride,
        Some(a_plane),
        a_stride,
        rgba,
        rgba_stride,
        width,
        height,
        range,
        matrix,
        premultiply_alpha,
        channels,
        sampling,
    )
}

/// Converts planar YUV 4:2:0 to an interleaved RGB image.
pub fn yuv420_to_rgb(
    y_plane: &[u8],
    y_stride: u32,
    u_plane: &[u8],
    u_stride: u32,
    v_plane: &[u8],
    v_stride: u32,
    rgb: &mut [u8],
    rgb_stride: u32,
    width: u32,
    height: u32,
    range: YuvRange,
    matrix: YuvStandardMatrix,
) -> (result: Result<(), YuvError>)
    ensures
        yuv_to_rgbx_post(
            y_plane@,
            y_stride as int,
            u_plane@,
            u_stride as int,
            v_plane@,
            v_stride as int,
            None,
            0,
            false,
            old(rgb)@,
            final(rgb)@,
            rgb_stride as int,
            width as int,
            height as int,
            range,
            matrix,
            YuvSourceChannels::Rgb,
            YuvChromaSample::YUV420,
            result,
        ),
{
    yuv_to_rgbx(
        y_plane,
        y_stride,
        u_plane,
        u_stride,
        v_plane,
        v_stride,
        rgb,
        rgb_stride,
        width,
        height,
        range,
        matrix,
        YuvSourceChannels::Rgb,
        YuvChromaSample::YUV420,
    )
}

/// Converts planar YUV 4:2:0 to an interleaved RGBA image. Alpha is set to 255.
pub fn yuv420_to_rgba(
    y_plane: &[u8],
    y_stride: u32,
    u_plane: &[u8],
    u_stride: u32,
    v_plane: &[u8],
    v_stride: u32,
    rgba: &mut [u8],
    rgba_stride: u32,
    width: u32,
    height: u32,
    range: YuvRange,
    matrix: YuvStandardMatrix,
) -> (result: Result<(), YuvError>)
    ensures
        yuv_to_rgbx_post(
            y_plane@,
            y_stride as int,
            u_plane@,
            u_stride as int,
            v_plane@,
            v_stride as int,
            None,
            0,
            false,
            old(rgba)@,
            final(rgba)@,
            rgba_stride as int,
            width as int,
            height as int,
            range,
            matrix,
            YuvSourceChannels::Rgba,
            YuvChromaSample::YUV420,
            result,
        ),
{
    yuv_to_rgbx(
        y_plane,
        y_stride,
        u_plane,
        u_stride,
        v_plane,
        v_stride,
        rgba,
        rgba_stride,
        width,
        height,
        range,
        matrix,
        YuvSourceChannels::Rgba,
        YuvChromaSample::YUV420,
    )
}

/// Converts planar YUV 4:2:0 to an interleaved BGRA image. Alpha is set to 255.
pub fn yuv420_to_bgra(
    y_plane: &[u8],
    y_stride: u32,
    u_plane: &[u8],
    u_stride: u32,
    v_plane: &[u8],
    v_stride: u32,
    bgra: &mut [u8],
    bgra_stride: u32,
    width: u32,
    height: u32,
    range: YuvRange,
    matrix: YuvStandardMatrix,
) -> (result: Result<(), YuvError>)
    ensures
        yuv_to_rgbx_post(
            y_plane@,
            y_stride as int,
            u_plane@,
            u_stride as int,
            v_plane@,
            v_stride as int,
            None,
            0,
            false,
            old(bgra)@,
            final(bgra)@,
            bgra_stride as int,
            width as int,
            height as int,
            range,
            matrix,
            YuvSourceChannels::Bgra,
            YuvChromaSample::YUV420,
            result,
        ),
{
    yuv_to_rgbx(
        y_plane,
        y_stride,
        u_plane,
        u_stride,
        v_plane,
        v_stride,
        bgra,
        bgra_stride,
        width,
        height,
        range,
        matrix,
        YuvSourceChannels::Bgra,
        YuvChromaSample::YUV420,
    )
}

/// Converts planar YUV 4:2:0 to an interleaved BGR image.
pub fn yuv420_to_bgr(
    y_plane: &[u8],
    y_stride: u32,
    u_plane: &[u8],
    u_stride: u32,
    v_plane: &[u8],
    v_stride: u32,
    bgr: &mut [u8],
    bgr_stride: u32,
    width: u32,
    height: u32,
    range: YuvRange,
    matrix: YuvStandardMatrix,
) -> (result: Result<(), YuvError>)
    ensures
        yuv_to_rgbx_post(
            y_plane@,
            y_stride as int,
            u_plane@,
            u_stride as int,
            v_plane@,
            v_stride as int,
            None,
            0,
            false,
            old(bgr)@,
            final(bgr)@,
            bgr_stride as int,
            width as int,
            height as int,
            range,
            matrix,
            YuvSourceChannels::Bgr,
            YuvChromaSample::YUV420,
            result,
        ),
{
    yuv_to_rgbx(
        y_plane,
        y_stride,
        u_plane,
        u_stride,
        v_plane,
        v_stride,
        bgr,
        bgr_stride,
        width,
        height,
        range,
        matrix,
        YuvSourceChannels::Bgr,
        YuvChromaSample::YUV420,
    )
}

/// Converts planar YUV 4:2:2 to an interleaved RGB image.
pub fn yuv422_to_rgb(
    y_plane: &[u8],
    y_stride: u32,
    u_plane: &[u8],
    u_stride: u32,
    v_plane: &[u8],
    v_stride: u32,
    rgb: &mut [u8],
    rgb_stride: u32,
    width: u32,
    height: u32,
    range: YuvRange,
    matrix: YuvStandardMatrix,
) -> (result: Result<(), YuvError>)
    ensures
        yuv_to_rgbx_post(
            y_plane@,
            y_stride as int,
            u_plane@,
            u_stride as int,
            v_plane@,
            v_stride as int,
            None,
            0,
            false,
            old(rgb)@,
            final(rgb)@,
            rgb_stride as int,
            width as int,
            height as int,
            range,
            matrix,
            YuvSourceChannels::Rgb,
            YuvChromaSample::YUV422,
            result,
        ),
{
    yuv_to_rgbx(
        y_plane,
        y_stride,
        u_plane,
        u_stride,
        v_plane,
        v_stride,
        rgb,
        rgb_stride,
        width,
        height,
        range,
        matrix,
        YuvSourceChannels::Rgb,
        YuvChromaSample::YUV422,
    )
}

/// Converts planar YUV 4:2:2 to an interleaved RGBA image. Alpha is set to 255.
pub fn yuv422_to_rgba(
    y_plane: &[u8],
    y_stride: u32,
    u_plane: &[u8],
    u_stride: u32,
    v_plane: &[u8],
    v_stride: u32,
    rgba: &mut [u8],
    rgba_stride: u32,
    width: u32,
    height: u32,
    range: YuvRange,
    matrix: YuvStandardMatrix,
) -> (result: Result<(), YuvError>)
    ensures
        yuv_to_rgbx_post(
            y_plane@,
            y_stride as int,
            u_plane@,
            u_stride as int,
            v_plane@,
            v_stride as int,
            None,
            0,
            false,
            old(rgba)@,
            final(rgba)@,
            rgba_stride as int,
            width as int,
            height as int,
            range,
            matrix,
            YuvSourceChannels::Rgba,
            YuvChromaSample::YUV422,
            result,
        ),
{
    yuv_to_rgbx(
        y_plane,
        y_stride,
        u_plane,
        u_stride,
        v_plane,
        v_stride,
        rgba,
        rgba_stride,
        width,
        height,
        range,
        matrix,
        YuvSourceChannels::Rgba,
        YuvChromaSample::YUV422,
    )
}

/// Converts planar YUV 4:2:2 to an interleaved BGRA image. Alpha is set to 255.
pub fn yuv422_to_bgra(
    y_plane: &[u8],
    y_stride: u32,
    u_plane: &[u8],
    u_stride: u32,
    v_plane: &[u8],
    v_stride: u32,
    bgra: &mut [u8],
    bgra_stride: u32,
    width: u32,
    height: u32,
    range: YuvRange,
    matrix: YuvStandardMatrix,
) -> (result: Result<(), YuvError>)
    ensures
        yuv_to_rgbx_post(
            y_plane@,
            y_stride as int,
            u_plane@,
            u_stride as int,
            v_plane@,
            v_stride as int,
            None,
            0,
            false,
            old(bgra)@,
            final(bgra)@,
            bgra_stride as int,
            width as int,
            height as int,
            range,
            matrix,
            YuvSourceChannels::Bgra,
            YuvChromaSample::YUV422,
            result,
        ),
{
    yuv_to_rgbx(
        y_plane,
        y_stride,
        u_plane,
        u_stride,
        v_plane,
        v_stride,
        bgra,
        bgra_stride,
        width,
        height,
        range,
        matrix,
        YuvSourceChannels::Bgra,
        YuvChromaSample::YUV422,
    )
}

/// Converts planar YUV 4:2:2 to an interleaved BGR image.
pub fn yuv422_to_bgr(
    y_plane: &[u8],
    y_stride: u32,
    u_plane: &[u8],
    u_stride: u32,
    v_plane: &[u8],
    v_stride: u32,
    bgr: &mut [u8],
    bgr_stride: u32,
    width: u32,
    height: u32,
    range: YuvRange,
    matrix: YuvStandardMatrix,
) -> (result: Result<(), YuvError>)
    ensures
        yuv_to_rgbx_post(
            y_plane@,
            y_stride as int,
            u_plane@,
            u_stride as int,
            v_plane@,
            v_stride as int,
            None,
            0,
            false,
            old(bgr)@,
            final(bgr)@,
            bgr_stride as int,
            width as int,
            height as int,
            range,
            matrix,
            YuvSourceChannels::Bgr,
            YuvChromaSample::YUV422,
            result,
        ),
{
    yuv_to_rgbx(
        y_plane,
        y_stride,
        u_plane,
        u_stride,
        v_plane,
        v_stride,
        bgr,
        bgr_stride,
        width,
        height,
        range,
        matrix,
        YuvSourceChannels::Bgr,
        YuvChromaSample::YUV422,
    )
}

/// Converts planar YUV 4:4:4 to an interleaved RGB image.
pub fn yuv444_to_rgb(
    y_plane: &[u8],
    y_stride: u32,
    u_plane: &[u8],
    u_stride: u32,
    v_plane: &[u8],
    v_stride: u32,
    rgb: &mut [u8],
    rgb_stride: u32,
    width: u32,
    height: u32,
    range: YuvRange,
    matrix: YuvStandardMatrix,
) -> (result: Result<(), YuvError>)
    ensures
        yuv_to_rgbx_post(
            y_plane@,
            y_stride as int,
            u_plane@,
            u_stride as int,
            v_plane@,
            v_stride as int,
            None,
            0,
            false,
            old(rgb)@,
            final(rgb)@,
            rgb_stride as int,
            width as int,
            height as int,
            range,
            matrix,
            YuvSourceChannels::Rgb,
            YuvChromaSample::YUV444,
            result,
        ),
{
    yuv_to_rgbx(
        y_plane,
        y_stride,
        u_plane,
        u_stride,
        v_plane,
        v_stride,
        rgb,
        rgb_stride,
        width,
        height,
        range,
        matrix,
        YuvSourceChannels::Rgb,
        YuvChromaSample::YUV444,
    )
}

/// Converts planar YUV 4:4:4 to an interleaved RGBA image. Alpha is set to 255.
pub fn yuv444_to_rgba(
    y_plane: &[u8],
    y_stride: u32,
    u_plane: &[u8],
    u_stride: u32,
    v_plane: &[u8],
    v_stride: u32,
    rgba: &mut [u8],
    rgba_stride: u32,
    width: u32,
    height: u32,
    range: YuvRange,
    matrix: YuvStandardMatrix,
) -> (result: Result<(), YuvError>)
    ensures
        yuv_to_rgbx_post(
            y_plane@,
            y_stride as int,
            u_plane@,
            u_stride as int,
            v_plane@,
            v_stride as int,
            None,
            0,
            false,
            old(rgba)@,
            final(rgba)@,
            rgba_stride as int,
            width as int,
            height as int,
            range,
            matrix,
            YuvSourceChannels::Rgba,
            YuvChromaSample::YUV444,
            result,
        ),
{
    yuv_to_rgbx(
        y_plane,
        y_stride,
        u_plane,
        u_stride,
        v_plane,
        v_stride,
        rgba,
        rgba_stride,
        width,
        height,
        range,
        matrix,
        YuvSourceChannels::Rgba,
        YuvChromaSample::YUV444,
    )
}

/// Converts planar YUV 4:4:4 to an interleaved BGRA image. Alpha is set to 255.
pub fn yuv444_to_bgra(
    y_plane: &[u8],
    y_stride: u32,
    u_plane: &[u8],
    u_stride: u32,
    v_plane: &[u8],
    v_stride: u32,
    bgra: &mut [u8],
    bgra_stride: u32,
    width: u32,
    height: u32,
    range: YuvRange,
    matrix: YuvStandardMatrix,
) -> (result: Result<(), YuvError>)
    ensures
        yuv_to_rgbx_post(
            y_plane@,
            y_stride as int,
            u_plane@,
            u_stride as int,
            v_plane@,
            v_stride as int,
            None,
            0,
            false,
            old(bgra)@,
            final(bgra)@,
            bgra_stride as int,
            width as int,
            height as int,
            range,
            matrix,
            YuvSourceChannels::Bgra,
            YuvChromaSample::YUV444,
            result,
        ),
{
    yuv_to_rgbx(
        y_plane,
        y_stride,
        u_plane,
        u_stride,
        v_plane,
        v_stride,
        bgra,
        bgra_stride,
        width,
        height,
        range,
        matrix,
        YuvSourceChannels::Bgra,
        YuvChromaSample::YUV444,
    )
}

/// Converts planar YUV 4:4:4 to an interleaved BGR image.
pub fn yuv444_to_bgr(
    y_plane: &[u8],
    y_stride: u32,
    u_plane: &[u8],
    u_stride: u32,
    v_plane: &[u8],
    v_stride: u32,
    bgr: &mut [u8],
    bgr_stride: u32,
    width: u32,
    height: u32,
    range: YuvRange,
    matrix: YuvStandardMatrix,
) -> (result: Result<(), YuvError>)
    ensures
        yuv_to_rgbx_post(
            y_plane@,
            y_stride as int,
            u_plane@,
            u_stride as int,
            v_plane@,
            v_stride as int,
            None,
            0,
            false,
            old(bgr)@,
            final(bgr)@,
            bgr_stride as int,
            width as int,
            height as int,
            range,
            matrix,
            YuvSourceChannels::Bgr,
            YuvChromaSample::YUV444,
            result,
        ),
{
    yuv_to_rgbx(
        y_plane,
        y_stride,
        u_plane,
        u_stride,
        v_plane,
        v_stride,
        bgr,
        bgr_stride,
        width,
        height,
        range,
        matrix,
        YuvSourceChannels::Bgr,
        YuvChromaSample::YUV444,
    )
}

/// Converts planar YUV 4:2:0 with an alpha plane to an interleaved RGBA
/// image. Alpha is copied; with `premultiply_alpha` each colour sample is
/// scaled by it first.
pub fn yuv420_with_alpha_to_rgba(
    y_plane: &[u8],
    y_stride: u32,
    u_plane: &[u8],
    u_stride: u32,
    v_plane: &[u8],
    v_stride: u32,
    a_plane: &[u8],
    a_stride: u32,
    rgba: &mut [u8],
    rgba_stride: u32,
    width: u32,
    height: u32,
    range: YuvRange,
    matrix: YuvStandardMatrix,
    premultiply_alpha: bool,
) -> (result: Result<(), YuvError>)
    ensures
        yuv_to_rgbx_post(
            y_plane@,
            y_stride as int,
            u_plane@,
            u_stride as int,
            v_plane@,
            v_stride as int,
            Some(a_plane@),
            a_stride as int,
            premultiply_alpha,
            old(rgba)@,
            final(rgba)@,
            rgba_stride as int,
            width as int,
            height as int,
            range,
            matrix,
            YuvSourceChannels::Rgba,
            YuvChromaSample::YUV420,
            result,
        ),
{
    yuv_with_alpha_to_rgbx(
        y_plane,
        y_stride,
        u_plane,
        u_stride,
        v_plane,
        v_stride,
        a_plane,
        a_stride,
        rgba,
        rgba_stride,
        width,
        height,
        range,
        matrix,
        premultiply_alpha,
        YuvSourceChannels::Rgba,
        YuvChromaSample::YUV420,
    )
}

/// Converts planar YUV 4:2:0 with an alpha plane to an interleaved BGRA
/// image. Alpha is copied; with `premultiply_alpha` each colour sample is
/// scaled by it first.
pub fn yuv420_with_alpha_to_bgra(
    y_plane: &[u8],
    y_stride: u32,
    u_plane: &[u8],
    u_stride: u32,
    v_plane: &[u8],
    v_stride: u32,
    a_plane: &[u8],
    a_stride: u32,
    bgra: &mut [u8],
    bgra_stride: u32,
    width: u32,
    height: u32,
    range: YuvRange,
    matrix: YuvStandardMatrix,
    premultiply_alpha: bool,
) -> (result: Result<(), YuvError>)
    ensures
        yuv_to_rgbx_post(
            y_plane@,
            y_stride as int,
            u_plane@,
            u_stride as int,
            v_plane@,
            v_stride as int,
            Some(a_plane@),
            a_stride as int,
            premultiply_alpha,
            old(bgra)@,
            final(bgra)@,
            bgra_stride as int,
            width as int,
            height as int,
            range,
            matrix,
            YuvSourceChannels::Bgra,
            YuvChromaSample::YUV420,
            result,
        ),
{
    yuv_with_alpha_to_rgbx(
        y_plane,
        y_stride,
        u_plane,
        u_stride,
        v_plane,
        v_stride,
        a_plane,
        a_stride,
        bgra,
        bgra_stride,
        width,
        height,
        range,
        matrix,
        premultiply_alpha,
        YuvSourceChannels::Bgra,
        YuvChromaSample::YUV420,
    )
}

/// Converts planar YUV 4:2:2 with an alpha plane to an interleaved RGBA
/// image. Alpha is copied; with `premultiply_alpha` each colour sample is
/// scaled by it first.
pub fn yuv422_with_alpha_to_rgba(
    y_plane: &[u8],
    y_stride: u32,
    u_plane: &[u8],
    u_stride: u32,
    v_plane: &[u8],
    v_stride: u32,
    a_plane: &[u8],
    a_stride: u32,
    rgba: &mut [u8],
    rgba_stride: u32,
    width: u32,
    height: u32,
    range: YuvRange,
    matrix: YuvStandardMatrix,
    premultiply_alpha: bool,
) -> (result: Result<(), YuvError>)
    ensures
        yuv_to_rgbx_post(
            y_plane@,
            y_stride as int,
            u_plane@,
            u_stride as int,
            v_plane@,
            v_stride as int,
            Some(a_plane@),
            a_stride as int,
            premultiply_alpha,
            old(rgba)@,
            final(rgba)@,
            rgba_stride as int,
            width as int,
            height as int,
            range,
            matrix,
            YuvSourceChannels::Rgba,
            YuvChromaSample::YUV422,
            result,
        ),
{
    yuv_with_alpha_to_rgbx(
        y_plane,
        y_stride,
        u_plane,
        u_stride,
        v_plane,
        v_stride,
        a_plane,
        a_stride,
        rgba,
        rgba_stride,
        width,
        height,
        range,
        matrix,
        premultiply_alpha,
        YuvSourceChannels::Rgba,
        YuvChromaSample::YUV422,
    )
}

/// Converts planar YUV 4:2:2 with an alpha plane to an interleaved BGRA
/// image. Alpha is copied; with `premultiply_alpha` each colour sample is
/// scaled by it first.
pub fn yuv422_with_alpha_to_bgra(
    y_plane: &[u8],
    y_stride: u32,
    u_plane: &[u8],
    u_stride: u32,
    v_plane: &[u8],
    v_stride: u32,
    a_plane: &[u8],
    a_stride: u32,
    bgra: &mut [u8],
    bgra_stride: u32,
    width: u32,
    height: u32,
    range: YuvRange,
    matrix: YuvStandardMatrix,
    premultiply_alpha: bool,
) -> (result: Result<(), YuvError>)
    ensures
        yuv_to_rgbx_post(
            y_plane@,
            y_stride as int,
            u_plane@,
            u_stride as int,
            v_plane@,
            v_stride as int,
            Some(a_plane@),
            a_stride as int,
            premultiply_alpha,
            old(bgra)@,
            final(bgra)@,
            bgra_stride as int,
            width as int,
            height as int,
            range,
            matrix,
            YuvSourceChannels::Bgra,
            YuvChromaSample::YUV422,
            result,
        ),
{
    yuv_with_alpha_to_rgbx(
        y_plane,
        y_stride,
        u_plane,
        u_stride,
        v_plane,
        v_stride,
        a_plane,
        a_stride,
        bgra,
        bgra_stride,
        width,
        height,
        range,
        matrix,
        premultiply_alpha,
        YuvSourceChannels::Bgra,
        YuvChromaSample::YUV422,
    )
}

/// Converts planar YUV 4:4:4 with an alpha plane to an interleaved RGBA
/// image. Alpha is copied; with `premultiply_alpha` each colour sample is
/// scaled by it first.
pub fn yuv444_with_alpha_to_rgba(
    y_plane: &[u8],
    y_stride: u32,
    u_plane: &[u8],
    u_stride: u32,
    v_plane: &[u8],
    v_stride: u32,
    a_plane: &[u8],
    a_stride: u32,
    rgba: &mut [u8],
    rgba_stride: u32,
    width: u32,
    height: u32,
    range: YuvRange,
    matrix: YuvStandardMatrix,
    premultiply_alpha: bool,
) -> (result: Result<(), YuvError>)
    ensures
        yuv_to_rgbx_post(
            y_plane@,
            y_stride as int,
            u_plane@,
            u_stride as int,
            v_plane@,
            v_stride as int,
            Some(a_plane@),
            a_stride as int,
            premultiply_alpha,
            old(rgba)@,
            final(rgba)@,
            rgba_stride as int,
            width as int,
            height as int,
            range,
            matrix,
            YuvSourceChannels::Rgba,
            YuvChromaSample::YUV444,
            result,
        ),
{
    yuv_with_alpha_to_rgbx(
        y_plane,
        y_stride,
        u_plane,
        u_stride,
        v_plane,
        v_stride,
        a_plane,
        a_stride,
        rgba,
        rgba_stride,
        width,
        height,
        range,
        matrix,
        premultiply_alpha,
        YuvSourceChannels::Rgba,
        YuvChromaSample::YUV444,
    )
}

/// Converts planar YUV 4:4:4 with an alpha plane to an interleaved BGRA
/// image. Alpha is copied; with `premultiply_alpha` each colour sample is
/// scaled by it first.
pub fn yuv444_with_alpha_to_bgra(
    y_plane: &[u8],
    y_stride: u32,
    u_plane: &[u8],
    u_stride: u32,
    v_plane: &[u8],
    v_stride: u32,
    a_plane: &[u8],
    a_stride: u32,
    bgra: &mut [u8],
    bgra_stride: u32,
    width: u32,
    height: u32,
    range: YuvRange,
    matrix: YuvStandardMatrix,
    premultiply_alpha: bool,
) -> (result: Result<(), YuvError>)
    ensures
        yuv_to_rgbx_post(
            y_plane@,
            y_stride as int,
            u_plane@,
            u_stride as int,
            v_plane@,
            v_stride as int,
            Some(a_plane@),
            a_stride as int,
            premultiply_alpha,
            old(bgra)@,
            final(bgra)@,
            bgra_stride as int,
            width as int,
            height as int,
            range,
            matrix,
            YuvSourceChannels::Bgra,
            YuvChromaSample::YUV444,
            result,
        ),
{
    yuv_with_alpha_to_rgbx(
        y_plane,
        y_stride,
        u_plane,
        u_stride,
        v_plane,
        v_stride,
        a_plane,
        a_stride,
        bgra,
        bgra_stride,
        width,
        height,
        range,
        matrix,
        premultiply_alpha,
        YuvSourceChannels::Bgra,
        YuvChromaSample::YUV444,
    )
}

} // verus!

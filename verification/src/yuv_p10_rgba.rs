//! Planar YUV of more than 8 bits, stored in 16-bit words, to interleaved
//! 8-bit RGB.

use crate::images::check_rgba_destination;
use crate::images::destination_fits;
use crate::images::YuvPlanarImage;
use crate::numerics::host_endianness;
use crate::numerics::power_of_two;
use crate::numerics::SampleLayout;
use crate::pixel::color_byte;
use crate::pixel::get_inverse_coefficients;
use crate::pixel::get_pixel_start;
use crate::pixel::inverse_coefficients;
use crate::pixel::pixel_of;
use crate::pixel::pixel_start;
use crate::pixel::Rgb;
use crate::pixel::Rounding;
use crate::pixel::slot_of;
use crate::pixel::spec_blue;
use crate::pixel::spec_green;
use crate::pixel::spec_red;
use crate::pixel::store_pixel;
use crate::pixel::yuv_to_rgb;
use crate::planes::cell;
use crate::planes::lemma_cell_order;
use crate::planes::lemma_len_fits;
use crate::planes::lemma_plane_row_written;
use crate::planes::lemma_row_extended;
use crate::planes::lemma_rows_fit;
use crate::planes::plane_written;
use crate::planes::row_written;
use crate::yuv_error::YuvError;
use crate::yuv_support::CbCrInverseTransform;
use crate::yuv_support::get_yuv_range;
use crate::yuv_support::lemma_yuv_range_bounds;
use crate::yuv_support::spec_yuv_range;
use crate::yuv_support::YuvBytesPacking;
use crate::yuv_support::YuvChromaRange;
use crate::yuv_support::YuvChromaSample;
use crate::yuv_support::YuvEndianness;
use crate::yuv_support::YuvRange;
use crate::yuv_support::YuvSourceChannels;
use crate::yuv_support::YuvStandardMatrix;
use vstd::arithmetic::power2::lemma2_to64;
use vstd::arithmetic::power2::pow2;
use vstd::prelude::*;

verus! {

/// The fractional bits of the coefficients that take Y, Cb, Cr of more than
/// 8 bits back to R, G, B.
pub const HIGH_DEPTH_PRECISION: u32 = 6;

/// How samples of `bit_depth` bits are brought to 8-bit colour: R, G, B are
/// computed at the depth of the source with 6 fractional bits, half of `2^6`
/// is added, and one shift takes off the fractional bits and the bits beyond
/// eight.
pub open spec fn high_depth_rounding(bit_depth: int) -> Rounding {
    Rounding { rounding: 32, shift: (bit_depth - 2) as u32, max: 255 }
}

/// The bit depths a plane of 16-bit words can hold.
pub open spec fn depth_supported(bit_depth: int) -> bool {
    8 <= bit_depth <= 16
}

/// Byte `j` of an interleaved row of 8-bit R, G, B (and alpha), from rows of
/// 16-bit words. Each word is brought to its sample first. Where chroma is
/// halved, the two columns of a pair use the same chroma sample. Alpha is
/// 255.
pub open spec fn p16_rgbx_byte(
    y_plane: Seq<u16>,
    y_offset: int,
    u_plane: Seq<u16>,
    u_offset: int,
    v_plane: Seq<u16>,
    v_offset: int,
    layout: SampleLayout,
    channels: YuvSourceChannels,
    sampling: YuvChromaSample,
    transform: CbCrInverseTransform<i32>,
    range: YuvChromaRange,
    mode: Rounding,
    j: int,
) -> u8 {
    let x = pixel_of(channels, j);
    let cx = sampling.chroma_column(x);
    let y = layout.decode(y_plane[y_offset + x]) as int;
    let cb = layout.decode(u_plane[u_offset + cx]) as int;
    let cr = layout.decode(v_plane[v_offset + cx]) as int;
    color_byte(
        channels,
        spec_red(transform, range, mode, y, cr),
        spec_green(transform, range, mode, y, cb, cr),
        spec_blue(transform, range, mode, y, cb),
        255,
        slot_of(channels, j),
    )
}

/// An interleaved row as a function of the byte's place in it.
pub open spec fn p16_rgbx_row(
    y_plane: Seq<u16>,
    y_offset: int,
    u_plane: Seq<u16>,
    u_offset: int,
    v_plane: Seq<u16>,
    v_offset: int,
    layout: SampleLayout,
    channels: YuvSourceChannels,
    sampling: YuvChromaSample,
    transform: CbCrInverseTransform<i32>,
    range: YuvChromaRange,
    mode: Rounding,
) -> spec_fn(int) -> u8 {
    |j: int|
        p16_rgbx_byte(
            y_plane,
            y_offset,
            u_plane,
            u_offset,
            v_plane,
            v_offset,
            layout,
            channels,
            sampling,
            transform,
            range,
            mode,
            j,
        )
}

/// The interleaved image as a function of row and byte.
pub open spec fn p16_rgbx_image(
    image: &YuvPlanarImage<u16>,
    layout: SampleLayout,
    channels: YuvSourceChannels,
    sampling: YuvChromaSample,
    transform: CbCrInverseTransform<i32>,
    range: YuvChromaRange,
    mode: Rounding,
) -> spec_fn(int, int) -> u8 {
    |row: int, j: int|
        p16_rgbx_byte(
            image.y_plane@,
            cell(image.y_stride as int, row, 0),
            image.u_plane@,
            cell(image.u_stride as int, sampling.chroma_row(row), 0),
            image.v_plane@,
            cell(image.v_stride as int, sampling.chroma_row(row), 0),
            layout,
            channels,
            sampling,
            transform,
            range,
            mode,
            j,
        )
}

/// What a conversion of a planar image of 16-bit words to interleaved 8-bit
/// RGB leaves behind, on a machine of byte order `host`. A bit depth outside
/// 8 to 16 is refused, then a degenerate matrix, then planes that do not fit;
/// a refusal writes nothing. Otherwise every pixel is written and the padding
/// of the destination is untouched.
pub open spec fn yuv_p16_to_image_post(
    image: &YuvPlanarImage<u16>,
    before: Seq<u8>,
    after: Seq<u8>,
    rgba_stride: int,
    range: YuvRange,
    matrix: YuvStandardMatrix,
    bit_depth: int,
    channels: YuvSourceChannels,
    sampling: YuvChromaSample,
    endianness: YuvEndianness,
    packing: YuvBytesPacking,
    host: YuvEndianness,
    result: Result<(), YuvError>,
) -> bool {
    if !depth_supported(bit_depth) {
        &&& result == Err::<(), YuvError>(YuvError::UnsupportedBitDepth)
        &&& after == before
    } else if !matrix.is_valid() {
        &&& result == Err::<(), YuvError>(YuvError::InvalidMatrix)
        &&& after == before
    } else if !(image.fits(sampling) && destination_fits(
        before.len() as int,
        rgba_stride,
        image.width as int,
        image.height as int,
        channels,
    )) {
        &&& result == Err::<(), YuvError>(YuvError::BufferSizeMismatch)
        &&& after == before
    } else {
        &&& result is Ok
        &&& plane_written(
            before,
            after,
            rgba_stride,
            pixel_start(channels, image.width as int),
            image.height as int,
            p16_rgbx_image(
                image,
                SampleLayout { endianness, packing, bit_depth: bit_depth as u32, host },
                channels,
                sampling,
                inverse_coefficients(
                    range,
                    matrix,
                    bit_depth as nat,
                    pow2(bit_depth as nat) - 1,
                    HIGH_DEPTH_PRECISION as nat,
                ),
                spec_yuv_range(bit_depth as nat, range),
                high_depth_rounding(bit_depth),
            ),
        )
    }
}

/// [`yuv_p16_to_image_post`] on a machine of either byte order.
pub open spec fn yuv_p16_to_image_post_on_any_host(
    image: &YuvPlanarImage<u16>,
    before: Seq<u8>,
    after: Seq<u8>,
    rgba_stride: int,
    range: YuvRange,
    matrix: YuvStandardMatrix,
    bit_depth: int,
    channels: YuvSourceChannels,
    sampling: YuvChromaSample,
    endianness: YuvEndianness,
    packing: YuvBytesPacking,
    result: Result<(), YuvError>,
) -> bool {
    ||| yuv_p16_to_image_post(
        image,
        before,
        after,
        rgba_stride,
        range,
        matrix,
        bit_depth,
        channels,
        sampling,
        endianness,
        packing,
        YuvEndianness::BigEndian,
        result,
    )
    ||| yuv_p16_to_image_post(
        image,
        before,
        after,
        rgba_stride,
        range,
        matrix,
        bit_depth,
        channels,
        sampling,
        endianness,
        packing,
        YuvEndianness::LittleEndian,
        result,
    )
}

/// Converts one row of 16-bit words.
pub fn yuv_p16_to_rgbx_row(
    y_plane: &[u16],
    y_offset: usize,
    u_plane: &[u16],
    u_offset: usize,
    v_plane: &[u16],
    v_offset: usize,
    rgba: &mut [u8],
    dst_offset: usize,
    width: u32,
    range: &YuvChromaRange,
    transform: &CbCrInverseTransform<i32>,
    layout: SampleLayout,
    mode: Rounding,
    channels: YuvSourceChannels,
    sampling: YuvChromaSample,
)
    requires
        range.fits(0xffff),
        layout.wf(),
        mode.wf(),
        mode.max <= 255,
        y_offset + width <= y_plane@.len(),
        u_offset + sampling.chroma_width(width as int) <= u_plane@.len(),
        v_offset + sampling.chroma_width(width as int) <= v_plane@.len(),
        dst_offset + pixel_start(channels, width as int) <= old(rgba)@.len(),
    ensures
        row_written(
            old(rgba)@,
            final(rgba)@,
            dst_offset as int,
            pixel_start(channels, width as int),
            p16_rgbx_row(
                y_plane@,
                y_offset as int,
                u_plane@,
                u_offset as int,
                v_plane@,
                v_offset as int,
                layout,
                channels,
                sampling,
                *transform,
                *range,
                mode,
            ),
        ),
{
    proof {
        lemma_len_fits(y_plane);
        lemma_len_fits(u_plane);
        lemma_len_fits(v_plane);
        lemma_len_fits(rgba);
    }
    let halved: bool = sampling != YuvChromaSample::YUV444;
    let ghost row = p16_rgbx_row(
        y_plane@,
        y_offset as int,
        u_plane@,
        u_offset as int,
        v_plane@,
        v_offset as int,
        layout,
        channels,
        sampling,
        *transform,
        *range,
        mode,
    );
    let mut x: usize = 0;
    while x < width as usize
        invariant
            x <= width,
            halved == sampling.is_halved(),
            range.fits(0xffff),
            layout.wf(),
            mode.wf(),
            mode.max <= 255,
            row == p16_rgbx_row(
                y_plane@,
                y_offset as int,
                u_plane@,
                u_offset as int,
                v_plane@,
                v_offset as int,
                layout,
                channels,
                sampling,
                *transform,
                *range,
                mode,
            ),
            y_offset + width <= y_plane@.len() <= usize::MAX,
            u_offset + sampling.chroma_width(width as int) <= u_plane@.len() <= usize::MAX,
            v_offset + sampling.chroma_width(width as int) <= v_plane@.len() <= usize::MAX,
            dst_offset + pixel_start(channels, width as int) <= rgba@.len() <= usize::MAX,
            rgba@.len() == old(rgba)@.len(),
            forall|i: int|
                dst_offset <= i < dst_offset + pixel_start(channels, x as int) ==> #[trigger] rgba@[i]
                    == row(i - dst_offset),
            forall|i: int|
                0 <= i < rgba@.len() && !(dst_offset <= i < dst_offset + pixel_start(
                    channels,
                    x as int,
                )) ==> #[trigger] rgba@[i] == old(rgba)@[i],
        decreases width - x,
    {
        let cx: usize = if halved {
            x / 2
        } else {
            x
        };
        let y_value: u16 = layout.load(y_plane[y_offset + x]);
        let cb_value: u16 = layout.load(u_plane[u_offset + cx]);
        let cr_value: u16 = layout.load(v_plane[v_offset + cx]);
        let rgb: Rgb = yuv_to_rgb(transform, range, mode, y_value, cb_value, cr_value);
        let start: usize = get_pixel_start(channels, x);
        let ghost earlier = rgba@;
        store_pixel(rgba, dst_offset + start, channels, rgb.r as u8, rgb.g as u8, rgb.b as u8, 255);
        proof {
            let count = channels.spec_channels_count();
            assert forall|i: int|
                dst_offset + start <= i < dst_offset + start + count implies #[trigger] rgba@[i]
                == row(i - dst_offset) by {
                let j = i - dst_offset;
                assert(pixel_of(channels, j) == x);
                assert(slot_of(channels, j) == i - (dst_offset + start));
            }
            lemma_row_extended(
                old(rgba)@,
                earlier,
                rgba@,
                dst_offset as int,
                start as int,
                count,
                row,
            );
        }
        x += 1;
    }
}

/// Converts a planar image of 16-bit words to an interleaved 8-bit image, on
/// a machine whose byte order is `host`.
pub fn yuv_p16_to_image_on_host(
    planar_image: &YuvPlanarImage<u16>,
    rgba: &mut [u8],
    rgba_stride: u32,
    range: YuvRange,
    matrix: YuvStandardMatrix,
    bit_depth: usize,
    channels: YuvSourceChannels,
    sampling: YuvChromaSample,
    endianness: YuvEndianness,
    packing: YuvBytesPacking,
    host: YuvEndianness,
) -> (result: Result<(), YuvError>)
    ensures
        yuv_p16_to_image_post(
            planar_image,
            old(rgba)@,
            final(rgba)@,
            rgba_stride as int,
            range,
            matrix,
            bit_depth as int,
            channels,
            sampling,
            endianness,
            packing,
            host,
            result,
        ),
{
    if bit_depth < 8 || bit_depth > 16 {
        return Err(YuvError::UnsupportedBitDepth);
    }
    let depth: u32 = bit_depth as u32;
    let max_range: u32 = (power_of_two(depth) - 1) as u32;
    proof {
        lemma_yuv_range_bounds(depth as nat, range);
        lemma2_to64();
        lemma_len_fits(planar_image.y_plane);
        lemma_len_fits(planar_image.u_plane);
        lemma_len_fits(planar_image.v_plane);
        lemma_len_fits(rgba);
    }
    let transform: CbCrInverseTransform<i32> = match get_inverse_coefficients(
        range,
        matrix,
        depth,
        max_range,
        HIGH_DEPTH_PRECISION,
    ) {
        Ok(transform) => transform,
        Err(error) => { return Err(error); },
    };
    if planar_image.check_constraints(sampling).is_err() {
        return Err(YuvError::BufferSizeMismatch);
    }
    if check_rgba_destination(
        rgba,
        rgba_stride,
        planar_image.width,
        planar_image.height,
        channels,
    ).is_err() {
        return Err(YuvError::BufferSizeMismatch);
    }
    let width: u32 = planar_image.width;
    let height: u32 = planar_image.height;
    if width == 0 {
        return Ok(());
    }
    let chroma_range: YuvChromaRange = get_yuv_range(depth, range);
    let layout = SampleLayout { endianness, packing, bit_depth: depth, host };
    let mode = Rounding { rounding: 32, shift: depth - 2, max: 255 };
    let ghost image = p16_rgbx_image(
        planar_image,
        layout,
        channels,
        sampling,
        transform,
        chroma_range,
        mode,
    );
    let ghost row_len = pixel_start(channels, width as int);
    let ghost chroma_height = sampling.chroma_height(height as int);
    let mut y: usize = 0;
    while y < height as usize
        invariant
            y <= height,
            width > 0,
            width == planar_image.width,
            height == planar_image.height,
            chroma_range.fits(0xffff),
            layout.wf(),
            mode.wf(),
            mode.max == 255,
            planar_image.y_plane@.len() <= usize::MAX,
            planar_image.u_plane@.len() <= usize::MAX,
            planar_image.v_plane@.len() <= usize::MAX,
            rgba@.len() == old(rgba)@.len() <= usize::MAX,
            row_len == pixel_start(channels, width as int),
            chroma_height == sampling.chroma_height(height as int),
            planar_image.fits(sampling),
            destination_fits(
                rgba@.len() as int,
                rgba_stride as int,
                width as int,
                height as int,
                channels,
            ),
            image == p16_rgbx_image(
                planar_image,
                layout,
                channels,
                sampling,
                transform,
                chroma_range,
                mode,
            ),
            plane_written(old(rgba)@, rgba@, rgba_stride as int, row_len, y as int, image),
        decreases height - y,
    {
        let chroma_y: usize = if sampling == YuvChromaSample::YUV420 {
            y / 2
        } else {
            y
        };
        proof {
            lemma_cell_order(planar_image.y_stride as int, y as int, 0, height as int);
            lemma_cell_order(rgba_stride as int, y as int, 0, height as int);
            lemma_cell_order(planar_image.u_stride as int, chroma_y as int, 0, chroma_height);
            lemma_cell_order(planar_image.v_stride as int, chroma_y as int, 0, chroma_height);
            lemma_rows_fit(rgba_stride as int, y as int, height as int);
        }
        let y_offset: usize = y * (planar_image.y_stride as usize);
        let u_offset: usize = chroma_y * (planar_image.u_stride as usize);
        let v_offset: usize = chroma_y * (planar_image.v_stride as usize);
        let dst_offset: usize = y * (rgba_stride as usize);
        let ghost middle = rgba@;
        yuv_p16_to_rgbx_row(
            planar_image.y_plane,
            y_offset,
            planar_image.u_plane,
            u_offset,
            planar_image.v_plane,
            v_offset,
            rgba,
            dst_offset,
            width,
            &chroma_range,
            &transform,
            layout,
            mode,
            channels,
            sampling,
        );
        proof {
            assert(row_written(
                middle,
                rgba@,
                cell(rgba_stride as int, y as int, 0),
                row_len,
                |j: int| image(y as int, j),
            ));
            lemma_plane_row_written(
                old(rgba)@,
                middle,
                rgba@,
                rgba_stride as int,
                row_len,
                y as int,
                y as int,
                image,
                image,
            );
        }
        y += 1;
    }
    Ok(())
}

/// Converts a planar image of 16-bit words to an interleaved 8-bit image. The
/// byte order of the machine is asked for once, and the conversion is that of
/// [`yuv_p16_to_image_on_host`] for the answer.
pub fn yuv_p16_to_image_impl(
    planar_image: &YuvPlanarImage<u16>,
    rgba: &mut [u8],
    rgba_stride: u32,
    range: YuvRange,
    matrix: YuvStandardMatrix,
    bit_depth: usize,
    channels: YuvSourceChannels,
    sampling: YuvChromaSample,
    endianness: YuvEndianness,
    packing: YuvBytesPacking,
) -> (result: Result<(), YuvError>)
    ensures
        yuv_p16_to_image_post_on_any_host(
            planar_image,
            old(rgba)@,
            final(rgba)@,
            rgba_stride as int,
            range,
            matrix,
            bit_depth as int,
            channels,
            sampling,
            endianness,
            packing,
            result,
        ),
{
    let host: YuvEndianness = host_endianness();
    yuv_p16_to_image_on_host(
        planar_image,
        rgba,
        rgba_stride,
        range,
        matrix,
        bit_depth,
        channels,
        sampling,
        endianness,
        packing,
        host,
    )
}

/// Converts a planar 4:2:0 image of 10-bit samples in 16-bit words to an
/// interleaved 8-bit BGRA image. Alpha is set to 255.
pub fn yuv420_p10_to_bgra(
    planar_image: &YuvPlanarImage<u16>,
    bgra: &mut [u8],
    bgra_stride: u32,
    range: YuvRange,
    matrix: YuvStandardMatrix,
    endianness: YuvEndianness,
    bytes_packing: YuvBytesPacking,
) -> (result: Result<(), YuvError>)
    ensures
        yuv_p16_to_image_post_on_any_host(
            planar_image,
            old(bgra)@,
            final(bgra)@,
            bgra_stride as int,
            range,
            matrix,
            10,
            YuvSourceChannels::Bgra,
            YuvChromaSample::YUV420,
            endianness,
            bytes_packing,
            result,
        ),
{
    yuv_p16_to_image_impl(
        planar_image,
        bgra,
        bgra_stride,
        range,
        matrix,
        10,
        YuvSourceChannels::Bgra,
        YuvChromaSample::YUV420,
        endianness,
        bytes_packing,
    )
}

/// Converts a planar 4:2:0 image of 10-bit samples in 16-bit words to an
/// interleaved 8-bit BGR image.
pub fn yuv420_p10_to_bgr(
    planar_image: &YuvPlanarImage<u16>,
    bgr: &mut [u8],
    bgr_stride: u32,
    range: YuvRange,
    matrix: YuvStandardMatrix,
    endianness: YuvEndianness,
    bytes_packing: YuvBytesPacking,
) -> (result: Result<(), YuvError>)
    ensures
        yuv_p16_to_image_post_on_any_host(
            planar_image,
            old(bgr)@,
            final(bgr)@,
            bgr_stride as int,
            range,
            matrix,
            10,
            YuvSourceChannels::Bgr,
            YuvChromaSample::YUV420,
            endianness,
            bytes_packing,
            result,
        ),
{
    yuv_p16_to_image_impl(
        planar_image,
        bgr,
        bgr_stride,
        range,
        matrix,
        10,
        YuvSourceChannels::Bgr,
        YuvChromaSample::YUV420,
        endianness,
        bytes_packing,
    )
}

/// Converts a planar 4:2:2 image of 10-bit samples in 16-bit words to an
/// interleaved 8-bit BGRA image. Alpha is set to 255.
pub fn yuv422_p10_to_bgra(
    planar_image: &YuvPlanarImage<u16>,
    bgra: &mut [u8],
    bgra_stride: u32,
    range: YuvRange,
    matrix: YuvStandardMatrix,
    endianness: YuvEndianness,
    bytes_packing: YuvBytesPacking,
) -> (result: Result<(), YuvError>)
    ensures
        yuv_p16_to_image_post_on_any_host(
            planar_image,
            old(bgra)@,
            final(bgra)@,
            bgra_stride as int,
            range,
            matrix,
            10,
            YuvSourceChannels::Bgra,
            YuvChromaSample::YUV422,
            endianness,
            bytes_packing,
            result,
        ),
{
    yuv_p16_to_image_impl(
        planar_image,
        bgra,
        bgra_stride,
        range,
        matrix,
        10,
        YuvSourceChannels::Bgra,
        YuvChromaSample::YUV422,
        endianness,
        bytes_packing,
    )
}

/// Converts a planar 4:2:2 image of 10-bit samples in 16-bit words to an
/// interleaved 8-bit BGR image.
pub fn yuv422_p10_to_bgr(
    planar_image: &YuvPlanarImage<u16>,
    bgr: &mut [u8],
    bgr_stride: u32,
    range: YuvRange,
    matrix: YuvStandardMatrix,
    endianness: YuvEndianness,
    bytes_packing: YuvBytesPacking,
) -> (result: Result<(), YuvError>)
    ensures
        yuv_p16_to_image_post_on_any_host(
            planar_image,
            old(bgr)@,
            final(bgr)@,
            bgr_stride as int,
            range,
            matrix,
            10,
            YuvSourceChannels::Bgr,
            YuvChromaSample::YUV422,
            endianness,
            bytes_packing,
            result,
        ),
{
    yuv_p16_to_image_impl(
        planar_image,
        bgr,
        bgr_stride,
        range,
        matrix,
        10,
        YuvSourceChannels::Bgr,
        YuvChromaSample::YUV422,
        endianness,
        bytes_packing,
    )
}

/// Converts a planar 4:2:0 image of 10-bit samples in 16-bit words to an
/// interleaved 8-bit RGBA image. Alpha is set to 255.
pub fn yuv420_p10_to_rgba(
    planar_image: &YuvPlanarImage<u16>,
    rgba: &mut [u8],
    rgba_stride: u32,
    range: YuvRange,
    matrix: YuvStandardMatrix,
    endianness: YuvEndianness,
    bytes_packing: YuvBytesPacking,
) -> (result: Result<(), YuvError>)
    ensures
        yuv_p16_to_image_post_on_any_host(
            planar_image,
            old(rgba)@,
            final(rgba)@,
            rgba_stride as int,
            range,
            matrix,
            10,
            YuvSourceChannels::Rgba,
            YuvChromaSample::YUV420,
            endianness,
            bytes_packing,
            result,
        ),
{
    yuv_p16_to_image_impl(
        planar_image,
        rgba,
        rgba_stride,
        range,
        matrix,
        10,
        YuvSourceChannels::Rgba,
        YuvChromaSample::YUV420,
        endianness,
        bytes_packing,
    )
}

/// Converts a planar 4:2:0 image of 10-bit samples in 16-bit words to an
/// interleaved 8-bit RGB image.
pub fn yuv420_p10_to_rgb(
    planar_image: &YuvPlanarImage<u16>,
    rgb: &mut [u8],
    rgb_stride: u32,
    range: YuvRange,
    matrix: YuvStandardMatrix,
    endianness: YuvEndianness,
    bytes_packing: YuvBytesPacking,
) -> (result: Result<(), YuvError>)
    ensures
        yuv_p16_to_image_post_on_any_host(
            planar_image,
            old(rgb)@,
            final(rgb)@,
            rgb_stride as int,
            range,
            matrix,
            10,
            YuvSourceChannels::Rgb,
            YuvChromaSample::YUV420,
            endianness,
            bytes_packing,
            result,
        ),
{
    yuv_p16_to_image_impl(
        planar_image,
        rgb,
        rgb_stride,
        range,
        matrix,
        10,
        YuvSourceChannels::Rgb,
        YuvChromaSample::YUV420,
        endianness,
        bytes_packing,
    )
}

/// Converts a planar 4:2:2 image of 10-bit samples in 16-bit words to an
/// interleaved 8-bit RGBA image. Alpha is set to 255.
pub fn yuv422_p10_to_rgba(
    planar_image: &YuvPlanarImage<u16>,
    rgba: &mut [u8],
    rgba_stride: u32,
    range: YuvRange,
    matrix: YuvStandardMatrix,
    endianness: YuvEndianness,
    bytes_packing: YuvBytesPacking,
) -> (result: Result<(), YuvError>)
    ensures
        yuv_p16_to_image_post_on_any_host(
            planar_image,
            old(rgba)@,
            final(rgba)@,
            rgba_stride as int,
            range,
            matrix,
            10,
            YuvSourceChannels::Rgba,
            YuvChromaSample::YUV422,
            endianness,
            bytes_packing,
            result,
        ),
{
    yuv_p16_to_image_impl(
        planar_image,
        rgba,
        rgba_stride,
        range,
        matrix,
        10,
        YuvSourceChannels::Rgba,
        YuvChromaSample::YUV422,
        endianness,
        bytes_packing,
    )
}

/// Converts a planar 4:2:2 image of 10-bit samples in 16-bit words to an
/// interleaved 8-bit RGB image.
pub fn yuv422_p10_to_rgb(
    planar_image: &YuvPlanarImage<u16>,
    rgb: &mut [u8],
    rgb_stride: u32,
    range: YuvRange,
    matrix: YuvStandardMatrix,
    endianness: YuvEndianness,
    bytes_packing: YuvBytesPacking,
) -> (result: Result<(), YuvError>)
    ensures
        yuv_p16_to_image_post_on_any_host(
            planar_image,
            old(rgb)@,
            final(rgb)@,
            rgb_stride as int,
            range,
            matrix,
            10,
            YuvSourceChannels::Rgb,
            YuvChromaSample::YUV422,
            endianness,
            bytes_packing,
            result,
        ),
{
    yuv_p16_to_image_impl(
        planar_image,
        rgb,
        rgb_stride,
        range,
        matrix,
        10,
        YuvSourceChannels::Rgb,
        YuvChromaSample::YUV422,
        endianness,
        bytes_packing,
    )
}

/// Converts a planar 4:4:4 image of 10-bit samples in 16-bit words to an
/// interleaved 8-bit RGBA image. Alpha is set to 255.
pub fn yuv444_p10_to_rgba(
    planar_image: &YuvPlanarImage<u16>,
    rgba: &mut [u8],
    rgba_stride: u32,
    range: YuvRange,
    matrix: YuvStandardMatrix,
    endianness: YuvEndianness,
    bytes_packing: YuvBytesPacking,
) -> (result: Result<(), YuvError>)
    ensures
        yuv_p16_to_image_post_on_any_host(
            planar_image,
            old(rgba)@,
            final(rgba)@,
            rgba_stride as int,
            range,
            matrix,
            10,
            YuvSourceChannels::Rgba,
            YuvChromaSample::YUV444,
            endianness,
            bytes_packing,
            result,
        ),
{
    yuv_p16_to_image_impl(
        planar_image,
        rgba,
        rgba_stride,
        range,
        matrix,
        10,
        YuvSourceChannels::Rgba,
        YuvChromaSample::YUV444,
        endianness,
        bytes_packing,
    )
}

/// Converts a planar 4:4:4 image of 10-bit samples in 16-bit words to an
/// interleaved 8-bit RGB image.
pub fn yuv444_p10_to_rgb(
    planar_image: &YuvPlanarImage<u16>,
    rgb: &mut [u8],
    rgb_stride: u32,
    range: YuvRange,
    matrix: YuvStandardMatrix,
    endianness: YuvEndianness,
    bytes_packing: YuvBytesPacking,
) -> (result: Result<(), YuvError>)
    ensures
        yuv_p16_to_image_post_on_any_host(
            planar_image,
            old(rgb)@,
            final(rgb)@,
            rgb_stride as int,
            range,
            matrix,
            10,
            YuvSourceChannels::Rgb,
            YuvChromaSample::YUV444,
            endianness,
            bytes_packing,
            result,
        ),
{
    yuv_p16_to_image_impl(
        planar_image,
        rgb,
        rgb_stride,
        range,
        matrix,
        10,
        YuvSourceChannels::Rgb,
        YuvChromaSample::YUV444,
        endianness,
        bytes_packing,
    )
}

/// Converts a planar 4:4:4 image of 10-bit samples in 16-bit words to an
/// interleaved 8-bit BGRA image. Alpha is set to 255.
pub fn yuv444_p10_to_bgra(
    planar_image: &YuvPlanarImage<u16>,
    bgra: &mut [u8],
    bgra_stride: u32,
    range: YuvRange,
    matrix: YuvStandardMatrix,
    endianness: YuvEndianness,
    bytes_packing: YuvBytesPacking,
) -> (result: Result<(), YuvError>)
    ensures
        yuv_p16_to_image_post_on_any_host(
            planar_image,
            old(bgra)@,
            final(bgra)@,
            bgra_stride as int,
            range,
            matrix,
            10,
            YuvSourceChannels::Bgra,
            YuvChromaSample::YUV444,
            endianness,
            bytes_packing,
            result,
        ),
{
    yuv_p16_to_image_impl(
        planar_image,
        bgra,
        bgra_stride,
        range,
        matrix,
        10,
        YuvSourceChannels::Bgra,
        YuvChromaSample::YUV444,
        endianness,
        bytes_packing,
    )
}

/// Converts a planar 4:4:4 image of 10-bit samples in 16-bit words to an
/// interleaved 8-bit BGR image.
pub fn yuv444_p10_to_bgr(
    planar_image: &YuvPlanarImage<u16>,
    bgr: &mut [u8],
    bgr_stride: u32,
    range: YuvRange,
    matrix: YuvStandardMatrix,
    endianness: YuvEndianness,
    bytes_packing: YuvBytesPacking,
) -> (result: Result<(), YuvError>)
    ensures
        yuv_p16_to_image_post_on_any_host(
            planar_image,
            old(bgr)@,
            final(bgr)@,
            bgr_stride as int,
            range,
            matrix,
            10,
            YuvSourceChannels::Bgr,
            YuvChromaSample::YUV444,
            endianness,
            bytes_packing,
            result,
        ),
{
    yuv_p16_to_image_impl(
        planar_image,
        bgr,
        bgr_stride,
        range,
        matrix,
        10,
        YuvSourceChannels::Bgr,
        YuvChromaSample::YUV444,
        endianness,
        bytes_packing,
    )
}

} // verus!

//! Planar YUV stored in 16-bit words to packed RGB of 10 bits a channel.

use crate::images::check_rgba_destination;
use crate::images::destination_fits;
use crate::images::YuvPlanarImage;
use crate::numerics::host_endianness;
use crate::numerics::qrshr;
use crate::numerics::SampleLayout;
use crate::numerics::spec_qrshr;
use crate::pixel::get_inverse_coefficients;
use crate::pixel::inverse_coefficients;
use crate::pixel::weigh;
use crate::planes::cell;
use crate::planes::lemma_cell_order;
use crate::planes::lemma_len_fits;
use crate::planes::lemma_plane_row_written;
use crate::planes::lemma_row_extended;
use crate::planes::lemma_rows_fit;
use crate::planes::plane_written;
use crate::planes::row_written;
use crate::yuv_error::YuvError;
use crate::yuv_support::CbCrInverseTransform;
use crate::yuv_support::get_yuv_range;
use crate::yuv_support::lemma_yuv_range_bounds;
use crate::yuv_support::spec_yuv_range;
use crate::yuv_support::YuvBytesPacking;
use crate::yuv_support::YuvChromaRange;
use crate::yuv_support::YuvChromaSample;
use crate::yuv_support::YuvEndianness;
use crate::yuv_support::YuvRange;
use crate::yuv_support::YuvSourceChannels;
use crate::yuv_support::YuvStandardMatrix;
use vstd::arithmetic::power2::lemma2_to64;
use vstd::prelude::*;

verus! {

/// The fractional bits of the coefficients of the packed 10-bit paths.
pub const AR30_PRECISION: u32 = 13;

/// The bits of each colour channel of a packed pixel.
pub const AR30_DEPTH: u32 = 10;

/// The two layouts of a packed pixel of three 10-bit channels and 2 bits of
/// alpha in a 32-bit word.
#[derive(Debug, Copy, Clone, PartialEq, Eq, Structural)]
pub enum Rgb30 {
    /// Alpha in the two highest bits, then blue, green, and red in the ten
    /// lowest.
    Ar30,
    /// Red in the ten highest bits, then green, blue, and alpha in the two
    /// lowest.
    Ra30,
}

/// The order in which the four bytes of a packed pixel are stored.
#[derive(Debug, Copy, Clone, PartialEq, Eq, Structural)]
pub enum Rgb30ByteOrder {
    /// The byte order of the machine.
    Host,
    /// Most significant byte first.
    Network,
}

impl Rgb30 {
    /// The word of a pixel. Alpha is opaque: both of its bits are set.
    pub open spec fn spec_pack(self, r: int, g: int, b: int) -> int {
        match self {
            Rgb30::Ar30 => 3 * 0x4000_0000 + b * 0x10_0000 + g * 0x400 + r,
            Rgb30::Ra30 => r * 0x40_0000 + g * 0x1000 + b * 4 + 3,
        }
    }

    /// Computes [`Rgb30::spec_pack`].
    pub fn pack(self, r: i32, g: i32, b: i32) -> (word: u32)
        requires
            0 <= r <= 1023,
            0 <= g <= 1023,
            0 <= b <= 1023,
        ensures
            word == self.spec_pack(r as int, g as int, b as int),
    {
        let red: u32 = r as u32;
        let green: u32 = g as u32;
        let blue: u32 = b as u32;
        match self {
            Rgb30::Ar30 => {
                assert(((3u32 << 30) | (blue << 20)) | ((green << 10) | red) == 3 * 0x4000_0000
                    + blue * 0x10_0000 + green * 0x400 + red) by (bit_vector)
                    requires
                        red <= 1023,
                        green <= 1023,
                        blue <= 1023,
                ;
                ((3u32 << 30) | (blue << 20)) | ((green << 10) | red)
            },
            Rgb30::Ra30 => {
                assert(((red << 22) | (green << 12)) | ((blue << 2) | 3) == red * 0x40_0000 + green
                    * 0x1000 + blue * 4 + 3) by (bit_vector)
                    requires
                        red <= 1023,
                        green <= 1023,
                        blue <= 1023,
                ;
                ((red << 22) | (green << 12)) | ((blue << 2) | 3)
            },
        }
    }
}

/// Byte `place` of a word, counted from the least significant.
pub open spec fn word_byte(word: int, place: int) -> u8 {
    if place == 0 {
        (word % 256) as u8
    } else if place == 1 {
        (word / 0x100 % 256) as u8
    } else if place == 2 {
        (word / 0x1_0000 % 256) as u8
    } else {
        (word / 0x100_0000 % 256) as u8
    }
}

/// Whether a packed word is stored most significant byte first.
pub open spec fn stored_big_endian(store: Rgb30ByteOrder, host: YuvEndianness) -> bool {
    store == Rgb30ByteOrder::Network || host == YuvEndianness::BigEndian
}

/// Byte `k` of a stored word.
pub open spec fn stored_byte(word: int, big_endian: bool, k: int) -> u8 {
    word_byte(
        word,
        if big_endian {
            3 - k
        } else {
            k
        },
    )
}

/// Writes a word at `offset`, in the byte order asked for.
fn store_word(dst: &mut [u8], offset: usize, word: u32, big_endian: bool)
    requires
        offset + 4 <= old(dst)@.len(),
    ensures
        final(dst)@.len() == old(dst)@.len(),
        forall|i: int|
            offset <= i < offset + 4 ==> #[trigger] final(dst)@[i] == stored_byte(
                word as int,
                big_endian,
                i - offset,
            ),
        forall|i: int|
            0 <= i < old(dst)@.len() && !(offset <= i < offset + 4) ==> #[trigger] final(dst)@[i]
                == old(dst)@[i],
{
    proof {
        lemma_len_fits(dst);
    }
    let b0: u8 = (word % 256) as u8;
    let b1: u8 = (word / 0x100 % 256) as u8;
    let b2: u8 = (word / 0x1_0000 % 256) as u8;
    let b3: u8 = (word / 0x100_0000 % 256) as u8;
    if big_endian {
        dst[offset] = b3;
        dst[offset + 1] = b2;
        dst[offset + 2] = b1;
        dst[offset + 3] = b0;
    } else {
        dst[offset] = b0;
        dst[offset + 1] = b1;
        dst[offset + 2] = b2;
        dst[offset + 3] = b3;
    }
}

/// The bit depths the packed 10-bit paths take.
pub open spec fn ar30_depth_supported(bit_depth: int) -> bool {
    bit_depth == 8 || bit_depth == 10 || bit_depth == 12
}

/// The word of one pixel: R, G, B in the 10-bit domain, each a quantized
/// rounding shift of its sum, then packed.
pub open spec fn ar30_word(
    ar30_layout: Rgb30,
    transform: CbCrInverseTransform<i32>,
    range: YuvChromaRange,
    y: int,
    cb: int,
    cr: int,
) -> int {
    let y_value = (y - range.bias_y) * transform.y_coef;
    let cb_value = cb - range.bias_uv;
    let cr_value = cr - range.bias_uv;
    ar30_layout.spec_pack(
        spec_qrshr(
            y_value + cr_value * transform.cr_coef,
            AR30_PRECISION as nat,
            AR30_DEPTH as nat,
        ),
        spec_qrshr(
            y_value - cr_value * transform.g_coeff_1 - cb_value * transform.g_coeff_2,
            AR30_PRECISION as nat,
            AR30_DEPTH as nat,
        ),
        spec_qrshr(
            y_value + cb_value * transform.cb_coef,
            AR30_PRECISION as nat,
            AR30_DEPTH as nat,
        ),
    )
}

/// Computes [`ar30_word`].
pub fn yuv_to_ar30_word(
    ar30_layout: Rgb30,
    transform: &CbCrInverseTransform<i32>,
    range: &YuvChromaRange,
    y: u16,
    cb: u16,
    cr: u16,
) -> (word: u32)
    requires
        range.fits(0xffff),
    ensures
        word == ar30_word(ar30_layout, *transform, *range, y as int, cb as int, cr as int),
{
    proof {
        lemma2_to64();
    }
    let y_value: i64 = weigh(y as i64 - range.bias_y as i64, transform.y_coef);
    let cb_value: i64 = cb as i64 - range.bias_uv as i64;
    let cr_value: i64 = cr as i64 - range.bias_uv as i64;
    let r: i32 = qrshr(y_value + weigh(cr_value, transform.cr_coef), AR30_PRECISION, AR30_DEPTH);
    let b: i32 = qrshr(y_value + weigh(cb_value, transform.cb_coef), AR30_PRECISION, AR30_DEPTH);
    let g: i32 = qrshr(
        y_value - weigh(cr_value, transform.g_coeff_1) - weigh(cb_value, transform.g_coeff_2),
        AR30_PRECISION,
        AR30_DEPTH,
    );
    ar30_layout.pack(r, g, b)
}

/// Byte `j` of a packed row, from rows of 16-bit words. Each word is brought
/// to its sample first. Where chroma is halved, the two columns of a pair use
/// the same chroma sample.
pub open spec fn ar30_byte(
    y_plane: Seq<u16>,
    y_offset: int,
    u_plane: Seq<u16>,
    u_offset: int,
    v_plane: Seq<u16>,
    v_offset: int,
    layout: SampleLayout,
    ar30_layout: Rgb30,
    big_endian: bool,
    sampling: YuvChromaSample,
    transform: CbCrInverseTransform<i32>,
    range: YuvChromaRange,
    j: int,
) -> u8 {
    let x = j / 4;
    let cx = sampling.chroma_column(x);
    stored_byte(
        ar30_word(
            ar30_layout,
            transform,
            range,
            layout.decode(y_plane[y_offset + x]) as int,
            layout.decode(u_plane[u_offset + cx]) as int,
            layout.decode(v_plane[v_offset + cx]) as int,
        ),
        big_endian,
        j % 4,
    )
}

/// A packed row as a function of the byte's place in it.
pub open spec fn ar30_row(
    y_plane: Seq<u16>,
    y_offset: int,
    u_plane: Seq<u16>,
    u_offset: int,
    v_plane: Seq<u16>,
    v_offset: int,
    layout: SampleLayout,
    ar30_layout: Rgb30,
    big_endian: bool,
    sampling: YuvChromaSample,
    transform: CbCrInverseTransform<i32>,
    range: YuvChromaRange,
) -> spec_fn(int) -> u8 {
    |j: int|
        ar30_byte(
            y_plane,
            y_offset,
            u_plane,
            u_offset,
            v_plane,
            v_offset,
            layout,
            ar30_layout,
            big_endian,
            sampling,
            transform,
            range,
            j,
        )
}

/// The packed image as a function of row and byte.
pub open spec fn ar30_image(
    image: &YuvPlanarImage<u16>,
    layout: SampleLayout,
    ar30_layout: Rgb30,
    big_endian: bool,
    sampling: YuvChromaSample,
    transform: CbCrInverseTransform<i32>,
    range: YuvChromaRange,
) -> spec_fn(int, int) -> u8 {
    |row: int, j: int|
        ar30_byte(
            image.y_plane@,
            cell(image.y_stride as int, row, 0),
            image.u_plane@,
            cell(image.u_stride as int, sampling.chroma_row(row), 0),
            image.v_plane@,
            cell(image.v_stride as int, sampling.chroma_row(row), 0),
            layout,
            ar30_layout,
            big_endian,
            sampling,
            transform,
            range,
            j,
        )
}

/// What a conversion of a planar image of 16-bit words to packed 10-bit RGB
/// leaves behind, on a machine of byte order `host`. A bit depth other than
/// 8, 10 or 12 is refused, then a degenerate matrix, then planes that do not
/// fit; a refusal writes nothing. Otherwise every pixel is written, four
/// bytes each, and the padding of the destination is untouched.
pub open spec fn yuv_p16_to_ar30_post(
    image: &YuvPlanarImage<u16>,
    before: Seq<u8>,
    after: Seq<u8>,
    stride: int,
    ar30_layout: Rgb30,
    store: Rgb30ByteOrder,
    range: YuvRange,
    matrix: YuvStandardMatrix,
    bit_depth: int,
    sampling: YuvChromaSample,
    endianness: YuvEndianness,
    packing: YuvBytesPacking,
    host: YuvEndianness,
    result: Result<(), YuvError>,
) -> bool {
    if !ar30_depth_supported(bit_depth) {
        &&& result == Err::<(), YuvError>(YuvError::UnsupportedBitDepth)
        &&& after == before
    } else if !matrix.is_valid() {
        &&& result == Err::<(), YuvError>(YuvError::InvalidMatrix)
        &&& after == before
    } else if !(image.fits(sampling) && destination_fits(
        before.len() as int,
        stride,
        image.width as int,
        image.height as int,
        YuvSourceChannels::Rgba,
    )) {
        &&& result == Err::<(), YuvError>(YuvError::BufferSizeMismatch)
        &&& after == before
    } else {
        &&& result is Ok
        &&& plane_written(
            before,
            after,
            stride,
            4 * image.width,
            image.height as int,
            ar30_image(
                image,
                SampleLayout { endianness, packing, bit_depth: bit_depth as u32, host },
                ar30_layout,
                stored_big_endian(store, host),
                sampling,
                inverse_coefficients(
                    range,
                    matrix,
                    bit_depth as nat,
                    1023,
                    AR30_PRECISION as nat,
                ),
                spec_yuv_range(bit_depth as nat, range),
            ),
        )
    }
}

/// [`yuv_p16_to_ar30_post`] on a machine of either byte order.
pub open spec fn yuv_p16_to_ar30_post_on_any_host(
    image: &YuvPlanarImage<u16>,
    before: Seq<u8>,
    after: Seq<u8>,
    stride: int,
    ar30_layout: Rgb30,
    store: Rgb30ByteOrder,
    range: YuvRange,
    matrix: YuvStandardMatrix,
    bit_depth: int,
    sampling: YuvChromaSample,
    endianness: YuvEndianness,
    packing: YuvBytesPacking,
    result: Result<(), YuvError>,
) -> bool {
    ||| yuv_p16_to_ar30_post(
        image,
        before,
        after,
        stride,
        ar30_layout,
        store,
        range,
        matrix,
        bit_depth,
        sampling,
        endianness,
        packing,
        YuvEndianness::BigEndian,
        result,
    )
    ||| yuv_p16_to_ar30_post(
        image,
        before,
        after,
        stride,
        ar30_layout,
        store,
        range,
        matrix,
        bit_depth,
        sampling,
        endianness,
        packing,
        YuvEndianness::LittleEndian,
        result,
    )
}

/// Converts one row of 16-bit words to packed pixels.
pub fn yuv_p16_to_ar30_row(
    y_plane: &[u16],
    y_offset: usize,
    u_plane: &[u16],
    u_offset: usize,
    v_plane: &[u16],
    v_offset: usize,
    rgba: &mut [u8],
    dst_offset: usize,
    width: u32,
    range: &YuvChromaRange,
    transform: &CbCrInverseTransform<i32>,
    layout: SampleLayout,
    ar30_layout: Rgb30,
    big_endian: bool,
    sampling: YuvChromaSample,
)
    requires
        range.fits(0xffff),
        layout.wf(),
        y_offset + width <= y_plane@.len(),
        u_offset + sampling.chroma_width(width as int) <= u_plane@.len(),
        v_offset + sampling.chroma_width(width as int) <= v_plane@.len(),
        dst_offset + 4 * width <= old(rgba)@.len(),
    ensures
        row_written(
            old(rgba)@,
            final(rgba)@,
            dst_offset as int,
            4 * width,
            ar30_row(
                y_plane@,
                y_offset as int,
                u_plane@,
                u_offset as int,
                v_plane@,
                v_offset as int,
                layout,
                ar30_layout,
                big_endian,
                sampling,
                *transform,
                *range,
            ),
        ),
{
    proof {
        lemma_len_fits(y_plane);
        lemma_len_fits(u_plane);
        lemma_len_fits(v_plane);
        lemma_len_fits(rgba);
    }
    let halved: bool = sampling != YuvChromaSample::YUV444;
    let ghost row = ar30_row(
        y_plane@,
        y_offset as int,
        u_plane@,
        u_offset as int,
        v_plane@,
        v_offset as int,
        layout,
        ar30_layout,
        big_endian,
        sampling,
        *transform,
        *range,
    );
    let mut x: usize = 0;
    while x < width as usize
        invariant
            x <= width,
            halved == sampling.is_halved(),
            range.fits(0xffff),
            layout.wf(),
            row == ar30_row(
                y_plane@,
                y_offset as int,
                u_plane@,
                u_offset as int,
                v_plane@,
                v_offset as int,
                layout,
                ar30_layout,
                big_endian,
                sampling,
                *transform,
                *range,
            ),
            y_offset + width <= y_plane@.len() <= usize::MAX,
            u_offset + sampling.chroma_width(width as int) <= u_plane@.len() <= usize::MAX,
            v_offset + sampling.chroma_width(width as int) <= v_plane@.len() <= usize::MAX,
            dst_offset + 4 * width <= rgba@.len() <= usize::MAX,
            rgba@.len() == old(rgba)@.len(),
            forall|i: int|
                dst_offset <= i < dst_offset + 4 * x ==> #[trigger] rgba@[i] == row(i - dst_offset),
            forall|i: int|
                0 <= i < rgba@.len() && !(dst_offset <= i < dst_offset + 4 * x)
                    ==> #[trigger] rgba@[i] == old(rgba)@[i],
        decreases width - x,
    {
        let cx: usize = if halved {
            x / 2
        } else {
            x
        };
        let y_value: u16 = layout.load(y_plane[y_offset + x]);
        let cb_value: u16 = layout.load(u_plane[u_offset + cx]);
        let cr_value: u16 = layout.load(v_plane[v_offset + cx]);
        let word: u32 = yuv_to_ar30_word(ar30_layout, transform, range, y_value, cb_value, cr_value);
        let ghost earlier = rgba@;
        store_word(rgba, dst_offset + 4 * x, word, big_endian);
        proof {
            assert forall|i: int|
                dst_offset + 4 * x <= i < dst_offset + 4 * x + 4 implies #[trigger] rgba@[i] == row(
                i - dst_offset,
            ) by {
                let j = i - dst_offset;
                assert(j / 4 == x && j % 4 == i - (dst_offset + 4 * x));
            }
            lemma_row_extended(old(rgba)@, earlier, rgba@, dst_offset as int, 4 * x, 4, row);
        }
        x += 1;
    }
}

/// Converts a planar image of 16-bit words to packed 10-bit RGB, on a machine
/// whose byte order is `host`.
pub fn yuv_p16_to_image_ar30(
    planar_image: &YuvPlanarImage<u16>,
    rgba: &mut [u8],
    rgba_stride: u32,
    store: Rgb30ByteOrder,
    range: YuvRange,
    matrix: YuvStandardMatrix,
    bit_depth: usize,
    ar30_layout: Rgb30,
    sampling: YuvChromaSample,
    endianness: YuvEndianness,
    packing: YuvBytesPacking,
    host: YuvEndianness,
) -> (result: Result<(), YuvError>)
    ensures
        yuv_p16_to_ar30_post(
            planar_image,
            old(rgba)@,
            final(rgba)@,
            rgba_stride as int,
            ar30_layout,
            store,
            range,
            matrix,
            bit_depth as int,
            sampling,
            endianness,
            packing,
            host,
            result,
        ),
{
    if !(bit_depth == 8 || bit_depth == 10 || bit_depth == 12) {
        return Err(YuvError::UnsupportedBitDepth);
    }
    let depth: u32 = bit_depth as u32;
    proof {
        lemma_yuv_range_bounds(depth as nat, range);
        lemma2_to64();
        lemma_len_fits(planar_image.y_plane);
        lemma_len_fits(planar_image.u_plane);
        lemma_len_fits(planar_image.v_plane);
        lemma_len_fits(rgba);
    }
    let transform: CbCrInverseTransform<i32> = match get_inverse_coefficients(
        range,
        matrix,
        depth,
        1023,
        AR30_PRECISION,
    ) {
        Ok(transform) => transform,
        Err(error) => { return Err(error); },
    };
    if planar_image.check_constraints(sampling).is_err() {
        return Err(YuvError::BufferSizeMismatch);
    }
    if check_rgba_destination(
        rgba,
        rgba_stride,
        planar_image.width,
        planar_image.height,
        YuvSourceChannels::Rgba,
    ).is_err() {
        return Err(YuvError::BufferSizeMismatch);
    }
    let width: u32 = planar_image.width;
    let height: u32 = planar_image.height;
    if width == 0 {
        return Ok(());
    }
    let chroma_range: YuvChromaRange = get_yuv_range(depth, range);
    let layout = SampleLayout { endianness, packing, bit_depth: depth, host };
    let big_endian: bool = store == Rgb30ByteOrder::Network || host == YuvEndianness::BigEndian;
    let ghost image = ar30_image(
        planar_image,
        layout,
        ar30_layout,
        big_endian,
        sampling,
        transform,
        chroma_range,
    );
    let ghost chroma_height = sampling.chroma_height(height as int);
    let mut y: usize = 0;
    while y < height as usize
        invariant
            y <= height,
            width > 0,
            width == planar_image.width,
            height == planar_image.height,
            chroma_range.fits(0xffff),
            layout.wf(),
            planar_image.y_plane@.len() <= usize::MAX,
            planar_image.u_plane@.len() <= usize::MAX,
            planar_image.v_plane@.len() <= usize::MAX,
            rgba@.len() == old(rgba)@.len() <= usize::MAX,
            chroma_height == sampling.chroma_height(height as int),
            planar_image.fits(sampling),
            destination_fits(
                rgba@.len() as int,
                rgba_stride as int,
                width as int,
                height as int,
                YuvSourceChannels::Rgba,
            ),
            image == ar30_image(
                planar_image,
                layout,
                ar30_layout,
                big_endian,
                sampling,
                transform,
                chroma_range,
            ),
            plane_written(old(rgba)@, rgba@, rgba_stride as int, 4 * width, y as int, image),
        decreases height - y,
    {
        let chroma_y: usize = if sampling == YuvChromaSample::YUV420 {
            y / 2
        } else {
            y
        };
        proof {
            lemma_cell_order(planar_image.y_stride as int, y as int, 0, height as int);
            lemma_cell_order(rgba_stride as int, y as int, 0, height as int);
            lemma_cell_order(planar_image.u_stride as int, chroma_y as int, 0, chroma_height);
            lemma_cell_order(planar_image.v_stride as int, chroma_y as int, 0, chroma_height);
            lemma_rows_fit(rgba_stride as int, y as int, height as int);
        }
        let y_offset: usize = y * (planar_image.y_stride as usize);
        let u_offset: usize = chroma_y * (planar_image.u_stride as usize);
        let v_offset: usize = chroma_y * (planar_image.v_stride as usize);
        let dst_offset: usize = y * (rgba_stride as usize);
        let ghost middle = rgba@;
        yuv_p16_to_ar30_row(
            planar_image.y_plane,
            y_offset,
            planar_image.u_plane,
            u_offset,
            planar_image.v_plane,
            v_offset,
            rgba,
            dst_offset,
            width,
            &chroma_range,
            &transform,
            layout,
            ar30_layout,
            big_endian,
            sampling,
        );
        proof {
            assert(row_written(
                middle,
                rgba@,
                cell(rgba_stride as int, y as int, 0),
                4 * width,
                |j: int| image(y as int, j),
            ));
            lemma_plane_row_written(
                old(rgba)@,
                middle,
                rgba@,
                rgba_stride as int,
                4 * width,
                y as int,
                y as int,
                image,
                image,
            );
        }
        y += 1;
    }
    Ok(())
}

/// Converts a planar image of 16-bit words to packed 10-bit RGB. The byte
/// order of the machine is asked for once, and the conversion is that of
/// [`yuv_p16_to_image_ar30`] for the answer.
pub fn yuv_p16_to_image_ar30_impl(
    planar_image: &YuvPlanarImage<u16>,
    rgba: &mut [u8],
    rgba_stride: u32,
    store_type: Rgb30ByteOrder,
    range: YuvRange,
    matrix: YuvStandardMatrix,
    bit_depth: usize,
    ar30_layout: Rgb30,
    sampling: YuvChromaSample,
    endianness: YuvEndianness,
    packing: YuvBytesPacking,
) -> (result: Result<(), YuvError>)
    ensures
        yuv_p16_to_ar30_post_on_any_host(
            planar_image,
            old(rgba)@,
            final(rgba)@,
            rgba_stride as int,
            ar30_layout,
            store_type,
            range,
            matrix,
            bit_depth as int,
            sampling,
            endianness,
            packing,
            result,
        ),
{
    let host: YuvEndianness = host_endianness();
    yuv_p16_to_image_ar30(
        planar_image,
        rgba,
        rgba_stride,
        store_type,
        range,
        matrix,
        bit_depth,
        ar30_layout,
        sampling,
        endianness,
        packing,
        host,
    )
}

/// Converts a planar 4:2:0 image of 8, 10 or 12-bit samples in 16-bit words
/// to packed AR30.
pub fn yuv420_p16_to_ar30(
    planar_image: &YuvPlanarImage<u16>,
    ar30: &mut [u8],
    ar30_stride: u32,
    byte_order: Rgb30ByteOrder,
    bit_depth: usize,
    range: YuvRange,
    matrix: YuvStandardMatrix,
    endianness: YuvEndianness,
    bytes_packing: YuvBytesPacking,
) -> (result: Result<(), YuvError>)
    ensures
        yuv_p16_to_ar30_post_on_any_host(
            planar_image,
            old(ar30)@,
            final(ar30)@,
            ar30_stride as int,
            Rgb30::Ar30,
            byte_order,
            range,
            matrix,
            bit_depth as int,
            YuvChromaSample::YUV420,
            endianness,
            bytes_packing,
            result,
        ),
{
    yuv_p16_to_image_ar30_impl(
        planar_image,
        ar30,
        ar30_stride,
        byte_order,
        range,
        matrix,
        bit_depth,
        Rgb30::Ar30,
        YuvChromaSample::YUV420,
        endianness,
        bytes_packing,
    )
}

/// Converts a planar 4:2:2 image of 8, 10 or 12-bit samples in 16-bit words
/// to packed AR30.
pub fn yuv422_p16_to_ar30(
    planar_image: &YuvPlanarImage<u16>,
    ar30: &mut [u8],
    ar30_stride: u32,
    byte_order: Rgb30ByteOrder,
    bit_depth: usize,
    range: YuvRange,
    matrix: YuvStandardMatrix,
    endianness: YuvEndianness,
    bytes_packing: YuvBytesPacking,
) -> (result: Result<(), YuvError>)
    ensures
        yuv_p16_to_ar30_post_on_any_host(
            planar_image,
            old(ar30)@,
            final(ar30)@,
            ar30_stride as int,
            Rgb30::Ar30,
            byte_order,
            range,
            matrix,
            bit_depth as int,
            YuvChromaSample::YUV422,
            endianness,
            bytes_packing,
            result,
        ),
{
    yuv_p16_to_image_ar30_impl(
        planar_image,
        ar30,
        ar30_stride,
        byte_order,
        range,
        matrix,
        bit_depth,
        Rgb30::Ar30,
        YuvChromaSample::YUV422,
        endianness,
        bytes_packing,
    )
}

/// Converts a planar 4:4:4 image of 8, 10 or 12-bit samples in 16-bit words
/// to packed AR30.
pub fn yuv444_p16_to_ar30(
    planar_image: &YuvPlanarImage<u16>,
    ar30: &mut [u8],
    ar30_stride: u32,
    byte_order: Rgb30ByteOrder,
    bit_depth: usize,
    range: YuvRange,
    matrix: YuvStandardMatrix,
    endianness: YuvEndianness,
    bytes_packing: YuvBytesPacking,
) -> (result: Result<(), YuvError>)
    ensures
        yuv_p16_to_ar30_post_on_any_host(
            planar_image,
            old(ar30)@,
            final(ar30)@,
            ar30_stride as int,
            Rgb30::Ar30,
            byte_order,
            range,
            matrix,
            bit_depth as int,
            YuvChromaSample::YUV444,
            endianness,
            bytes_packing,
            result,
        ),
{
    yuv_p16_to_image_ar30_impl(
        planar_image,
        ar30,
        ar30_stride,
        byte_order,
        range,
        matrix,
        bit_depth,
        Rgb30::Ar30,
        YuvChromaSample::YUV444,
        endianness,
        bytes_packing,
    )
}

/// Converts a planar 4:2:0 image of 8, 10 or 12-bit samples in 16-bit words
/// to packed RA30.
pub fn yuv420_p16_to_ra30(
    planar_image: &YuvPlanarImage<u16>,
    ra30: &mut [u8],
    ra30_stride: u32,
    byte_order: Rgb30ByteOrder,
    bit_depth: usize,
    range: YuvRange,
    matrix: YuvStandardMatrix,
    endianness: YuvEndianness,
    bytes_packing: YuvBytesPacking,
) -> (result: Result<(), YuvError>)
    ensures
        yuv_p16_to_ar30_post_on_any_host(
            planar_image,
            old(ra30)@,
            final(ra30)@,
            ra30_stride as int,
            Rgb30::Ra30,
            byte_order,
            range,
            matrix,
            bit_depth as int,
            YuvChromaSample::YUV420,
            endianness,
            bytes_packing,
            result,
        ),
{
    yuv_p16_to_image_ar30_impl(
        planar_image,
        ra30,
        ra30_stride,
        byte_order,
        range,
        matrix,
        bit_depth,
        Rgb30::Ra30,
        YuvChromaSample::YUV420,
        endianness,
        bytes_packing,
    )
}

/// Converts a planar 4:2:2 image of 8, 10 or 12-bit samples in 16-bit words
/// to packed RA30.
pub fn yuv422_p16_to_ra30(
    planar_image: &YuvPlanarImage<u16>,
    ra30: &mut [u8],
    ra30_stride: u32,
    byte_order: Rgb30ByteOrder,
    bit_depth: usize,
    range: YuvRange,
    matrix: YuvStandardMatrix,
    endianness: YuvEndianness,
    bytes_packing: YuvBytesPacking,
) -> (result: Result<(), YuvError>)
    ensures
        yuv_p16_to_ar30_post_on_any_host(
            planar_image,
            old(ra30)@,
            final(ra30)@,
            ra30_stride as int,
            Rgb30::Ra30,
            byte_order,
            range,
            matrix,
            bit_depth as int,
            YuvChromaSample::YUV422,
            endianness,
            bytes_packing,
            result,
        ),
{
    yuv_p16_to_image_ar30_impl(
        planar_image,
        ra30,
        ra30_stride,
        byte_order,
        range,
        matrix,
        bit_depth,
        Rgb30::Ra30,
        YuvChromaSample::YUV422,
        endianness,
        bytes_packing,
    )
}

/// Converts a planar 4:4:4 image of 8, 10 or 12-bit samples in 16-bit words
/// to packed RA30.
pub fn yuv444_p16_to_ra30(
    planar_image: &YuvPlanarImage<u16>,
    ra30: &mut [u8],
    ra30_stride: u32,
    byte_order: Rgb30ByteOrder,
    bit_depth: usize,
    range: YuvRange,
    matrix: YuvStandardMatrix,
    endianness: YuvEndianness,
    bytes_packing: YuvBytesPacking,
) -> (result: Result<(), YuvError>)
    ensures
        yuv_p16_to_ar30_post_on_any_host(
            planar_image,
            old(ra30)@,
            final(ra30)@,
            ra30_stride as int,
            Rgb30::Ra30,
            byte_order,
            range,
            matrix,
            bit_depth as int,
            YuvChromaSample::YUV444,
            endianness,
            bytes_packing,
            result,
        ),
{
    yuv_p16_to_image_ar30_impl(
        planar_image,
        ra30,
        ra30_stride,
        byte_order,
        range,
        matrix,
        bit_depth,
        Rgb30::Ra30,
        YuvChromaSample::YUV444,
        endianness,
        bytes_packing,
    )
}

/// Converts I010, a planar 4:2:0 image of 10-bit samples stored little
/// endian in the low bits of their words, to packed AR30.
pub fn i010_to_ar30(
    planar_image: &YuvPlanarImage<u16>,
    dst: &mut [u8],
    dst_stride: u32,
    byte_order: Rgb30ByteOrder,
    range: YuvRange,
    matrix: YuvStandardMatrix,
) -> (result: Result<(), YuvError>)
    ensures
        yuv_p16_to_ar30_post_on_any_host(
            planar_image,
            old(dst)@,
            final(dst)@,
            dst_stride as int,
            Rgb30::Ar30,
            byte_order,
            range,
            matrix,
            10,
            YuvChromaSample::YUV420,
            YuvEndianness::LittleEndian,
            YuvBytesPacking::LeastSignificantBytes,
            result,
        ),
{
    yuv420_p16_to_ar30(
        planar_image,
        dst,
        dst_stride,
        byte_order,
        10,
        range,
        matrix,
        YuvEndianness::LittleEndian,
        YuvBytesPacking::LeastSignificantBytes,
    )
}

/// Converts I010, a planar 4:2:0 image of 10-bit samples stored little
/// endian in the low bits of their words, to packed RA30.
pub fn i010_to_ra30(
    planar_image: &YuvPlanarImage<u16>,
    dst: &mut [u8],
    dst_stride: u32,
    byte_order: Rgb30ByteOrder,
    range: YuvRange,
    matrix: YuvStandardMatrix,
) -> (result: Result<(), YuvError>)
    ensures
        yuv_p16_to_ar30_post_on_any_host(
            planar_image,
            old(dst)@,
            final(dst)@,
            dst_stride as int,
            Rgb30::Ra30,
            byte_order,
            range,
            matrix,
            10,
            YuvChromaSample::YUV420,
            YuvEndianness::LittleEndian,
            YuvBytesPacking::LeastSignificantBytes,
            result,
        ),
{
    yuv420_p16_to_ra30(
        planar_image,
        dst,
        dst_stride,
        byte_order,
        10,
        range,
        matrix,
        YuvEndianness::LittleEndian,
        YuvBytesPacking::LeastSignificantBytes,
    )
}

/// Converts I012, a planar 4:2:0 image of 12-bit samples stored little
/// endian in the low bits of their words, to packed AR30.
pub fn i012_to_ar30(
    planar_image: &YuvPlanarImage<u16>,
    dst: &mut [u8],
    dst_stride: u32,
    byte_order: Rgb30ByteOrder,
    range: YuvRange,
    matrix: YuvStandardMatrix,
) -> (result: Result<(), YuvError>)
    ensures
        yuv_p16_to_ar30_post_on_any_host(
            planar_image,
            old(dst)@,
            final(dst)@,
            dst_stride as int,
            Rgb30::Ar30,
            byte_order,
            range,
            matrix,
            12,
            YuvChromaSample::YUV420,
            YuvEndianness::LittleEndian,
            YuvBytesPacking::LeastSignificantBytes,
            result,
        ),
{
    yuv420_p16_to_ar30(
        planar_image,
        dst,
        dst_stride,
        byte_order,
        12,
        range,
        matrix,
        YuvEndianness::LittleEndian,
        YuvBytesPacking::LeastSignificantBytes,
    )
}

/// Converts I012, a planar 4:2:0 image of 12-bit samples stored little
/// endian in the low bits of their words, to packed RA30.
pub fn i012_to_ra30(
    planar_image: &YuvPlanarImage<u16>,
    dst: &mut [u8],
    dst_stride: u32,
    byte_order: Rgb30ByteOrder,
    range: YuvRange,
    matrix: YuvStandardMatrix,
) -> (result: Result<(), YuvError>)
    ensures
        yuv_p16_to_ar30_post_on_any_host(
            planar_image,
            old(dst)@,
            final(dst)@,
            dst_stride as int,
            Rgb30::Ra30,
            byte_order,
            range,
            matrix,
            12,
            YuvChromaSample::YUV420,
            YuvEndianness::LittleEndian,
            YuvBytesPacking::LeastSignificantBytes,
            result,
        ),
{
    yuv420_p16_to_ra30(
        planar_image,
        dst,
        dst_stride,
        byte_order,
        12,
        range,
        matrix,
        YuvEndianness::LittleEndian,
        YuvBytesPacking::LeastSignificantBytes,
    )
}

/// Converts I210, a planar 4:2:2 image of 10-bit samples stored little
/// endian in the low bits of their words, to packed AR30.
pub fn i210_to_ar30(
    planar_image: &YuvPlanarImage<u16>,
    dst: &mut [u8],
    dst_stride: u32,
    byte_order: Rgb30ByteOrder,
    range: YuvRange,
    matrix: YuvStandardMatrix,
) -> (result: Result<(), YuvError>)
    ensures
        yuv_p16_to_ar30_post_on_any_host(
            planar_image,
            old(dst)@,
            final(dst)@,
            dst_stride as int,
            Rgb30::Ar30,
            byte_order,
            range,
            matrix,
            10,
            YuvChromaSample::YUV422,
            YuvEndianness::LittleEndian,
            YuvBytesPacking::LeastSignificantBytes,
            result,
        ),
{
    yuv422_p16_to_ar30(
        planar_image,
        dst,
        dst_stride,
        byte_order,
        10,
        range,
        matrix,
        YuvEndianness::LittleEndian,
        YuvBytesPacking::LeastSignificantBytes,
    )
}

/// Converts I210, a planar 4:2:2 image of 10-bit samples stored little
/// endian in the low bits of their words, to packed RA30.
pub fn i210_to_ra30(
    planar_image: &YuvPlanarImage<u16>,
    dst: &mut [u8],
    dst_stride: u32,
    byte_order: Rgb30ByteOrder,
    range: YuvRange,
    matrix: YuvStandardMatrix,
) -> (result: Result<(), YuvError>)
    ensures
        yuv_p16_to_ar30_post_on_any_host(
            planar_image,
            old(dst)@,
            final(dst)@,
            dst_stride as int,
            Rgb30::Ra30,
            byte_order,
            range,
            matrix,
            10,
            YuvChromaSample::YUV422,
            YuvEndianness::LittleEndian,
            YuvBytesPacking::LeastSignificantBytes,
            result,
        ),
{
    yuv422_p16_to_ra30(
        planar_image,
        dst,
        dst_stride,
        byte_order,
        10,
        range,
        matrix,
        YuvEndianness::LittleEndian,
        YuvBytesPacking::LeastSignificantBytes,
    )
}

/// Converts I212, a planar 4:2:2 image of 12-bit samples stored little
/// endian in the low bits of their words, to packed AR30.
pub fn i212_to_ar30(
    planar_image: &YuvPlanarImage<u16>,
    dst: &mut [u8],
    dst_stride: u32,
    byte_order: Rgb30ByteOrder,
    range: YuvRange,
    matrix: YuvStandardMatrix,
) -> (result: Result<(), YuvError>)
    ensures
        yuv_p16_to_ar30_post_on_any_host(
            planar_image,
            old(dst)@,
            final(dst)@,
            dst_stride as int,
            Rgb30::Ar30,
            byte_order,
            range,
            matrix,
            12,
            YuvChromaSample::YUV422,
            YuvEndianness::LittleEndian,
            YuvBytesPacking::LeastSignificantBytes,
            result,
        ),
{
    yuv422_p16_to_ar30(
        planar_image,
        dst,
        dst_stride,
        byte_order,
        12,
        range,
        matrix,
        YuvEndianness::LittleEndian,
        YuvBytesPacking::LeastSignificantBytes,
    )
}

/// Converts I212, a planar 4:2:2 image of 12-bit samples stored little
/// endian in the low bits of their words, to packed RA30.
pub fn i212_to_ra30(
    planar_image: &YuvPlanarImage<u16>,
    dst: &mut [u8],
    dst_stride: u32,
    byte_order: Rgb30ByteOrder,
    range: YuvRange,
    matrix: YuvStandardMatrix,
) -> (result: Result<(), YuvError>)
    ensures
        yuv_p16_to_ar30_post_on_any_host(
            planar_image,
            old(dst)@,
            final(dst)@,
            dst_stride as int,
            Rgb30::Ra30,
            byte_order,
            range,
            matrix,
            12,
            YuvChromaSample::YUV422,
            YuvEndianness::LittleEndian,
            YuvBytesPacking::LeastSignificantBytes,
            result,
        ),
{
    yuv422_p16_to_ra30(
        planar_image,
        dst,
        dst_stride,
        byte_order,
        12,
        range,
        matrix,
        YuvEndianness::LittleEndian,
        YuvBytesPacking::LeastSignificantBytes,
    )
}

/// Converts I410, a planar 4:4:4 image of 10-bit samples stored little
/// endian in the low bits of their words, to packed AR30.
pub fn i410_to_ar30(
    planar_image: &YuvPlanarImage<u16>,
    dst: &mut [u8],
    dst_stride: u32,
    byte_order: Rgb30ByteOrder,
    range: YuvRange,
    matrix: YuvStandardMatrix,
) -> (result: Result<(), YuvError>)
    ensures
        yuv_p16_to_ar30_post_on_any_host(
            planar_image,
            old(dst)@,
            final(dst)@,
            dst_stride as int,
            Rgb30::Ar30,
            byte_order,
            range,
            matrix,
            10,
            YuvChromaSample::YUV444,
            YuvEndianness::LittleEndian,
            YuvBytesPacking::LeastSignificantBytes,
            result,
        ),
{
    yuv444_p16_to_ar30(
        planar_image,
        dst,
        dst_stride,
        byte_order,
        10,
        range,
        matrix,
        YuvEndianness::LittleEndian,
        YuvBytesPacking::LeastSignificantBytes,
    )
}

/// Converts I410, a planar 4:4:4 image of 10-bit samples stored little
/// endian in the low bits of their words, to packed RA30.
pub fn i410_to_ra30(
    planar_image: &YuvPlanarImage<u16>,
    dst: &mut [u8],
    dst_stride: u32,
    byte_order: Rgb30ByteOrder,
    range: YuvRange,
    matrix: YuvStandardMatrix,
) -> (result: Result<(), YuvError>)
    ensures
        yuv_p16_to_ar30_post_on_any_host(
            planar_image,
            old(dst)@,
            final(dst)@,
            dst_stride as int,
            Rgb30::Ra30,
            byte_order,
            range,
            matrix,
            10,
            YuvChromaSample::YUV444,
            YuvEndianness::LittleEndian,
            YuvBytesPacking::LeastSignificantBytes,
            result,
        ),
{
    yuv444_p16_to_ra30(
        planar_image,
        dst,
        dst_stride,
        byte_order,
        10,
        range,
        matrix,
        YuvEndianness::LittleEndian,
        YuvBytesPacking::LeastSignificantBytes,
    )
}

/// Converts I412, a planar 4:4:4 image of 12-bit samples stored little
/// endian in the low bits of their words, to packed AR30.
pub fn i412_to_ar30(
    planar_image: &YuvPlanarImage<u16>,
    dst: &mut [u8],
    dst_stride: u32,
    byte_order: Rgb30ByteOrder,
    range: YuvRange,
    matrix: YuvStandardMatrix,
) -> (result: Result<(), YuvError>)
    ensures
        yuv_p16_to_ar30_post_on_any_host(
            planar_image,
            old(dst)@,
            final(dst)@,
            dst_stride as int,
            Rgb30::Ar30,
            byte_order,
            range,
            matrix,
            12,
            YuvChromaSample::YUV444,
            YuvEndianness::LittleEndian,
            YuvBytesPacking::LeastSignificantBytes,
            result,
        ),
{
    yuv444_p16_to_ar30(
        planar_image,
        dst,
        dst_stride,
        byte_order,
        12,
        range,
        matrix,
        YuvEndianness::LittleEndian,
        YuvBytesPacking::LeastSignificantBytes,
    )
}

/// Converts I412, a planar 4:4:4 image of 12-bit samples stored little
/// endian in the low bits of their words, to packed RA30.
pub fn i412_to_ra30(
    planar_image: &YuvPlanarImage<u16>,
    dst: &mut [u8],
    dst_stride: u32,
    byte_order: Rgb30ByteOrder,
    range: YuvRange,
    matrix: YuvStandardMatrix,
) -> (result: Result<(), YuvError>)
    ensures
        yuv_p16_to_ar30_post_on_any_host(
            planar_image,
            old(dst)@,
            final(dst)@,
            dst_stride as int,
            Rgb30::Ra30,
            byte_order,
            range,
            matrix,
            12,
            YuvChromaSample::YUV444,
            YuvEndianness::LittleEndian,
            YuvBytesPacking::LeastSignificantBytes,
            result,
        ),
{
    yuv444_p16_to_ra30(
        planar_image,
        dst,
        dst_stride,
        byte_order,
        12,
        range,
        matrix,
        YuvEndianness::LittleEndian,
        YuvBytesPacking::LeastSignificantBytes,
    )
}

} // verus!

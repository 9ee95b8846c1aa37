//! Planar 4:2:2 to interleaved RGBA at the bit depth of the source, for
//! samples of 8 or of 16 bits.

use crate::numerics::max_sample;
use crate::numerics::power_of_two;
use crate::pixel::get_inverse_coefficients;
use crate::pixel::inverse_coefficients;
use crate::pixel::Rgb;
use crate::pixel::Rounding;
use crate::pixel::spec_blue;
use crate::pixel::spec_green;
use crate::pixel::spec_red;
use crate::pixel::yuv_to_rgb;
use crate::planes::cell;
use crate::planes::lemma_cell_order;
use crate::planes::lemma_len_fits;
use crate::planes::lemma_plane_row_written;
use crate::planes::lemma_row_extended;
use crate::planes::lemma_rows_fit;
use crate::planes::plane_fits;
use crate::planes::plane_len;
use crate::planes::plane_written;
use crate::planes::row_written;
use crate::yuv_error::YuvError;
use crate::yuv_support::CbCrInverseTransform;
use crate::yuv_support::get_yuv_range;
use crate::yuv_support::lemma_yuv_range_bounds;
use crate::yuv_support::spec_yuv_range;
use crate::yuv_support::YuvChromaRange;
use crate::yuv_support::YuvRange;
use crate::yuv_support::YuvStandardMatrix;
use num_traits::AsPrimitive;
use vstd::arithmetic::power2::lemma2_to64;
use vstd::arithmetic::power2::lemma_pow2_strictly_increases;
use vstd::prelude::*;

verus! {

/// The fractional bits of the coefficients of the conversion that keeps the
/// bit depth of its source.
pub const PRECISION: u32 = 11;

/// `AsPrimitive::<i32>::as_` of num-traits on a `u8`, which is the cast
/// `as i32`: the value is kept.
#[verifier::external_body]
fn u8_as_i32(value: u8) -> (wide: i32)
    ensures
        wide == value,
{
    AsPrimitive::<i32>::as_(value)
}

/// `AsPrimitive::<i32>::as_` of num-traits on a `u16`, which is the cast
/// `as i32`: the value is kept.
#[verifier::external_body]
fn u16_as_i32(value: u16) -> (wide: i32)
    ensures
        wide == value,
{
    AsPrimitive::<i32>::as_(value)
}

/// `AsPrimitive::<u8>::as_` of num-traits on an `i32`, which is the cast
/// `as u8`: a value that fits is kept. Of other values nothing is claimed.
#[verifier::external_body]
fn i32_as_u8(value: i32) -> (narrow: u8)
    ensures
        0 <= value <= 0xff ==> narrow == value,
{
    AsPrimitive::<u8>::as_(value)
}

/// `AsPrimitive::<u16>::as_` of num-traits on an `i32`, which is the cast
/// `as u16`: a value that fits is kept. Of other values nothing is claimed.
#[verifier::external_body]
fn i32_as_u16(value: i32) -> (narrow: u16)
    ensures
        0 <= value <= 0xffff ==> narrow == value,
{
    AsPrimitive::<u16>::as_(value)
}

/// A sample type of the planes: `u8` for 8 bits, `u16` for up to 16.
pub trait YuvSample: Copy + Sized {
    /// The bits of the type.
    spec fn type_bits() -> nat;

    /// The value of a sample.
    spec fn value(self) -> int;

    /// The sample of a value.
    spec fn of(value: int) -> Self;

    /// The bits of the type, which are 16 at most.
    fn get_type_bits() -> (bits: u32)
        ensures
            bits == Self::type_bits(),
            bits <= 16,
    ;

    fn as_i32(self) -> (wide: i32)
        ensures
            wide == self.value(),
            0 <= wide <= max_sample(Self::type_bits()),
    ;

    fn from_i32(value: i32) -> (sample: Self)
        requires
            0 <= value <= max_sample(Self::type_bits()),
        ensures
            sample == Self::of(value as int),
    ;
}

impl YuvSample for u8 {
    open spec fn type_bits() -> nat {
        8
    }

    open spec fn value(self) -> int {
        self as int
    }

    open spec fn of(value: int) -> u8 {
        value as u8
    }

    fn get_type_bits() -> (bits: u32) {
        8
    }

    fn as_i32(self) -> (wide: i32) {
        proof {
            lemma2_to64();
        }
        u8_as_i32(self)
    }

    fn from_i32(value: i32) -> (sample: u8) {
        proof {
            lemma2_to64();
        }
        i32_as_u8(value)
    }
}

impl YuvSample for u16 {
    open spec fn type_bits() -> nat {
        16
    }

    open spec fn value(self) -> int {
        self as int
    }

    open spec fn of(value: int) -> u16 {
        value as u16
    }

    fn get_type_bits() -> (bits: u32) {
        16
    }

    fn as_i32(self) -> (wide: i32) {
        proof {
            lemma2_to64();
        }
        u16_as_i32(self)
    }

    fn from_i32(value: i32) -> (sample: u16) {
        proof {
            lemma2_to64();
        }
        i32_as_u16(value)
    }
}

/// How the conversion rounds at `bit_depth` bits: half of `2^11` is added,
/// the sum is shifted right by 11 and held to the samples of the depth.
pub open spec fn rounding_at(bit_depth: nat) -> Rounding {
    Rounding { rounding: 1024, shift: 11, max: max_sample(bit_depth) as i32 }
}

/// The bit depths that samples of type `V` can hold.
pub open spec fn depth_fits<V: YuvSample>(bit_depth: int) -> bool {
    8 <= bit_depth <= V::type_bits()
}

/// Sample `j` of a row of R, G, B, A, from a luma row and the chroma rows of
/// half its width. The two columns of a pair use the same chroma sample, a
/// last odd column that of its own pair. Alpha is the largest sample.
pub open spec fn rgba_sample<V: YuvSample>(
    y_plane: Seq<V>,
    y_offset: int,
    u_plane: Seq<V>,
    u_offset: int,
    v_plane: Seq<V>,
    v_offset: int,
    transform: CbCrInverseTransform<i32>,
    range: YuvChromaRange,
    mode: Rounding,
    j: int,
) -> V {
    let x = j / 4;
    let slot = j % 4;
    let y = y_plane[y_offset + x].value();
    let cb = u_plane[u_offset + x / 2].value();
    let cr = v_plane[v_offset + x / 2].value();
    V::of(
        if slot == 0 {
            spec_red(transform, range, mode, y, cr)
        } else if slot == 1 {
            spec_green(transform, range, mode, y, cb, cr)
        } else if slot == 2 {
            spec_blue(transform, range, mode, y, cb)
        } else {
            mode.max as int
        },
    )
}

/// A row of R, G, B, A as a function of the sample's place in it.
pub open spec fn rgba_row<V: YuvSample>(
    y_plane: Seq<V>,
    y_offset: int,
    u_plane: Seq<V>,
    u_offset: int,
    v_plane: Seq<V>,
    v_offset: int,
    transform: CbCrInverseTransform<i32>,
    range: YuvChromaRange,
    mode: Rounding,
) -> spec_fn(int) -> V {
    |j: int|
        rgba_sample(
            y_plane,
            y_offset,
            u_plane,
            u_offset,
            v_plane,
            v_offset,
            transform,
            range,
            mode,
            j,
        )
}

/// The image of R, G, B, A as a function of row and sample.
pub open spec fn rgba_image<V: YuvSample>(
    y_plane: Seq<V>,
    y_stride: int,
    u_plane: Seq<V>,
    u_stride: int,
    v_plane: Seq<V>,
    v_stride: int,
    transform: CbCrInverseTransform<i32>,
    range: YuvChromaRange,
    mode: Rounding,
) -> spec_fn(int, int) -> V {
    |row: int, j: int|
        rgba_sample(
            y_plane,
            cell(y_stride, row, 0),
            u_plane,
            cell(u_stride, row, 0),
            v_plane,
            cell(v_stride, row, 0),
            transform,
            range,
            mode,
            j,
        )
}

/// The planes of a 4:2:2 image and the destination, whose rows are four
/// samples a pixel with no padding, hold `width` by `height` pixels.
pub open spec fn yuv422_planes_fit(
    y_len: int,
    y_stride: int,
    u_len: int,
    u_stride: int,
    v_len: int,
    v_stride: int,
    rgb_len: int,
    width: int,
    height: int,
) -> bool {
    &&& plane_fits(y_len, y_stride, width, height)
    &&& plane_fits(u_len, u_stride, (width + 1) / 2, height)
    &&& plane_fits(v_len, v_stride, (width + 1) / 2, height)
    &&& plane_fits(rgb_len, 4 * width, 4 * width, height)
}

fn plane_holds(len: usize, stride: usize, row_len: usize, rows: usize) -> (fits: bool)
    ensures
        fits == plane_fits(len as int, stride as int, row_len as int, rows as int),
{
    if row_len > stride {
        return false;
    }
    match rows.checked_mul(stride) {
        Some(needed) => needed <= len,
        None => false,
    }
}

/// What the conversion leaves behind. A bit depth below 8 or beyond the
/// sample type is refused, then a degenerate matrix, then planes that do not
/// fit; a refusal writes nothing. Otherwise every pixel is written.
pub open spec fn yuv422_to_rgba_post<V: YuvSample>(
    y_plane: Seq<V>,
    y_stride: int,
    u_plane: Seq<V>,
    u_stride: int,
    v_plane: Seq<V>,
    v_stride: int,
    before: Seq<V>,
    after: Seq<V>,
    bit_depth: int,
    width: int,
    height: int,
    range: YuvRange,
    matrix: YuvStandardMatrix,
    result: Result<(), YuvError>,
) -> bool {
    if !depth_fits::<V>(bit_depth) {
        &&& result == Err::<(), YuvError>(YuvError::UnsupportedBitDepth)
        &&& after == before
    } else if !matrix.is_valid() {
        &&& result == Err::<(), YuvError>(YuvError::InvalidMatrix)
        &&& after == before
    } else if !yuv422_planes_fit(
        y_plane.len() as int,
        y_stride,
        u_plane.len() as int,
        u_stride,
        v_plane.len() as int,
        v_stride,
        before.len() as int,
        width,
        height,
    ) {
        &&& result == Err::<(), YuvError>(YuvError::BufferSizeMismatch)
        &&& after == before
    } else {
        &&& result is Ok
        &&& plane_written(
            before,
            after,
            4 * width,
            4 * width,
            height,
            rgba_image(
                y_plane,
                y_stride,
                u_plane,
                u_stride,
                v_plane,
                v_stride,
                inverse_coefficients(
                    range,
                    matrix,
                    bit_depth as nat,
                    max_sample(bit_depth as nat),
                    PRECISION as nat,
                ),
                spec_yuv_range(bit_depth as nat, range),
                rounding_at(bit_depth as nat),
            ),
        )
    }
}

/// Converts one row.
pub fn yuv422_to_rgba_row<V: YuvSample>(
    y_plane: &[V],
    y_offset: usize,
    u_plane: &[V],
    u_offset: usize,
    v_plane: &[V],
    v_offset: usize,
    rgb: &mut [V],
    dst_offset: usize,
    width: usize,
    range: &YuvChromaRange,
    transform: &CbCrInverseTransform<i32>,
    mode: Rounding,
)
    requires
        range.fits(0xffff),
        mode.wf(),
        mode.max <= max_sample(V::type_bits()) <= 0xffff,
        y_offset + width <= y_plane@.len(),
        u_offset + (width + 1) / 2 <= u_plane@.len(),
        v_offset + (width + 1) / 2 <= v_plane@.len(),
        dst_offset + 4 * width <= old(rgb)@.len(),
    ensures
        row_written(
            old(rgb)@,
            final(rgb)@,
            dst_offset as int,
            4 * width,
            rgba_row(
                y_plane@,
                y_offset as int,
                u_plane@,
                u_offset as int,
                v_plane@,
                v_offset as int,
                *transform,
                *range,
                mode,
            ),
        ),
{
    proof {
        lemma_len_fits(y_plane);
        lemma_len_fits(u_plane);
        lemma_len_fits(v_plane);
        lemma_len_fits(rgb);
    }
    let ghost row = rgba_row(
        y_plane@,
        y_offset as int,
        u_plane@,
        u_offset as int,
        v_plane@,
        v_offset as int,
        *transform,
        *range,
        mode,
    );
    let mut x: usize = 0;
    while x < width
        invariant
            x <= width,
            range.fits(0xffff),
            mode.wf(),
            mode.max <= max_sample(V::type_bits()) <= 0xffff,
            row == rgba_row(
                y_plane@,
                y_offset as int,
                u_plane@,
                u_offset as int,
                v_plane@,
                v_offset as int,
                *transform,
                *range,
                mode,
            ),
            y_offset + width <= y_plane@.len() <= usize::MAX,
            u_offset + (width + 1) / 2 <= u_plane@.len() <= usize::MAX,
            v_offset + (width + 1) / 2 <= v_plane@.len() <= usize::MAX,
            dst_offset + 4 * width <= rgb@.len() <= usize::MAX,
            rgb@.len() == old(rgb)@.len(),
            forall|i: int|
                dst_offset <= i < dst_offset + 4 * x ==> #[trigger] rgb@[i] == row(i - dst_offset),
            forall|i: int|
                0 <= i < rgb@.len() && !(dst_offset <= i < dst_offset + 4 * x)
                    ==> #[trigger] rgb@[i] == old(rgb)@[i],
        decreases width - x,
    {
        let y_value: i32 = y_plane[y_offset + x].as_i32();
        let cb_value: i32 = u_plane[u_offset + x / 2].as_i32();
        let cr_value: i32 = v_plane[v_offset + x / 2].as_i32();
        let color: Rgb = yuv_to_rgb(
            transform,
            range,
            mode,
            y_value as u16,
            cb_value as u16,
            cr_value as u16,
        );
        let start: usize = dst_offset + 4 * x;
        let ghost earlier = rgb@;
        rgb[start] = V::from_i32(color.r);
        rgb[start + 1] = V::from_i32(color.g);
        rgb[start + 2] = V::from_i32(color.b);
        rgb[start + 3] = V::from_i32(mode.max);
        proof {
            assert forall|i: int| start <= i < start + 4 implies #[trigger] rgb@[i] == row(
                i - dst_offset,
            ) by {
                let j = i - dst_offset;
                assert(j / 4 == x && j % 4 == i - start);
            }
            lemma_row_extended(old(rgb)@, earlier, rgb@, dst_offset as int, 4 * x, 4, row);
        }
        x += 1;
    }
}

/// Converts a planar 4:2:2 image to interleaved R, G, B, A of the same bit
/// depth. Strides count samples, so an image can be cropped in place; the
/// destination has no padding.
pub fn yuv422_to_rgba<V: YuvSample>(
    y_plane: &[V],
    y_stride: usize,
    u_plane: &[V],
    u_stride: usize,
    v_plane: &[V],
    v_stride: usize,
    rgb: &mut [V],
    bit_depth: u32,
    width: usize,
    height: usize,
    range: YuvRange,
    matrix: YuvStandardMatrix,
) -> (result: Result<(), YuvError>)
    ensures
        yuv422_to_rgba_post(
            y_plane@,
            y_stride as int,
            u_plane@,
            u_stride as int,
            v_plane@,
            v_stride as int,
            old(rgb)@,
            final(rgb)@,
            bit_depth as int,
            width as int,
            height as int,
            range,
            matrix,
            result,
        ),
{
    if bit_depth < 8 || bit_depth > V::get_type_bits() {
        return Err(YuvError::UnsupportedBitDepth);
    }
    let max_value: u32 = (power_of_two(bit_depth) - 1) as u32;
    proof {
        lemma_yuv_range_bounds(bit_depth as nat, range);
        lemma2_to64();
        if bit_depth < V::type_bits() {
            lemma_pow2_strictly_increases(bit_depth as nat, V::type_bits());
        }
        lemma_len_fits(y_plane);
        lemma_len_fits(u_plane);
        lemma_len_fits(v_plane);
        lemma_len_fits(rgb);
    }
    let transform: CbCrInverseTransform<i32> = match get_inverse_coefficients(
        range,
        matrix,
        bit_depth,
        max_value,
        PRECISION,
    ) {
        Ok(transform) => transform,
        Err(error) => { return Err(error); },
    };
    let chroma_width: usize = width / 2 + width % 2;
    let source_fits: bool = plane_holds(plane_len(y_plane), y_stride, width, height)
        && plane_holds(plane_len(u_plane), u_stride, chroma_width, height) && plane_holds(
        plane_len(v_plane),
        v_stride,
        chroma_width,
        height,
    );
    let rgb_stride: usize = match width.checked_mul(4) {
        Some(stride) => stride,
        None => {
            // A row that no buffer can hold fits only an image without rows.
            assert(height * (4 * width) > usize::MAX || height == 0) by (nonlinear_arith)
                requires
                    4 * width > usize::MAX,
                    height >= 0,
            ;
            if height == 0 && source_fits {
                return Ok(());
            }
            return Err(YuvError::BufferSizeMismatch);
        },
    };
    if !(source_fits && plane_holds(plane_len(rgb), rgb_stride, rgb_stride, height)) {
        return Err(YuvError::BufferSizeMismatch);
    }
    if width == 0 {
        return Ok(());
    }
    let chroma_range: YuvChromaRange = get_yuv_range(bit_depth, range);
    let mode = Rounding { rounding: 1024, shift: PRECISION, max: max_value as i32 };
    let ghost image = rgba_image(
        y_plane@,
        y_stride as int,
        u_plane@,
        u_stride as int,
        v_plane@,
        v_stride as int,
        transform,
        chroma_range,
        mode,
    );
    let mut y: usize = 0;
    while y < height
        invariant
            y <= height,
            width > 0,
            rgb_stride == 4 * width,
            chroma_range.fits(0xffff),
            mode.wf(),
            mode.max <= max_sample(V::type_bits()) <= 0xffff,
            y_plane@.len() <= usize::MAX,
            u_plane@.len() <= usize::MAX,
            v_plane@.len() <= usize::MAX,
            rgb@.len() == old(rgb)@.len() <= usize::MAX,
            yuv422_planes_fit(
                y_plane@.len() as int,
                y_stride as int,
                u_plane@.len() as int,
                u_stride as int,
                v_plane@.len() as int,
                v_stride as int,
                rgb@.len() as int,
                width as int,
                height as int,
            ),
            image == rgba_image(
                y_plane@,
                y_stride as int,
                u_plane@,
                u_stride as int,
                v_plane@,
                v_stride as int,
                transform,
                chroma_range,
                mode,
            ),
            plane_written(old(rgb)@, rgb@, 4 * width, 4 * width, y as int, image),
        decreases height - y,
    {
        proof {
            lemma_cell_order(y_stride as int, y as int, 0, height as int);
            lemma_cell_order(u_stride as int, y as int, 0, height as int);
            lemma_cell_order(v_stride as int, y as int, 0, height as int);
            lemma_cell_order(4 * width, y as int, 0, height as int);
            lemma_rows_fit(4 * width, y as int, height as int);
        }
        let y_offset: usize = y * y_stride;
        let u_offset: usize = y * u_stride;
        let v_offset: usize = y * v_stride;
        let dst_offset: usize = y * rgb_stride;
        let ghost middle = rgb@;
        yuv422_to_rgba_row(
            y_plane,
            y_offset,
            u_plane,
            u_offset,
            v_plane,
            v_offset,
            rgb,
            dst_offset,
            width,
            &chroma_range,
            &transform,
            mode,
        );
        proof {
            assert(row_written(
                middle,
                rgb@,
                cell(4 * width, y as int, 0),
                4 * width,
                |j: int| image(y as int, j),
            ));
            lemma_plane_row_written(
                old(rgb)@,
                middle,
                rgb@,
                4 * width,
                4 * width,
                y as int,
                y as int,
                image,
                image,
            );
        }
        y += 1;
    }
    Ok(())
}

} // verus!

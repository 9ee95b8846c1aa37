//! Packed 4:2:2 to planar YUV.

use crate::planes::cell;
use crate::planes::lemma_cell_order;
use crate::planes::lemma_len_fits;
use crate::planes::lemma_plane_row_written;
use crate::planes::lemma_row_extended;
use crate::planes::lemma_rows_fit;
use crate::planes::plane_written;
use crate::planes::row_written;
use crate::yuv_error::YuvError;
use crate::yuv_support::YuvChromaSample;
use crate::yuv_support::Yuy2Description;
use crate::yuv_to_yuy2::check_yuy2_planes;
use crate::yuv_to_yuy2::packed_row_len;
use crate::yuv_to_yuy2::yuy2_planes_fit;
use vstd::prelude::*;

verus! {

/// The luma sample of column `x`, from the packed row that starts at
/// `offset`: the first luma slot of group `x / 2` for an even column, the
/// second for an odd one.
pub open spec fn unpacked_luma(packed: Seq<u8>, offset: int, target: Yuy2Description, x: int) -> u8 {
    packed[offset + 4 * (x / 2) + if x % 2 == 0 {
        target.spec_first_y_position()
    } else {
        target.spec_second_y_position()
    }]
}

/// Chroma sample `cx` of a row, from the packed row that starts at `offset`.
/// `position` is the place of U or of V in a group. A 4:4:4 row gets the
/// sample of a group in both of its columns.
pub open spec fn unpacked_chroma(
    packed: Seq<u8>,
    offset: int,
    sampling: YuvChromaSample,
    position: int,
    cx: int,
) -> u8 {
    packed[offset + 4 * (if sampling == YuvChromaSample::YUV444 {
        cx / 2
    } else {
        cx
    }) + position]
}

/// A luma row as a function of the column.
pub open spec fn unpacked_luma_row(
    packed: Seq<u8>,
    offset: int,
    target: Yuy2Description,
) -> spec_fn(int) -> u8 {
    |x: int| unpacked_luma(packed, offset, target, x)
}

/// A chroma row as a function of the sample's place in it.
pub open spec fn unpacked_chroma_row(
    packed: Seq<u8>,
    offset: int,
    sampling: YuvChromaSample,
    position: int,
) -> spec_fn(int) -> u8 {
    |cx: int| unpacked_chroma(packed, offset, sampling, position, cx)
}

/// The luma plane as a function of row and column.
pub open spec fn unpacked_luma_image(
    packed: Seq<u8>,
    stride: int,
    target: Yuy2Description,
) -> spec_fn(int, int) -> u8 {
    |row: int, x: int| unpacked_luma(packed, cell(stride, row, 0), target, x)
}

/// The packed row that chroma row `chroma_row` is taken from, once the first
/// `rows` packed rows are converted. In 4:2:0 two packed rows share a chroma
/// row and the later one is kept: the odd row, or the even one where the
/// image ends with it.
pub open spec fn chroma_source_row(sampling: YuvChromaSample, chroma_row: int, rows: int) -> int {
    if sampling == YuvChromaSample::YUV420 {
        if 2 * chroma_row + 1 < rows {
            2 * chroma_row + 1
        } else {
            rows - 1
        }
    } else {
        chroma_row
    }
}

/// A chroma plane as a function of row and sample, once the first `rows`
/// packed rows are converted.
pub open spec fn unpacked_chroma_image(
    packed: Seq<u8>,
    stride: int,
    sampling: YuvChromaSample,
    position: int,
    rows: int,
) -> spec_fn(int, int) -> u8 {
    |chroma_row: int, cx: int|
        unpacked_chroma(
            packed,
            cell(stride, chroma_source_row(sampling, chroma_row, rows), 0),
            sampling,
            position,
            cx,
        )
}

/// What a conversion from packed to planar leaves behind. Planes that fit are
/// converted: the luma plane holds every luma sample of the packed image,
/// each chroma plane the chroma of the groups, and the padding of the planes
/// is untouched. Planes that do not fit are refused and nothing is written.
pub open spec fn yuy2_to_yuv_post(
    y_before: Seq<u8>,
    y_after: Seq<u8>,
    y_stride: int,
    u_before: Seq<u8>,
    u_after: Seq<u8>,
    u_stride: int,
    v_before: Seq<u8>,
    v_after: Seq<u8>,
    v_stride: int,
    packed: Seq<u8>,
    yuy2_stride: int,
    width: int,
    height: int,
    sampling: YuvChromaSample,
    target: Yuy2Description,
    result: Result<(), YuvError>,
) -> bool {
    if yuy2_planes_fit(
        y_before.len() as int,
        y_stride,
        u_before.len() as int,
        u_stride,
        v_before.len() as int,
        v_stride,
        packed.len() as int,
        yuy2_stride,
        width,
        height,
        sampling,
    ) {
        &&& result is Ok
        &&& plane_written(
            y_before,
            y_after,
            y_stride,
            width,
            height,
            unpacked_luma_image(packed, yuy2_stride, target),
        )
        &&& plane_written(
            u_before,
            u_after,
            u_stride,
            sampling.chroma_width(width),
            sampling.chroma_height(height),
            unpacked_chroma_image(packed, yuy2_stride, sampling, target.spec_u_position(), height),
        )
        &&& plane_written(
            v_before,
            v_after,
            v_stride,
            sampling.chroma_width(width),
            sampling.chroma_height(height),
            unpacked_chroma_image(packed, yuy2_stride, sampling, target.spec_v_position(), height),
        )
    } else {
        &&& result == Err::<(), YuvError>(YuvError::BufferSizeMismatch)
        &&& y_after == y_before
        &&& u_after == u_before
        &&& v_after == v_before
    }
}

/// Unpacks one row. The packed row starts at `yuy2_offset`, the luma row at
/// `y_offset` and the chroma rows at `u_offset` and `v_offset`.
pub fn yuy2_to_yuv_row(
    y_plane: &mut [u8],
    y_offset: usize,
    u_plane: &mut [u8],
    u_offset: usize,
    v_plane: &mut [u8],
    v_offset: usize,
    yuy2_store: &[u8],
    yuy2_offset: usize,
    width: u32,
    sampling: YuvChromaSample,
    target: Yuy2Description,
)
    requires
        y_offset + width <= old(y_plane)@.len(),
        u_offset + sampling.chroma_width(width as int) <= old(u_plane)@.len(),
        v_offset + sampling.chroma_width(width as int) <= old(v_plane)@.len(),
        yuy2_offset + packed_row_len(width as int) <= yuy2_store@.len(),
    ensures
        row_written(
            old(y_plane)@,
            final(y_plane)@,
            y_offset as int,
            width as int,
            unpacked_luma_row(yuy2_store@, yuy2_offset as int, target),
        ),
        row_written(
            old(u_plane)@,
            final(u_plane)@,
            u_offset as int,
            sampling.chroma_width(width as int),
            unpacked_chroma_row(
                yuy2_store@,
                yuy2_offset as int,
                sampling,
                target.spec_u_position(),
            ),
        ),
        row_written(
            old(v_plane)@,
            final(v_plane)@,
            v_offset as int,
            sampling.chroma_width(width as int),
            unpacked_chroma_row(
                yuy2_store@,
                yuy2_offset as int,
                sampling,
                target.spec_v_position(),
            ),
        ),
{
    proof {
        lemma_len_fits(y_plane);
        lemma_len_fits(u_plane);
        lemma_len_fits(v_plane);
        lemma_len_fits(yuy2_store);
    }
    let pairs: usize = width as usize / 2;
    let first_y: usize = target.get_first_y_position();
    let second_y: usize = target.get_second_y_position();
    let u_position: usize = target.get_u_position();
    let v_position: usize = target.get_v_position();
    let step: usize = if sampling == YuvChromaSample::YUV444 {
        2
    } else {
        1
    };
    let ghost luma = unpacked_luma_row(yuy2_store@, yuy2_offset as int, target);
    let ghost chroma_u = unpacked_chroma_row(
        yuy2_store@,
        yuy2_offset as int,
        sampling,
        target.spec_u_position(),
    );
    let ghost chroma_v = unpacked_chroma_row(
        yuy2_store@,
        yuy2_offset as int,
        sampling,
        target.spec_v_position(),
    );
    let mut x: usize = 0;
    while x < pairs
        invariant
            x <= pairs,
            pairs == width as usize / 2,
            step == if sampling == YuvChromaSample::YUV444 {
                2usize
            } else {
                1usize
            },
            first_y == target.spec_first_y_position(),
            second_y == target.spec_second_y_position(),
            u_position == target.spec_u_position(),
            v_position == target.spec_v_position(),
            luma == unpacked_luma_row(yuy2_store@, yuy2_offset as int, target),
            chroma_u == unpacked_chroma_row(yuy2_store@, yuy2_offset as int, sampling, u_position as int),
            chroma_v == unpacked_chroma_row(yuy2_store@, yuy2_offset as int, sampling, v_position as int),
            y_offset + width <= y_plane@.len() <= usize::MAX,
            u_offset + sampling.chroma_width(width as int) <= u_plane@.len() <= usize::MAX,
            v_offset + sampling.chroma_width(width as int) <= v_plane@.len() <= usize::MAX,
            yuy2_offset + packed_row_len(width as int) <= yuy2_store@.len() <= usize::MAX,
            y_plane@.len() == old(y_plane)@.len(),
            u_plane@.len() == old(u_plane)@.len(),
            v_plane@.len() == old(v_plane)@.len(),
            forall|i: int| y_offset <= i < y_offset + 2 * x ==> #[trigger] y_plane@[i] == luma(i - y_offset),
            forall|i: int|
                0 <= i < y_plane@.len() && !(y_offset <= i < y_offset + 2 * x)
                    ==> #[trigger] y_plane@[i] == old(y_plane)@[i],
            forall|i: int|
                u_offset <= i < u_offset + step * x ==> #[trigger] u_plane@[i] == chroma_u(i - u_offset),
            forall|i: int|
                0 <= i < u_plane@.len() && !(u_offset <= i < u_offset + step * x)
                    ==> #[trigger] u_plane@[i] == old(u_plane)@[i],
            forall|i: int|
                v_offset <= i < v_offset + step * x ==> #[trigger] v_plane@[i] == chroma_v(i - v_offset),
            forall|i: int|
                0 <= i < v_plane@.len() && !(v_offset <= i < v_offset + step * x)
                    ==> #[trigger] v_plane@[i] == old(v_plane)@[i],
        decreases pairs - x,
    {
        let group: usize = yuy2_offset + x * 4;
        let first_y_value: u8 = yuy2_store[group + first_y];
        let second_y_value: u8 = yuy2_store[group + second_y];
        let u_value: u8 = yuy2_store[group + u_position];
        let v_value: u8 = yuy2_store[group + v_position];
        let y_pos: usize = y_offset + 2 * x;
        let u_pos: usize = u_offset + step * x;
        let v_pos: usize = v_offset + step * x;
        let ghost y_earlier = y_plane@;
        let ghost u_earlier = u_plane@;
        let ghost v_earlier = v_plane@;
        y_plane[y_pos] = first_y_value;
        y_plane[y_pos + 1] = second_y_value;
        u_plane[u_pos] = u_value;
        v_plane[v_pos] = v_value;
        if sampling == YuvChromaSample::YUV444 {
            u_plane[u_pos + 1] = u_value;
            v_plane[v_pos + 1] = v_value;
        }
        proof {
            assert((2 * x) / 2 == x && (2 * x + 1) / 2 == x);
            assert(luma(2 * x) == first_y_value);
            assert(luma(2 * x + 1) == second_y_value);
            assert(chroma_u(step * x) == u_value);
            assert(chroma_v(step * x) == v_value);
            if sampling == YuvChromaSample::YUV444 {
                assert(chroma_u(step * x + 1) == u_value);
                assert(chroma_v(step * x + 1) == v_value);
            }
            lemma_row_extended(
                old(y_plane)@,
                y_earlier,
                y_plane@,
                y_offset as int,
                2 * x,
                2,
                luma,
            );
            lemma_row_extended(
                old(u_plane)@,
                u_earlier,
                u_plane@,
                u_offset as int,
                step * x,
                step as int,
                chroma_u,
            );
            lemma_row_extended(
                old(v_plane)@,
                v_earlier,
                v_plane@,
                v_offset as int,
                step * x,
                step as int,
                chroma_v,
            );
            assert(step * (x + 1) == step * x + step);
        }
        x += 1;
    }
    if width % 2 == 1 {
        let group: usize = yuy2_offset + ((width as usize - 1) / 2) * 4;
        let first_y_value: u8 = yuy2_store[group + first_y];
        let u_value: u8 = yuy2_store[group + u_position];
        let v_value: u8 = yuy2_store[group + v_position];
        let y_pos: usize = y_offset + 2 * pairs;
        let u_pos: usize = u_offset + step * pairs;
        let v_pos: usize = v_offset + step * pairs;
        let ghost y_earlier = y_plane@;
        let ghost u_earlier = u_plane@;
        let ghost v_earlier = v_plane@;
        y_plane[y_pos] = first_y_value;
        u_plane[u_pos] = u_value;
        v_plane[v_pos] = v_value;
        proof {
            assert((2 * pairs) / 2 == pairs);
            assert(luma(2 * pairs) == first_y_value);
            assert(chroma_u(step * pairs) == u_value);
            assert(chroma_v(step * pairs) == v_value);
            lemma_row_extended(
                old(y_plane)@,
                y_earlier,
                y_plane@,
                y_offset as int,
                2 * pairs,
                1,
                luma,
            );
            lemma_row_extended(
                old(u_plane)@,
                u_earlier,
                u_plane@,
                u_offset as int,
                step * pairs,
                1,
                chroma_u,
            );
            lemma_row_extended(
                old(v_plane)@,
                v_earlier,
                v_plane@,
                v_offset as int,
                step * pairs,
                1,
                chroma_v,
            );
        }
    }
}

/// Converts a packed 4:2:2 image to a planar image, row by row.
pub fn yuy2_to_yuv_impl(
    y_plane: &mut [u8],
    y_stride: u32,
    u_plane: &mut [u8],
    u_stride: u32,
    v_plane: &mut [u8],
    v_stride: u32,
    yuy2_store: &[u8],
    yuy2_stride: u32,
    width: u32,
    height: u32,
    sampling: YuvChromaSample,
    target: Yuy2Description,
) -> (result: Result<(), YuvError>)
    ensures
        yuy2_to_yuv_post(
            old(y_plane)@,
            final(y_plane)@,
            y_stride as int,
            old(u_plane)@,
            final(u_plane)@,
            u_stride as int,
            old(v_plane)@,
            final(v_plane)@,
            v_stride as int,
            yuy2_store@,
            yuy2_stride as int,
            width as int,
            height as int,
            sampling,
            target,
            result,
        ),
{
    if !check_yuy2_planes(
        y_plane.len(),
        y_stride,
        u_plane.len(),
        u_stride,
        v_plane.len(),
        v_stride,
        yuy2_store.len(),
        yuy2_stride,
        width,
        height,
        sampling,
    ) {
        return Err(YuvError::BufferSizeMismatch);
    }
    if width == 0 {
        return Ok(());
    }
    proof {
        lemma_len_fits(y_plane);
        lemma_len_fits(u_plane);
        lemma_len_fits(v_plane);
        lemma_len_fits(yuy2_store);
    }
    let ghost luma = unpacked_luma_image(yuy2_store@, yuy2_stride as int, target);
    let ghost chroma_width = sampling.chroma_width(width as int);
    let ghost chroma_height = sampling.chroma_height(height as int);
    let mut y: usize = 0;
    while y < height as usize
        invariant
            y <= height,
            width > 0,
            y_plane@.len() == old(y_plane)@.len() <= usize::MAX,
            u_plane@.len() == old(u_plane)@.len() <= usize::MAX,
            v_plane@.len() == old(v_plane)@.len() <= usize::MAX,
            yuy2_store@.len() <= usize::MAX,
            chroma_width == sampling.chroma_width(width as int),
            chroma_height == sampling.chroma_height(height as int),
            yuy2_planes_fit(
                y_plane@.len() as int,
                y_stride as int,
                u_plane@.len() as int,
                u_stride as int,
                v_plane@.len() as int,
                v_stride as int,
                yuy2_store@.len() as int,
                yuy2_stride as int,
                width as int,
                height as int,
                sampling,
            ),
            luma == unpacked_luma_image(yuy2_store@, yuy2_stride as int, target),
            plane_written(old(y_plane)@, y_plane@, y_stride as int, width as int, y as int, luma),
            plane_written(
                old(u_plane)@,
                u_plane@,
                u_stride as int,
                chroma_width,
                sampling.chroma_height(y as int),
                unpacked_chroma_image(
                    yuy2_store@,
                    yuy2_stride as int,
                    sampling,
                    target.spec_u_position(),
                    y as int,
                ),
            ),
            plane_written(
                old(v_plane)@,
                v_plane@,
                v_stride as int,
                chroma_width,
                sampling.chroma_height(y as int),
                unpacked_chroma_image(
                    yuy2_store@,
                    yuy2_stride as int,
                    sampling,
                    target.spec_v_position(),
                    y as int,
                ),
            ),
        decreases height - y,
    {
        let chroma_y: usize = if sampling == YuvChromaSample::YUV420 {
            y / 2
        } else {
            y
        };
        let ghost chroma_done = sampling.chroma_height(y as int);
        proof {
            lemma_cell_order(y_stride as int, y as int, 0, height as int);
            lemma_cell_order(yuy2_stride as int, y as int, 0, height as int);
            lemma_cell_order(u_stride as int, chroma_y as int, 0, chroma_height);
            lemma_cell_order(v_stride as int, chroma_y as int, 0, chroma_height);
            lemma_rows_fit(y_stride as int, y as int, height as int);
            lemma_rows_fit(u_stride as int, chroma_done, chroma_height);
            lemma_rows_fit(v_stride as int, chroma_done, chroma_height);
        }
        let y_offset: usize = y * (y_stride as usize);
        let u_offset: usize = chroma_y * (u_stride as usize);
        let v_offset: usize = chroma_y * (v_stride as usize);
        let yuy2_offset: usize = y * (yuy2_stride as usize);
        let ghost y_middle = y_plane@;
        let ghost u_middle = u_plane@;
        let ghost v_middle = v_plane@;
        yuy2_to_yuv_row(
            y_plane,
            y_offset,
            u_plane,
            u_offset,
            v_plane,
            v_offset,
            yuy2_store,
            yuy2_offset,
            width,
            sampling,
            target,
        );
        proof {
            let u_earlier = unpacked_chroma_image(
                yuy2_store@,
                yuy2_stride as int,
                sampling,
                target.spec_u_position(),
                y as int,
            );
            let u_value = unpacked_chroma_image(
                yuy2_store@,
                yuy2_stride as int,
                sampling,
                target.spec_u_position(),
                y + 1,
            );
            let v_earlier = unpacked_chroma_image(
                yuy2_store@,
                yuy2_stride as int,
                sampling,
                target.spec_v_position(),
                y as int,
            );
            let v_value = unpacked_chroma_image(
                yuy2_store@,
                yuy2_stride as int,
                sampling,
                target.spec_v_position(),
                y + 1,
            );
            assert(chroma_source_row(sampling, chroma_y as int, y + 1) == y);
            assert(row_written(
                y_middle,
                y_plane@,
                cell(y_stride as int, y as int, 0),
                width as int,
                |j: int| luma(y as int, j),
            ));
            lemma_plane_row_written(
                old(y_plane)@,
                y_middle,
                y_plane@,
                y_stride as int,
                width as int,
                y as int,
                y as int,
                luma,
                luma,
            );
            assert(row_written(
                u_middle,
                u_plane@,
                cell(u_stride as int, chroma_y as int, 0),
                chroma_width,
                |j: int| u_value(chroma_y as int, j),
            ));
            assert forall|row: int, j: int|
                0 <= row < chroma_done && row != chroma_y && 0 <= j < chroma_width implies #[trigger] u_value(
                row,
                j,
            ) == u_earlier(row, j) by {
                assert(chroma_source_row(sampling, row, y + 1) == chroma_source_row(
                    sampling,
                    row,
                    y as int,
                ));
            }
            lemma_plane_row_written(
                old(u_plane)@,
                u_middle,
                u_plane@,
                u_stride as int,
                chroma_width,
                chroma_done,
                chroma_y as int,
                u_earlier,
                u_value,
            );
            assert(row_written(
                v_middle,
                v_plane@,
                cell(v_stride as int, chroma_y as int, 0),
                chroma_width,
                |j: int| v_value(chroma_y as int, j),
            ));
            assert forall|row: int, j: int|
                0 <= row < chroma_done && row != chroma_y && 0 <= j < chroma_width implies #[trigger] v_value(
                row,
                j,
            ) == v_earlier(row, j) by {
                assert(chroma_source_row(sampling, row, y + 1) == chroma_source_row(
                    sampling,
                    row,
                    y as int,
                ));
            }
            lemma_plane_row_written(
                old(v_plane)@,
                v_middle,
                v_plane@,
                v_stride as int,
                chroma_width,
                chroma_done,
                chroma_y as int,
                v_earlier,
                v_value,
            );
        }
        y += 1;
    }
    Ok(())
}

/// Converts packed YUYV to a planar 4:4:4 image. Both columns of a pair get the chroma sample of their group.
pub fn yuyv422_to_yuv444(
    y_plane: &mut [u8],
    y_stride: u32,
    u_plane: &mut [u8],
    u_stride: u32,
    v_plane: &mut [u8],
    v_stride: u32,
    yuy2_store: &[u8],
    yuy2_stride: u32,
    width: u32,
    height: u32,
) -> (result: Result<(), YuvError>)
    ensures
        yuy2_to_yuv_post(
            old(y_plane)@,
            final(y_plane)@,
            y_stride as int,
            old(u_plane)@,
            final(u_plane)@,
            u_stride as int,
            old(v_plane)@,
            final(v_plane)@,
            v_stride as int,
            yuy2_store@,
            yuy2_stride as int,
            width as int,
            height as int,
            YuvChromaSample::YUV444,
            Yuy2Description::YUYV,
            result,
        ),
{
    yuy2_to_yuv_impl(
        y_plane,
        y_stride,
        u_plane,
        u_stride,
        v_plane,
        v_stride,
        yuy2_store,
        yuy2_stride,
        width,
        height,
        YuvChromaSample::YUV444,
        Yuy2Description::YUYV,
    )
}

/// Converts packed YUYV to a planar 4:2:0 image. Two packed rows share a chroma row, and the later one is kept.
pub fn yuyv422_to_yuv420(
    y_plane: &mut [u8],
    y_stride: u32,
    u_plane: &mut [u8],
    u_stride: u32,
    v_plane: &mut [u8],
    v_stride: u32,
    yuy2_store: &[u8],
    yuy2_stride: u32,
    width: u32,
    height: u32,
) -> (result: Result<(), YuvError>)
    ensures
        yuy2_to_yuv_post(
            old(y_plane)@,
            final(y_plane)@,
            y_stride as int,
            old(u_plane)@,
            final(u_plane)@,
            u_stride as int,
            old(v_plane)@,
            final(v_plane)@,
            v_stride as int,
            yuy2_store@,
            yuy2_stride as int,
            width as int,
            height as int,
            YuvChromaSample::YUV420,
            Yuy2Description::YUYV,
            result,
        ),
{
    yuy2_to_yuv_impl(
        y_plane,
        y_stride,
        u_plane,
        u_stride,
        v_plane,
        v_stride,
        yuy2_store,
        yuy2_stride,
        width,
        height,
        YuvChromaSample::YUV420,
        Yuy2Description::YUYV,
    )
}

/// Converts packed YUYV to a planar 4:2:2 image. Chroma is unpacked as it is.
pub fn yuyv422_to_yuv422(
    y_plane: &mut [u8],
    y_stride: u32,
    u_plane: &mut [u8],
    u_stride: u32,
    v_plane: &mut [u8],
    v_stride: u32,
    yuy2_store: &[u8],
    yuy2_stride: u32,
    width: u32,
    height: u32,
) -> (result: Result<(), YuvError>)
    ensures
        yuy2_to_yuv_post(
            old(y_plane)@,
            final(y_plane)@,
            y_stride as int,
            old(u_plane)@,
            final(u_plane)@,
            u_stride as int,
            old(v_plane)@,
            final(v_plane)@,
            v_stride as int,
            yuy2_store@,
            yuy2_stride as int,
            width as int,
            height as int,
            YuvChromaSample::YUV422,
            Yuy2Description::YUYV,
            result,
        ),
{
    yuy2_to_yuv_impl(
        y_plane,
        y_stride,
        u_plane,
        u_stride,
        v_plane,
        v_stride,
        yuy2_store,
        yuy2_stride,
        width,
        height,
        YuvChromaSample::YUV422,
        Yuy2Description::YUYV,
    )
}

/// Converts packed YVYU to a planar 4:4:4 image. Both columns of a pair get the chroma sample of their group.
pub fn yvyu422_to_yuv444(
    y_plane: &mut [u8],
    y_stride: u32,
    u_plane: &mut [u8],
    u_stride: u32,
    v_plane: &mut [u8],
    v_stride: u32,
    yuy2_store: &[u8],
    yuy2_stride: u32,
    width: u32,
    height: u32,
) -> (result: Result<(), YuvError>)
    ensures
        yuy2_to_yuv_post(
            old(y_plane)@,
            final(y_plane)@,
            y_stride as int,
            old(u_plane)@,
            final(u_plane)@,
            u_stride as int,
            old(v_plane)@,
            final(v_plane)@,
            v_stride as int,
            yuy2_store@,
            yuy2_stride as int,
            width as int,
            height as int,
            YuvChromaSample::YUV444,
            Yuy2Description::YVYU,
            result,
        ),
{
    yuy2_to_yuv_impl(
        y_plane,
        y_stride,
        u_plane,
        u_stride,
        v_plane,
        v_stride,
        yuy2_store,
        yuy2_stride,
        width,
        height,
        YuvChromaSample::YUV444,
        Yuy2Description::YVYU,
    )
}

/// Converts packed YVYU to a planar 4:2:0 image. Two packed rows share a chroma row, and the later one is kept.
pub fn yvyu422_to_yuv420(
    y_plane: &mut [u8],
    y_stride: u32,
    u_plane: &mut [u8],
    u_stride: u32,
    v_plane: &mut [u8],
    v_stride: u32,
    yuy2_store: &[u8],
    yuy2_stride: u32,
    width: u32,
    height: u32,
) -> (result: Result<(), YuvError>)
    ensures
        yuy2_to_yuv_post(
            old(y_plane)@,
            final(y_plane)@,
            y_stride as int,
            old(u_plane)@,
            final(u_plane)@,
            u_stride as int,
            old(v_plane)@,
            final(v_plane)@,
            v_stride as int,
            yuy2_store@,
            yuy2_stride as int,
            width as int,
            height as int,
            YuvChromaSample::YUV420,
            Yuy2Description::YVYU,
            result,
        ),
{
    yuy2_to_yuv_impl(
        y_plane,
        y_stride,
        u_plane,
        u_stride,
        v_plane,
        v_stride,
        yuy2_store,
        yuy2_stride,
        width,
        height,
        YuvChromaSample::YUV420,
        Yuy2Description::YVYU,
    )
}

/// Converts packed YVYU to a planar 4:2:2 image. Chroma is unpacked as it is.
pub fn yvyu422_to_yuv422(
    y_plane: &mut [u8],
    y_stride: u32,
    u_plane: &mut [u8],
    u_stride: u32,
    v_plane: &mut [u8],
    v_stride: u32,
    yuy2_store: &[u8],
    yuy2_stride: u32,
    width: u32,
    height: u32,
) -> (result: Result<(), YuvError>)
    ensures
        yuy2_to_yuv_post(
            old(y_plane)@,
            final(y_plane)@,
            y_stride as int,
            old(u_plane)@,
            final(u_plane)@,
            u_stride as int,
            old(v_plane)@,
            final(v_plane)@,
            v_stride as int,
            yuy2_store@,
            yuy2_stride as int,
            width as int,
            height as int,
            YuvChromaSample::YUV422,
            Yuy2Description::YVYU,
            result,
        ),
{
    yuy2_to_yuv_impl(
        y_plane,
        y_stride,
        u_plane,
        u_stride,
        v_plane,
        v_stride,
        yuy2_store,
        yuy2_stride,
        width,
        height,
        YuvChromaSample::YUV422,
        Yuy2Description::YVYU,
    )
}

/// Converts packed VYUY to a planar 4:4:4 image. Both columns of a pair get the chroma sample of their group.
pub fn vyuy422_to_yuv444(
    y_plane: &mut [u8],
    y_stride: u32,
    u_plane: &mut [u8],
    u_stride: u32,
    v_plane: &mut [u8],
    v_stride: u32,
    yuy2_store: &[u8],
    yuy2_stride: u32,
    width: u32,
    height: u32,
) -> (result: Result<(), YuvError>)
    ensures
        yuy2_to_yuv_post(
            old(y_plane)@,
            final(y_plane)@,
            y_stride as int,
            old(u_plane)@,
            final(u_plane)@,
            u_stride as int,
            old(v_plane)@,
            final(v_plane)@,
            v_stride as int,
            yuy2_store@,
            yuy2_stride as int,
            width as int,
            height as int,
            YuvChromaSample::YUV444,
            Yuy2Description::VYUY,
            result,
        ),
{
    yuy2_to_yuv_impl(
        y_plane,
        y_stride,
        u_plane,
        u_stride,
        v_plane,
        v_stride,
        yuy2_store,
        yuy2_stride,
        width,
        height,
        YuvChromaSample::YUV444,
        Yuy2Description::VYUY,
    )
}

/// Converts packed VYUY to a planar 4:2:0 image. Two packed rows share a chroma row, and the later one is kept.
pub fn vyuy422_to_yuv420(
    y_plane: &mut [u8],
    y_stride: u32,
    u_plane: &mut [u8],
    u_stride: u32,
    v_plane: &mut [u8],
    v_stride: u32,
    yuy2_store: &[u8],
    yuy2_stride: u32,
    width: u32,
    height: u32,
) -> (result: Result<(), YuvError>)
    ensures
        yuy2_to_yuv_post(
            old(y_plane)@,
            final(y_plane)@,
            y_stride as int,
            old(u_plane)@,
            final(u_plane)@,
            u_stride as int,
            old(v_plane)@,
            final(v_plane)@,
            v_stride as int,
            yuy2_store@,
            yuy2_stride as int,
            width as int,
            height as int,
            YuvChromaSample::YUV420,
            Yuy2Description::VYUY,
            result,
        ),
{
    yuy2_to_yuv_impl(
        y_plane,
        y_stride,
        u_plane,
        u_stride,
        v_plane,
        v_stride,
        yuy2_store,
        yuy2_stride,
        width,
        height,
        YuvChromaSample::YUV420,
        Yuy2Description::VYUY,
    )
}

/// Converts packed VYUY to a planar 4:2:2 image. Chroma is unpacked as it is.
pub fn vyuy422_to_yuv422(
    y_plane: &mut [u8],
    y_stride: u32,
    u_plane: &mut [u8],
    u_stride: u32,
    v_plane: &mut [u8],
    v_stride: u32,
    yuy2_store: &[u8],
    yuy2_stride: u32,
    width: u32,
    height: u32,
) -> (result: Result<(), YuvError>)
    ensures
        yuy2_to_yuv_post(
            old(y_plane)@,
            final(y_plane)@,
            y_stride as int,
            old(u_plane)@,
            final(u_plane)@,
            u_stride as int,
            old(v_plane)@,
            final(v_plane)@,
            v_stride as int,
            yuy2_store@,
            yuy2_stride as int,
            width as int,
            height as int,
            YuvChromaSample::YUV422,
            Yuy2Description::VYUY,
            result,
        ),
{
    yuy2_to_yuv_impl(
        y_plane,
        y_stride,
        u_plane,
        u_stride,
        v_plane,
        v_stride,
        yuy2_store,
        yuy2_stride,
        width,
        height,
        YuvChromaSample::YUV422,
        Yuy2Description::VYUY,
    )
}

/// Converts packed UYVY to a planar 4:4:4 image. Both columns of a pair get the chroma sample of their group.
pub fn uyvy422_to_yuv444(
    y_plane: &mut [u8],
    y_stride: u32,
    u_plane: &mut [u8],
    u_stride: u32,
    v_plane: &mut [u8],
    v_stride: u32,
    yuy2_store: &[u8],
    yuy2_stride: u32,
    width: u32,
    height: u32,
) -> (result: Result<(), YuvError>)
    ensures
        yuy2_to_yuv_post(
            old(y_plane)@,
            final(y_plane)@,
            y_stride as int,
            old(u_plane)@,
            final(u_plane)@,
            u_stride as int,
            old(v_plane)@,
            final(v_plane)@,
            v_stride as int,
            yuy2_store@,
            yuy2_stride as int,
            width as int,
            height as int,
            YuvChromaSample::YUV444,
            Yuy2Description::UYVY,
            result,
        ),
{
    yuy2_to_yuv_impl(
        y_plane,
        y_stride,
        u_plane,
        u_stride,
        v_plane,
        v_stride,
        yuy2_store,
        yuy2_stride,
        width,
        height,
        YuvChromaSample::YUV444,
        Yuy2Description::UYVY,
    )
}

/// Converts packed UYVY to a planar 4:2:0 image. Two packed rows share a chroma row, and the later one is kept.
pub fn uyvy422_to_yuv420(
    y_plane: &mut [u8],
    y_stride: u32,
    u_plane: &mut [u8],
    u_stride: u32,
    v_plane: &mut [u8],
    v_stride: u32,
    yuy2_store: &[u8],
    yuy2_stride: u32,
    width: u32,
    height: u32,
) -> (result: Result<(), YuvError>)
    ensures
        yuy2_to_yuv_post(
            old(y_plane)@,
            final(y_plane)@,
            y_stride as int,
            old(u_plane)@,
            final(u_plane)@,
            u_stride as int,
            old(v_plane)@,
            final(v_plane)@,
            v_stride as int,
            yuy2_store@,
            yuy2_stride as int,
            width as int,
            height as int,
            YuvChromaSample::YUV420,
            Yuy2Description::UYVY,
            result,
        ),
{
    yuy2_to_yuv_impl(
        y_plane,
        y_stride,
        u_plane,
        u_stride,
        v_plane,
        v_stride,
        yuy2_store,
        yuy2_stride,
        width,
        height,
        YuvChromaSample::YUV420,
        Yuy2Description::UYVY,
    )
}

/// Converts packed UYVY to a planar 4:2:2 image. Chroma is unpacked as it is.
pub fn uyvy422_to_yuv422(
    y_plane: &mut [u8],
    y_stride: u32,
    u_plane: &mut [u8],
    u_stride: u32,
    v_plane: &mut [u8],
    v_stride: u32,
    yuy2_store: &[u8],
    yuy2_stride: u32,
    width: u32,
    height: u32,
) -> (result: Result<(), YuvError>)
    ensures
        yuy2_to_yuv_post(
            old(y_plane)@,
            final(y_plane)@,
            y_stride as int,
            old(u_plane)@,
            final(u_plane)@,
            u_stride as int,
            old(v_plane)@,
            final(v_plane)@,
            v_stride as int,
            yuy2_store@,
            yuy2_stride as int,
            width as int,
            height as int,
            YuvChromaSample::YUV422,
            Yuy2Description::UYVY,
            result,
        ),
{
    yuy2_to_yuv_impl(
        y_plane,
        y_stride,
        u_plane,
        u_stride,
        v_plane,
        v_stride,
        yuy2_store,
        yuy2_stride,
        width,
        height,
        YuvChromaSample::YUV422,
        Yuy2Description::UYVY,
    )
}

} // verus!

//! Planar YUV to packed 4:2:2.

use crate::planes::cell;
use crate::planes::check_plane;
use crate::planes::lemma_cell_order;
use crate::planes::lemma_len_fits;
use crate::planes::lemma_plane_row_written;
use crate::planes::plane_fits;
use crate::planes::plane_written;
use crate::planes::row_written;
use crate::yuv_error::YuvError;
use crate::yuv_support::YuvChromaSample;
use crate::yuv_support::Yuy2Description;
use vstd::prelude::*;

verus! {

/// Where a row kernel stands in its row: the next luma column, the next
/// chroma sample and the next packed group.
#[derive(Debug, Copy, Clone, PartialEq, Eq, Structural)]
pub struct YuvToYuy2Navigation {
    pub cx: usize,
    pub uv_x: usize,
    pub x: usize,
}

impl YuvToYuy2Navigation {
    pub fn new(cx: usize, uv_x: usize, x: usize) -> (navigation: YuvToYuy2Navigation)
        ensures
            navigation == (YuvToYuy2Navigation { cx, uv_x, x }),
    {
        YuvToYuy2Navigation { cx, uv_x, x }
    }
}

/// The bytes that a packed row of `width` pixels takes: four for each pair of
/// columns, a last odd column counting as a pair.
pub open spec fn packed_row_len(width: int) -> int {
    4 * ((width + 1) / 2)
}

/// The mean of two samples, halves rounded up.
pub open spec fn pair_average(first: u8, second: u8) -> u8 {
    ((first + second + 1) / 2) as u8
}

/// The chroma sample of the packed group `pair`, from the chroma row that
/// starts at `offset`. From a 4:4:4 plane it is the mean of the two samples of
/// the pair (the one sample of a last odd column as it is); from a plane that
/// is halved already it is sample `pair`.
pub open spec fn packed_chroma(
    plane: Seq<u8>,
    offset: int,
    width: int,
    sampling: YuvChromaSample,
    pair: int,
) -> u8 {
    if sampling == YuvChromaSample::YUV444 {
        if 2 * pair + 1 < width {
            pair_average(plane[offset + 2 * pair], plane[offset + 2 * pair + 1])
        } else {
            plane[offset + 2 * pair]
        }
    } else {
        plane[offset + pair]
    }
}

/// Byte `slot` of a packed group of four: the two luma samples stand at the
/// layout's luma positions, the chroma pair they share at its chroma
/// positions.
pub open spec fn group_byte(
    target: Yuy2Description,
    first_y: u8,
    u: u8,
    second_y: u8,
    v: u8,
    slot: int,
) -> u8 {
    if slot == target.spec_first_y_position() {
        first_y
    } else if slot == target.spec_second_y_position() {
        second_y
    } else if slot == target.spec_u_position() {
        u
    } else {
        v
    }
}

/// Byte `j` of a packed row: group `j / 4` holds the two luma samples of its
/// pair of columns and their chroma. The second luma slot of a last odd
/// column is zero.
pub open spec fn packed_byte(
    y_plane: Seq<u8>,
    y_offset: int,
    u_plane: Seq<u8>,
    u_offset: int,
    v_plane: Seq<u8>,
    v_offset: int,
    width: int,
    sampling: YuvChromaSample,
    target: Yuy2Description,
    j: int,
) -> u8 {
    let pair = j / 4;
    group_byte(
        target,
        y_plane[y_offset + 2 * pair],
        packed_chroma(u_plane, u_offset, width, sampling, pair),
        if 2 * pair + 1 < width {
            y_plane[y_offset + 2 * pair + 1]
        } else {
            0
        },
        packed_chroma(v_plane, v_offset, width, sampling, pair),
        j % 4,
    )
}

/// A packed row as a function of the byte's place in it.
pub open spec fn packed_row(
    y_plane: Seq<u8>,
    y_offset: int,
    u_plane: Seq<u8>,
    u_offset: int,
    v_plane: Seq<u8>,
    v_offset: int,
    width: int,
    sampling: YuvChromaSample,
    target: Yuy2Description,
) -> spec_fn(int) -> u8 {
    |j: int|
        packed_byte(
            y_plane,
            y_offset,
            u_plane,
            u_offset,
            v_plane,
            v_offset,
            width,
            sampling,
            target,
            j,
        )
}

/// A packed image as a function of row and byte: row `row` packs luma row
/// `row` with the chroma row it shares.
pub open spec fn packed_image(
    y_plane: Seq<u8>,
    y_stride: int,
    u_plane: Seq<u8>,
    u_stride: int,
    v_plane: Seq<u8>,
    v_stride: int,
    width: int,
    sampling: YuvChromaSample,
    target: Yuy2Description,
) -> spec_fn(int, int) -> u8 {
    |row: int, j: int|
        packed_byte(
            y_plane,
            cell(y_stride, row, 0),
            u_plane,
            cell(u_stride, sampling.chroma_row(row), 0),
            v_plane,
            cell(v_stride, sampling.chroma_row(row), 0),
            width,
            sampling,
            target,
            j,
        )
}

/// The three planes and the packed buffer hold an image of `width` by
/// `height` pixels.
pub open spec fn yuy2_planes_fit(
    y_len: int,
    y_stride: int,
    u_len: int,
    u_stride: int,
    v_len: int,
    v_stride: int,
    yuy2_len: int,
    yuy2_stride: int,
    width: int,
    height: int,
    sampling: YuvChromaSample,
) -> bool {
    &&& plane_fits(y_len, y_stride, width, height)
    &&& plane_fits(u_len, u_stride, sampling.chroma_width(width), sampling.chroma_height(height))
    &&& plane_fits(v_len, v_stride, sampling.chroma_width(width), sampling.chroma_height(height))
    &&& plane_fits(yuy2_len, yuy2_stride, packed_row_len(width), height)
}

/// Decides [`yuy2_planes_fit`].
pub fn check_yuy2_planes(
    y_len: usize,
    y_stride: u32,
    u_len: usize,
    u_stride: u32,
    v_len: usize,
    v_stride: u32,
    yuy2_len: usize,
    yuy2_stride: u32,
    width: u32,
    height: u32,
    sampling: YuvChromaSample,
) -> (fits: bool)
    ensures
        fits == yuy2_planes_fit(
            y_len as int,
            y_stride as int,
            u_len as int,
            u_stride as int,
            v_len as int,
            v_stride as int,
            yuy2_len as int,
            yuy2_stride as int,
            width as int,
            height as int,
            sampling,
        ),
{
    let chroma_width: u32 = sampling.get_chroma_width(width);
    let chroma_height: u32 = sampling.get_chroma_height(height);
    let packed_len: u64 = 4 * (width as u64 / 2 + width as u64 % 2);
    check_plane(y_len, y_stride, width as u64, height) && check_plane(
        u_len,
        u_stride,
        chroma_width as u64,
        chroma_height,
    ) && check_plane(v_len, v_stride, chroma_width as u64, chroma_height) && check_plane(
        yuy2_len,
        yuy2_stride,
        packed_len,
        height,
    )
}

/// What a conversion from planar to packed leaves behind. Planes that fit are
/// converted: every packed row holds its groups, and the padding of the
/// packed buffer is untouched. Planes that do not fit are refused and nothing
/// is written.
pub open spec fn yuv_to_yuy2_post(
    y_plane: Seq<u8>,
    y_stride: int,
    u_plane: Seq<u8>,
    u_stride: int,
    v_plane: Seq<u8>,
    v_stride: int,
    before: Seq<u8>,
    after: Seq<u8>,
    yuy2_stride: int,
    width: int,
    height: int,
    sampling: YuvChromaSample,
    target: Yuy2Description,
    result: Result<(), YuvError>,
) -> bool {
    if yuy2_planes_fit(
        y_plane.len() as int,
        y_stride,
        u_plane.len() as int,
        u_stride,
        v_plane.len() as int,
        v_stride,
        before.len() as int,
        yuy2_stride,
        width,
        height,
        sampling,
    ) {
        &&& result is Ok
        &&& plane_written(
            before,
            after,
            yuy2_stride,
            packed_row_len(width),
            height,
            packed_image(
                y_plane,
                y_stride,
                u_plane,
                u_stride,
                v_plane,
                v_stride,
                width,
                sampling,
                target,
            ),
        )
    } else {
        &&& result == Err::<(), YuvError>(YuvError::BufferSizeMismatch)
        &&& after == before
    }
}

/// Writes one packed group of four bytes at `offset`.
fn store_group(
    yuy2_store: &mut [u8],
    offset: usize,
    target: Yuy2Description,
    first_y: u8,
    u: u8,
    second_y: u8,
    v: u8,
)
    requires
        offset + 4 <= old(yuy2_store)@.len(),
    ensures
        final(yuy2_store)@.len() == old(yuy2_store)@.len(),
        forall|i: int|
            offset <= i < offset + 4 ==> #[trigger] final(yuy2_store)@[i] == group_byte(
                target,
                first_y,
                u,
                second_y,
                v,
                i - offset,
            ),
        forall|i: int|
            0 <= i < old(yuy2_store)@.len() && !(offset <= i < offset + 4)
                ==> #[trigger] final(yuy2_store)@[i] == old(yuy2_store)@[i],
{
    proof {
        lemma_len_fits(yuy2_store);
    }
    yuy2_store[offset + target.get_first_y_position()] = first_y;
    yuy2_store[offset + target.get_u_position()] = u;
    yuy2_store[offset + target.get_second_y_position()] = second_y;
    yuy2_store[offset + target.get_v_position()] = v;
}

/// Packs one row. The luma row starts at `y_offset`, the chroma rows at
/// `u_offset` and `v_offset`, and the packed row at `yuy2_offset`.
pub fn yuv_to_yuy2_row(
    y_plane: &[u8],
    y_offset: usize,
    u_plane: &[u8],
    u_offset: usize,
    v_plane: &[u8],
    v_offset: usize,
    yuy2_store: &mut [u8],
    yuy2_offset: usize,
    width: u32,
    sampling: YuvChromaSample,
    target: Yuy2Description,
)
    requires
        y_offset + width <= y_plane@.len(),
        u_offset + sampling.chroma_width(width as int) <= u_plane@.len(),
        v_offset + sampling.chroma_width(width as int) <= v_plane@.len(),
        yuy2_offset + packed_row_len(width as int) <= old(yuy2_store)@.len(),
    ensures
        row_written(
            old(yuy2_store)@,
            final(yuy2_store)@,
            yuy2_offset as int,
            packed_row_len(width as int),
            packed_row(
                y_plane@,
                y_offset as int,
                u_plane@,
                u_offset as int,
                v_plane@,
                v_offset as int,
                width as int,
                sampling,
                target,
            ),
        ),
{
    proof {
        lemma_len_fits(y_plane);
        lemma_len_fits(u_plane);
        lemma_len_fits(v_plane);
        lemma_len_fits(yuy2_store);
    }
    let pairs: usize = width as usize / 2;
    let mut x: usize = 0;
    while x < pairs
        invariant
            x <= pairs,
            pairs == width as usize / 2,
            y_offset + width <= y_plane@.len() <= usize::MAX,
            u_offset + sampling.chroma_width(width as int) <= u_plane@.len() <= usize::MAX,
            v_offset + sampling.chroma_width(width as int) <= v_plane@.len() <= usize::MAX,
            yuy2_offset + packed_row_len(width as int) <= yuy2_store@.len() <= usize::MAX,
            yuy2_store@.len() == old(yuy2_store)@.len(),
            forall|i: int|
                yuy2_offset <= i < yuy2_offset + 4 * x ==> #[trigger] yuy2_store@[i] == packed_byte(
                    y_plane@,
                    y_offset as int,
                    u_plane@,
                    u_offset as int,
                    v_plane@,
                    v_offset as int,
                    width as int,
                    sampling,
                    target,
                    i - yuy2_offset,
                ),
            forall|i: int|
                0 <= i < yuy2_store@.len() && !(yuy2_offset <= i < yuy2_offset + 4 * x)
                    ==> #[trigger] yuy2_store@[i] == old(yuy2_store)@[i],
        decreases pairs - x,
    {
        let y_pos: usize = y_offset + 2 * x;
        let first_y_value: u8 = y_plane[y_pos];
        let second_y_value: u8 = y_plane[y_pos + 1];
        let u_value: u8;
        let v_value: u8;
        if sampling == YuvChromaSample::YUV444 {
            let u_pos: usize = u_offset + 2 * x;
            let v_pos: usize = v_offset + 2 * x;
            u_value = ((u_plane[u_pos] as u32 + u_plane[u_pos + 1] as u32 + 1) / 2) as u8;
            v_value = ((v_plane[v_pos] as u32 + v_plane[v_pos + 1] as u32 + 1) / 2) as u8;
        } else {
            u_value = u_plane[u_offset + x];
            v_value = v_plane[v_offset + x];
        }
        let dst_offset: usize = yuy2_offset + x * 4;
        let ghost earlier = yuy2_store@;
        store_group(yuy2_store, dst_offset, target, first_y_value, u_value, second_y_value, v_value);
        proof {
            assert forall|i: int|
                yuy2_offset <= i < yuy2_offset + 4 * (x + 1) implies #[trigger] yuy2_store@[i]
                == packed_byte(
                y_plane@,
                y_offset as int,
                u_plane@,
                u_offset as int,
                v_plane@,
                v_offset as int,
                width as int,
                sampling,
                target,
                i - yuy2_offset,
            ) by {
                if i < dst_offset {
                    assert(yuy2_store@[i] == earlier[i]);
                } else {
                    let j = i - yuy2_offset;
                    assert(j / 4 == x && j % 4 == i - dst_offset);
                }
            }
        }
        x += 1;
    }
    if width % 2 == 1 {
        let y_pos: usize = y_offset + 2 * pairs;
        let first_y_value: u8 = y_plane[y_pos];
        let u_value: u8;
        let v_value: u8;
        if sampling == YuvChromaSample::YUV444 {
            u_value = u_plane[u_offset + 2 * pairs];
            v_value = v_plane[v_offset + 2 * pairs];
        } else {
            u_value = u_plane[u_offset + pairs];
            v_value = v_plane[v_offset + pairs];
        }
        let dst_offset: usize = yuy2_offset + ((width as usize - 1) / 2) * 4;
        let ghost earlier = yuy2_store@;
        store_group(yuy2_store, dst_offset, target, first_y_value, u_value, 0, v_value);
        proof {
            assert forall|i: int|
                yuy2_offset <= i < yuy2_offset + packed_row_len(
                    width as int,
                ) implies #[trigger] yuy2_store@[i] == packed_byte(
                y_plane@,
                y_offset as int,
                u_plane@,
                u_offset as int,
                v_plane@,
                v_offset as int,
                width as int,
                sampling,
                target,
                i - yuy2_offset,
            ) by {
                if i < dst_offset {
                    assert(yuy2_store@[i] == earlier[i]);
                } else {
                    let j = i - yuy2_offset;
                    assert(j / 4 == pairs && j % 4 == i - dst_offset);
                }
            }
        }
    }
}

/// Converts a planar image to a packed 4:2:2 image, row by row.
pub fn yuv_to_yuy2_impl(
    y_plane: &[u8],
    y_stride: u32,
    u_plane: &[u8],
    u_stride: u32,
    v_plane: &[u8],
    v_stride: u32,
    yuy2_store: &mut [u8],
    yuy2_stride: u32,
    width: u32,
    height: u32,
    sampling: YuvChromaSample,
    target: Yuy2Description,
) -> (result: Result<(), YuvError>)
    ensures
        yuv_to_yuy2_post(
            y_plane@,
            y_stride as int,
            u_plane@,
            u_stride as int,
            v_plane@,
            v_stride as int,
            old(yuy2_store)@,
            final(yuy2_store)@,
            yuy2_stride as int,
            width as int,
            height as int,
            sampling,
            target,
            result,
        ),
{
    if !check_yuy2_planes(
        y_plane.len(),
        y_stride,
        u_plane.len(),
        u_stride,
        v_plane.len(),
        v_stride,
        yuy2_store.len(),
        yuy2_stride,
        width,
        height,
        sampling,
    ) {
        return Err(YuvError::BufferSizeMismatch);
    }
    let ghost image = packed_image(
        y_plane@,
        y_stride as int,
        u_plane@,
        u_stride as int,
        v_plane@,
        v_stride as int,
        width as int,
        sampling,
        target,
    );
    if width == 0 {
        return Ok(());
    }
    proof {
        lemma_len_fits(y_plane);
        lemma_len_fits(u_plane);
        lemma_len_fits(v_plane);
        lemma_len_fits(yuy2_store);
    }
    let mut y: usize = 0;
    while y < height as usize
        invariant
            y <= height,
            width > 0,
            y_plane@.len() <= usize::MAX,
            u_plane@.len() <= usize::MAX,
            v_plane@.len() <= usize::MAX,
            yuy2_store@.len() <= usize::MAX,
            yuy2_planes_fit(
                y_plane@.len() as int,
                y_stride as int,
                u_plane@.len() as int,
                u_stride as int,
                v_plane@.len() as int,
                v_stride as int,
                old(yuy2_store)@.len() as int,
                yuy2_stride as int,
                width as int,
                height as int,
                sampling,
            ),
            image == packed_image(
                y_plane@,
                y_stride as int,
                u_plane@,
                u_stride as int,
                v_plane@,
                v_stride as int,
                width as int,
                sampling,
                target,
            ),
            plane_written(
                old(yuy2_store)@,
                yuy2_store@,
                yuy2_stride as int,
                packed_row_len(width as int),
                y as int,
                image,
            ),
        decreases height - y,
    {
        let chroma_y: usize = if sampling == YuvChromaSample::YUV420 {
            y / 2
        } else {
            y
        };
        proof {
            lemma_cell_order(y_stride as int, y as int, 0, height as int);
            lemma_cell_order(yuy2_stride as int, y as int, 0, height as int);
            lemma_cell_order(
                u_stride as int,
                chroma_y as int,
                0,
                sampling.chroma_height(height as int),
            );
            lemma_cell_order(
                v_stride as int,
                chroma_y as int,
                0,
                sampling.chroma_height(height as int),
            );
        }
        let y_offset: usize = y * (y_stride as usize);
        let u_offset: usize = chroma_y * (u_stride as usize);
        let v_offset: usize = chroma_y * (v_stride as usize);
        let yuy2_offset: usize = y * (yuy2_stride as usize);
        let ghost middle = yuy2_store@;
        yuv_to_yuy2_row(
            y_plane,
            y_offset,
            u_plane,
            u_offset,
            v_plane,
            v_offset,
            yuy2_store,
            yuy2_offset,
            width,
            sampling,
            target,
        );
        proof {
            assert(row_written(
                middle,
                yuy2_store@,
                cell(yuy2_stride as int, y as int, 0),
                packed_row_len(width as int),
                |j: int| image(y as int, j),
            ));
            lemma_plane_row_written(
                old(yuy2_store)@,
                middle,
                yuy2_store@,
                yuy2_stride as int,
                packed_row_len(width as int),
                y as int,
                y as int,
                image,
                image,
            );
        }
        y += 1;
    }
    Ok(())
}

/// Converts a planar 4:4:4 image to packed YUYV. The two chroma samples of each pair of columns are averaged, halves rounded up. A packed row
/// takes four bytes for each pair of columns, so for an odd width the row is
/// one luma slot longer than the image, and that slot is set to zero.
pub fn yuv444_to_yuyv422(
    y_plane: &[u8],
    y_stride: u32,
    u_plane: &[u8],
    u_stride: u32,
    v_plane: &[u8],
    v_stride: u32,
    yuy2_store: &mut [u8],
    yuy2_stride: u32,
    width: u32,
    height: u32,
) -> (result: Result<(), YuvError>)
    ensures
        yuv_to_yuy2_post(
            y_plane@,
            y_stride as int,
            u_plane@,
            u_stride as int,
            v_plane@,
            v_stride as int,
            old(yuy2_store)@,
            final(yuy2_store)@,
            yuy2_stride as int,
            width as int,
            height as int,
            YuvChromaSample::YUV444,
            Yuy2Description::YUYV,
            result,
        ),
{
    yuv_to_yuy2_impl(
        y_plane,
        y_stride,
        u_plane,
        u_stride,
        v_plane,
        v_stride,
        yuy2_store,
        yuy2_stride,
        width,
        height,
        YuvChromaSample::YUV444,
        Yuy2Description::YUYV,
    )
}

/// Converts a planar 4:2:2 image to packed YUYV. Chroma is repacked as it is. A packed row
/// takes four bytes for each pair of columns, so for an odd width the row is
/// one luma slot longer than the image, and that slot is set to zero.
pub fn yuv422_to_yuyv422(
    y_plane: &[u8],
    y_stride: u32,
    u_plane: &[u8],
    u_stride: u32,
    v_plane: &[u8],
    v_stride: u32,
    yuy2_store: &mut [u8],
    yuy2_stride: u32,
    width: u32,
    height: u32,
) -> (result: Result<(), YuvError>)
    ensures
        yuv_to_yuy2_post(
            y_plane@,
            y_stride as int,
            u_plane@,
            u_stride as int,
            v_plane@,
            v_stride as int,
            old(yuy2_store)@,
            final(yuy2_store)@,
            yuy2_stride as int,
            width as int,
            height as int,
            YuvChromaSample::YUV422,
            Yuy2Description::YUYV,
            result,
        ),
{
    yuv_to_yuy2_impl(
        y_plane,
        y_stride,
        u_plane,
        u_stride,
        v_plane,
        v_stride,
        yuy2_store,
        yuy2_stride,
        width,
        height,
        YuvChromaSample::YUV422,
        Yuy2Description::YUYV,
    )
}

/// Converts a planar 4:2:0 image to packed YUYV. Chroma is repacked as it is. A packed row
/// takes four bytes for each pair of columns, so for an odd width the row is
/// one luma slot longer than the image, and that slot is set to zero.
pub fn yuv420_to_yuyv422(
    y_plane: &[u8],
    y_stride: u32,
    u_plane: &[u8],
    u_stride: u32,
    v_plane: &[u8],
    v_stride: u32,
    yuy2_store: &mut [u8],
    yuy2_stride: u32,
    width: u32,
    height: u32,
) -> (result: Result<(), YuvError>)
    ensures
        yuv_to_yuy2_post(
            y_plane@,
            y_stride as int,
            u_plane@,
            u_stride as int,
            v_plane@,
            v_stride as int,
            old(yuy2_store)@,
            final(yuy2_store)@,
            yuy2_stride as int,
            width as int,
            height as int,
            YuvChromaSample::YUV420,
            Yuy2Description::YUYV,
            result,
        ),
{
    yuv_to_yuy2_impl(
        y_plane,
        y_stride,
        u_plane,
        u_stride,
        v_plane,
        v_stride,
        yuy2_store,
        yuy2_stride,
        width,
        height,
        YuvChromaSample::YUV420,
        Yuy2Description::YUYV,
    )
}

/// Converts a planar 4:4:4 image to packed YVYU. The two chroma samples of each pair of columns are averaged, halves rounded up. A packed row
/// takes four bytes for each pair of columns, so for an odd width the row is
/// one luma slot longer than the image, and that slot is set to zero.
pub fn yuv444_to_yvyu422(
    y_plane: &[u8],
    y_stride: u32,
    u_plane: &[u8],
    u_stride: u32,
    v_plane: &[u8],
    v_stride: u32,
    yuy2_store: &mut [u8],
    yuy2_stride: u32,
    width: u32,
    height: u32,
) -> (result: Result<(), YuvError>)
    ensures
        yuv_to_yuy2_post(
            y_plane@,
            y_stride as int,
            u_plane@,
            u_stride as int,
            v_plane@,
            v_stride as int,
            old(yuy2_store)@,
            final(yuy2_store)@,
            yuy2_stride as int,
            width as int,
            height as int,
            YuvChromaSample::YUV444,
            Yuy2Description::YVYU,
            result,
        ),
{
    yuv_to_yuy2_impl(
        y_plane,
        y_stride,
        u_plane,
        u_stride,
        v_plane,
        v_stride,
        yuy2_store,
        yuy2_stride,
        width,
        height,
        YuvChromaSample::YUV444,
        Yuy2Description::YVYU,
    )
}

/// Converts a planar 4:2:2 image to packed YVYU. Chroma is repacked as it is. A packed row
/// takes four bytes for each pair of columns, so for an odd width the row is
/// one luma slot longer than the image, and that slot is set to zero.
pub fn yuv422_to_yvyu422(
    y_plane: &[u8],
    y_stride: u32,
    u_plane: &[u8],
    u_stride: u32,
    v_plane: &[u8],
    v_stride: u32,
    yuy2_store: &mut [u8],
    yuy2_stride: u32,
    width: u32,
    height: u32,
) -> (result: Result<(), YuvError>)
    ensures
        yuv_to_yuy2_post(
            y_plane@,
            y_stride as int,
            u_plane@,
            u_stride as int,
            v_plane@,
            v_stride as int,
            old(yuy2_store)@,
            final(yuy2_store)@,
            yuy2_stride as int,
            width as int,
            height as int,
            YuvChromaSample::YUV422,
            Yuy2Description::YVYU,
            result,
        ),
{
    yuv_to_yuy2_impl(
        y_plane,
        y_stride,
        u_plane,
        u_stride,
        v_plane,
        v_stride,
        yuy2_store,
        yuy2_stride,
        width,
        height,
        YuvChromaSample::YUV422,
        Yuy2Description::YVYU,
    )
}

/// Converts a planar 4:2:0 image to packed YVYU. Chroma is repacked as it is. A packed row
/// takes four bytes for each pair of columns, so for an odd width the row is
/// one luma slot longer than the image, and that slot is set to zero.
pub fn yuv420_to_yvyu422(
    y_plane: &[u8],
    y_stride: u32,
    u_plane: &[u8],
    u_stride: u32,
    v_plane: &[u8],
    v_stride: u32,
    yuy2_store: &mut [u8],
    yuy2_stride: u32,
    width: u32,
    height: u32,
) -> (result: Result<(), YuvError>)
    ensures
        yuv_to_yuy2_post(
            y_plane@,
            y_stride as int,
            u_plane@,
            u_stride as int,
            v_plane@,
            v_stride as int,
            old(yuy2_store)@,
            final(yuy2_store)@,
            yuy2_stride as int,
            width as int,
            height as int,
            YuvChromaSample::YUV420,
            Yuy2Description::YVYU,
            result,
        ),
{
    yuv_to_yuy2_impl(
        y_plane,
        y_stride,
        u_plane,
        u_stride,
        v_plane,
        v_stride,
        yuy2_store,
        yuy2_stride,
        width,
        height,
        YuvChromaSample::YUV420,
        Yuy2Description::YVYU,
    )
}

/// Converts a planar 4:4:4 image to packed VYUY. The two chroma samples of each pair of columns are averaged, halves rounded up. A packed row
/// takes four bytes for each pair of columns, so for an odd width the row is
/// one luma slot longer than the image, and that slot is set to zero.
pub fn yuv444_to_vyuy422(
    y_plane: &[u8],
    y_stride: u32,
    u_plane: &[u8],
    u_stride: u32,
    v_plane: &[u8],
    v_stride: u32,
    yuy2_store: &mut [u8],
    yuy2_stride: u32,
    width: u32,
    height: u32,
) -> (result: Result<(), YuvError>)
    ensures
        yuv_to_yuy2_post(
            y_plane@,
            y_stride as int,
            u_plane@,
            u_stride as int,
            v_plane@,
            v_stride as int,
            old(yuy2_store)@,
            final(yuy2_store)@,
            yuy2_stride as int,
            width as int,
            height as int,
            YuvChromaSample::YUV444,
            Yuy2Description::VYUY,
            result,
        ),
{
    yuv_to_yuy2_impl(
        y_plane,
        y_stride,
        u_plane,
        u_stride,
        v_plane,
        v_stride,
        yuy2_store,
        yuy2_stride,
        width,
        height,
        YuvChromaSample::YUV444,
        Yuy2Description::VYUY,
    )
}

/// Converts a planar 4:2:2 image to packed VYUY. Chroma is repacked as it is. A packed row
/// takes four bytes for each pair of columns, so for an odd width the row is
/// one luma slot longer than the image, and that slot is set to zero.
pub fn yuv422_to_vyuy422(
    y_plane: &[u8],
    y_stride: u32,
    u_plane: &[u8],
    u_stride: u32,
    v_plane: &[u8],
    v_stride: u32,
    yuy2_store: &mut [u8],
    yuy2_stride: u32,
    width: u32,
    height: u32,
) -> (result: Result<(), YuvError>)
    ensures
        yuv_to_yuy2_post(
            y_plane@,
            y_stride as int,
            u_plane@,
            u_stride as int,
            v_plane@,
            v_stride as int,
            old(yuy2_store)@,
            final(yuy2_store)@,
            yuy2_stride as int,
            width as int,
            height as int,
            YuvChromaSample::YUV422,
            Yuy2Description::VYUY,
            result,
        ),
{
    yuv_to_yuy2_impl(
        y_plane,
        y_stride,
        u_plane,
        u_stride,
        v_plane,
        v_stride,
        yuy2_store,
        yuy2_stride,
        width,
        height,
        YuvChromaSample::YUV422,
        Yuy2Description::VYUY,
    )
}

/// Converts a planar 4:2:0 image to packed VYUY. Chroma is repacked as it is. A packed row
/// takes four bytes for each pair of columns, so for an odd width the row is
/// one luma slot longer than the image, and that slot is set to zero.
pub fn yuv420_to_vyuy422(
    y_plane: &[u8],
    y_stride: u32,
    u_plane: &[u8],
    u_stride: u32,
    v_plane: &[u8],
    v_stride: u32,
    yuy2_store: &mut [u8],
    yuy2_stride: u32,
    width: u32,
    height: u32,
) -> (result: Result<(), YuvError>)
    ensures
        yuv_to_yuy2_post(
            y_plane@,
            y_stride as int,
            u_plane@,
            u_stride as int,
            v_plane@,
            v_stride as int,
            old(yuy2_store)@,
            final(yuy2_store)@,
            yuy2_stride as int,
            width as int,
            height as int,
            YuvChromaSample::YUV420,
            Yuy2Description::VYUY,
            result,
        ),
{
    yuv_to_yuy2_impl(
        y_plane,
        y_stride,
        u_plane,
        u_stride,
        v_plane,
        v_stride,
        yuy2_store,
        yuy2_stride,
        width,
        height,
        YuvChromaSample::YUV420,
        Yuy2Description::VYUY,
    )
}

/// Converts a planar 4:4:4 image to packed UYVY. The two chroma samples of each pair of columns are averaged, halves rounded up. A packed row
/// takes four bytes for each pair of columns, so for an odd width the row is
/// one luma slot longer than the image, and that slot is set to zero.
pub fn yuv444_to_uyvy422(
    y_plane: &[u8],
    y_stride: u32,
    u_plane: &[u8],
    u_stride: u32,
    v_plane: &[u8],
    v_stride: u32,
    yuy2_store: &mut [u8],
    yuy2_stride: u32,
    width: u32,
    height: u32,
) -> (result: Result<(), YuvError>)
    ensures
        yuv_to_yuy2_post(
            y_plane@,
            y_stride as int,
            u_plane@,
            u_stride as int,
            v_plane@,
            v_stride as int,
            old(yuy2_store)@,
            final(yuy2_store)@,
            yuy2_stride as int,
            width as int,
            height as int,
            YuvChromaSample::YUV444,
            Yuy2Description::UYVY,
            result,
        ),
{
    yuv_to_yuy2_impl(
        y_plane,
        y_stride,
        u_plane,
        u_stride,
        v_plane,
        v_stride,
        yuy2_store,
        yuy2_stride,
        width,
        height,
        YuvChromaSample::YUV444,
        Yuy2Description::UYVY,
    )
}

/// Converts a planar 4:2:2 image to packed UYVY. Chroma is repacked as it is. A packed row
/// takes four bytes for each pair of columns, so for an odd width the row is
/// one luma slot longer than the image, and that slot is set to zero.
pub fn yuv422_to_uyvy422(
    y_plane: &[u8],
    y_stride: u32,
    u_plane: &[u8],
    u_stride: u32,
    v_plane: &[u8],
    v_stride: u32,
    yuy2_store: &mut [u8],
    yuy2_stride: u32,
    width: u32,
    height: u32,
) -> (result: Result<(), YuvError>)
    ensures
        yuv_to_yuy2_post(
            y_plane@,
            y_stride as int,
            u_plane@,
            u_stride as int,
            v_plane@,
            v_stride as int,
            old(yuy2_store)@,
            final(yuy2_store)@,
            yuy2_stride as int,
            width as int,
            height as int,
            YuvChromaSample::YUV422,
            Yuy2Description::UYVY,
            result,
        ),
{
    yuv_to_yuy2_impl(
        y_plane,
        y_stride,
        u_plane,
        u_stride,
        v_plane,
        v_stride,
        yuy2_store,
        yuy2_stride,
        width,
        height,
        YuvChromaSample::YUV422,
        Yuy2Description::UYVY,
    )
}

/// Converts a planar 4:2:0 image to packed UYVY. Chroma is repacked as it is. A packed row
/// takes four bytes for each pair of columns, so for an odd width the row is
/// one luma slot longer than the image, and that slot is set to zero.
pub fn yuv420_to_uyvy422(
    y_plane: &[u8],
    y_stride: u32,
    u_plane: &[u8],
    u_stride: u32,
    v_plane: &[u8],
    v_stride: u32,
    yuy2_store: &mut [u8],
    yuy2_stride: u32,
    width: u32,
    height: u32,
) -> (result: Result<(), YuvError>)
    ensures
        yuv_to_yuy2_post(
            y_plane@,
            y_stride as int,
            u_plane@,
            u_stride as int,
            v_plane@,
            v_stride as int,
            old(yuy2_store)@,
            final(yuy2_store)@,
            yuy2_stride as int,
            width as int,
            height as int,
            YuvChromaSample::YUV420,
            Yuy2Description::UYVY,
            result,
        ),
{
    yuv_to_yuy2_impl(
        y_plane,
        y_stride,
        u_plane,
        u_stride,
        v_plane,
        v_stride,
        yuy2_store,
        yuy2_stride,
        width,
        height,
        YuvChromaSample::YUV420,
        Yuy2Description::UYVY,
    )
}

} // verus!

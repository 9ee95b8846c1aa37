//! Planes as rows of samples a stride apart, and what it means that a row or
//! a plane was written.

use vstd::prelude::*;

verus! {

/// A plane of `len` samples holds `rows` rows of `row_len` samples each,
/// laid out `stride` samples apart.
pub open spec fn plane_fits(len: int, stride: int, row_len: int, rows: int) -> bool {
    row_len <= stride && rows * stride <= len
}

/// Decides [`plane_fits`].
pub fn check_plane(len: usize, stride: u32, row_len: u64, rows: u32) -> (fits: bool)
    ensures
        fits == plane_fits(len as int, stride as int, row_len as int, rows as int),
{
    assert(0 <= rows * stride <= 0xffff_ffff * 0xffff_ffff) by (nonlinear_arith)
        requires
            0 <= stride <= 0xffff_ffff,
            0 <= rows <= 0xffff_ffff,
    ;
    let needed: u64 = rows as u64 * stride as u64;
    row_len <= stride as u64 && needed <= len as u64
}

/// The length of a slice is a `usize`.
pub proof fn lemma_len_fits<T>(plane: &[T])
    ensures
        plane@.len() <= usize::MAX,
{
    broadcast use vstd::slice::axiom_spec_len;

    assert(plane@.len() == vstd::slice::spec_slice_len(plane));
}

/// The length of a slice, with what it says of the slice's view.
pub fn plane_len<T>(plane: &[T]) -> (len: usize)
    ensures
        len == plane@.len(),
{
    broadcast use vstd::slice::axiom_spec_len;

    plane.len()
}

/// Sample `j` of row `y` in a plane whose rows are `stride` samples apart.
pub open spec fn cell(stride: int, y: int, j: int) -> int {
    y * stride + j
}

/// Rows lie one after another: a sample of an earlier row comes before every
/// sample of a later row, and the last sample of the last row is inside the
/// plane.
pub proof fn lemma_cell_order(stride: int, y: int, j: int, later: int)
    requires
        0 <= y < later,
        0 <= j < stride,
    ensures
        0 <= cell(stride, y, j) < cell(stride, later, 0),
        cell(stride, y, 0) + stride <= cell(stride, later, 0),
        cell(stride, later, 0) == later * stride,
{
    assert(y * stride + stride <= later * stride) by (nonlinear_arith)
        requires
            0 <= y < later,
            0 < stride,
    ;
    assert(0 <= y * stride) by (nonlinear_arith)
        requires
            0 <= y,
            0 < stride,
    ;
}

/// Fewer rows take no more room.
pub proof fn lemma_rows_fit(stride: int, rows: int, total: int)
    by (nonlinear_arith)
    requires
        0 <= rows <= total,
        0 <= stride,
    ensures
        0 <= rows * stride <= total * stride,
{
}

/// What a whole-image conversion leaves in a destination plane: the first
/// `row_len` samples of each of the first `rows` rows hold `value(row, j)`,
/// and every other sample (row padding, and what lies past the last row) is
/// as it was.
pub open spec fn plane_written<T>(
    before: Seq<T>,
    after: Seq<T>,
    stride: int,
    row_len: int,
    rows: int,
    value: spec_fn(int, int) -> T,
) -> bool {
    &&& after.len() == before.len()
    &&& forall|y: int, j: int|
        0 <= y < rows && 0 <= j < row_len ==> #[trigger] after[cell(stride, y, j)] == value(y, j)
    &&& forall|y: int, j: int|
        0 <= y < rows && row_len <= j < stride ==> #[trigger] after[cell(stride, y, j)]
            == before[cell(stride, y, j)]
    &&& forall|i: int| rows * stride <= i < after.len() ==> #[trigger] after[i] == before[i]
}

/// What a row kernel leaves in its destination: `row_len` samples from
/// `offset` on hold `value(j)`, every other sample is as it was.
pub open spec fn row_written<T>(
    before: Seq<T>,
    after: Seq<T>,
    offset: int,
    row_len: int,
    value: spec_fn(int) -> T,
) -> bool {
    &&& after.len() == before.len()
    &&& forall|i: int| offset <= i < offset + row_len ==> #[trigger] after[i] == value(i - offset)
    &&& forall|i: int|
        0 <= i < after.len() && !(offset <= i < offset + row_len) ==> #[trigger] after[i]
            == before[i]
}

/// Writing row `row` of a plane, after rows `0 .. rows` were written, gives a
/// plane with rows `0 .. max(rows, row + 1)` written. `row == rows` adds a
/// row; `row < rows` writes one again, and `value` may then differ from
/// `earlier` on that row alone.
pub proof fn lemma_plane_row_written<T>(
    before: Seq<T>,
    middle: Seq<T>,
    after: Seq<T>,
    stride: int,
    row_len: int,
    rows: int,
    row: int,
    earlier: spec_fn(int, int) -> T,
    value: spec_fn(int, int) -> T,
)
    requires
        0 <= row <= rows,
        0 <= row_len <= stride,
        plane_written(before, middle, stride, row_len, rows, earlier),
        row_written(middle, after, cell(stride, row, 0), row_len, |j: int| value(row, j)),
        forall|y: int, j: int|
            0 <= y < rows && y != row && 0 <= j < row_len ==> #[trigger] value(y, j) == earlier(
                y,
                j,
            ),
        rows * stride <= before.len(),
        cell(stride, row, 0) + stride <= before.len(),
    ensures
        plane_written(
            before,
            after,
            stride,
            row_len,
            if row == rows {
                rows + 1
            } else {
                rows
            },
            value,
        ),
{
    let total = if row == rows {
        rows + 1
    } else {
        rows
    };
    let base = cell(stride, row, 0);
    assert(0 <= base && base + stride == (row + 1) * stride && rows * stride <= total * stride
        && base + stride <= total * stride) by (nonlinear_arith)
        requires
            base == row * stride,
            0 <= row < total,
            0 <= rows <= total,
            0 <= stride,
    ;
    assert(total * stride <= before.len());
    assert forall|y: int, j: int| 0 <= y < total && 0 <= j < stride implies 0 <= #[trigger] cell(
        stride,
        y,
        j,
    ) < total * stride && (y < row ==> cell(stride, y, j) < base) && (y > row ==> cell(
        stride,
        y,
        j,
    ) >= base + stride) && (y >= rows ==> cell(stride, y, j) >= rows * stride) by {
        lemma_cell_order(stride, y, j, total);
        if y < row {
            lemma_cell_order(stride, y, j, row);
        } else if y > row {
            lemma_cell_order(stride, row, 0, y);
        }
        if y >= rows {
            assert(rows * stride <= y * stride) by (nonlinear_arith)
                requires
                    0 <= rows <= y,
                    0 <= stride,
            ;
        }
    }
    assert forall|y: int, j: int| 0 <= y < total && 0 <= j < row_len implies #[trigger] after[cell(
        stride,
        y,
        j,
    )] == value(y, j) by {
        let i = cell(stride, y, j);
        if y == row {
            assert(i - base == j);
            assert(after[i] == value(row, i - base));
        } else {
            assert(after[i] == middle[i]);
            assert(middle[cell(stride, y, j)] == earlier(y, j));
        }
    }
    assert forall|y: int, j: int|
        0 <= y < total && row_len <= j < stride implies #[trigger] after[cell(stride, y, j)]
        == before[cell(stride, y, j)] by {
        let i = cell(stride, y, j);
        assert(after[i] == middle[i]);
        if y < rows {
            assert(middle[cell(stride, y, j)] == before[cell(stride, y, j)]);
        } else {
            assert(middle[i] == before[i]);
        }
    }
    assert forall|i: int| total * stride <= i < after.len() implies #[trigger] after[i]
        == before[i] by {
        assert(after[i] == middle[i]);
        assert(middle[i] == before[i]);
    }
}

/// A row of which `done` samples were written, and then `count` more, is a
/// row of which `done + count` samples are written.
pub proof fn lemma_row_extended<T>(
    before: Seq<T>,
    earlier: Seq<T>,
    after: Seq<T>,
    offset: int,
    done: int,
    count: int,
    value: spec_fn(int) -> T,
)
    requires
        0 <= done,
        0 <= count,
        0 <= offset,
        offset + done + count <= before.len(),
        earlier.len() == before.len(),
        after.len() == before.len(),
        forall|i: int| offset <= i < offset + done ==> #[trigger] earlier[i] == value(i - offset),
        forall|i: int|
            0 <= i < before.len() && !(offset <= i < offset + done) ==> #[trigger] earlier[i]
                == before[i],
        forall|i: int|
            0 <= i < before.len() && !(offset + done <= i < offset + done + count)
                ==> #[trigger] after[i] == earlier[i],
        forall|i: int|
            offset + done <= i < offset + done + count ==> #[trigger] after[i] == value(i - offset),
    ensures
        forall|i: int|
            offset <= i < offset + done + count ==> #[trigger] after[i] == value(i - offset),
        forall|i: int|
            0 <= i < before.len() && !(offset <= i < offset + done + count) ==> #[trigger] after[i]
                == before[i],
{
    assert forall|i: int| offset <= i < offset + done + count implies #[trigger] after[i] == value(
        i - offset,
    ) by {
        if i < offset + done {
            assert(after[i] == earlier[i]);
        }
    }
    assert forall|i: int|
        0 <= i < before.len() && !(offset <= i < offset + done + count) implies #[trigger] after[i]
        == before[i] by {
        assert(after[i] == earlier[i]);
    }
}

} // verus!

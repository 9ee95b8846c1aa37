//! The reasons for which a conversion is refused.

use vstd::prelude::*;

verus! {

/// Why a conversion was refused. Every refusal is decided before the first
/// sample is written, so a failed call leaves its destination untouched.
#[derive(Debug, Copy, Clone, PartialEq, Eq, Structural)]
pub enum YuvError {
    /// The colour matrix is degenerate: a luma weight lies outside (0, 1),
    /// or the green weight `1 - kr - kb` is zero.
    InvalidMatrix,
    /// A plane is shorter than its stride times its number of rows, or a
    /// stride is narrower than the samples of one row.
    BufferSizeMismatch,
    /// The requested bit depth is not one the conversion is defined for.
    UnsupportedBitDepth,
}

} // verus!

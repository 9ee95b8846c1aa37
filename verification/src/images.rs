//! A borrowed planar image, and the checks that buffers hold an image.

use crate::pixel::pixel_start;
use crate::planes::check_plane;
use crate::planes::plane_fits;
use crate::planes::plane_len;
use crate::yuv_error::YuvError;
use crate::yuv_support::YuvChromaSample;
use crate::yuv_support::YuvSourceChannels;
use vstd::prelude::*;

verus! {

/// A planar YUV image that borrows its three planes. Strides count samples,
/// not bytes.
pub struct YuvPlanarImage<'a, T> {
    pub y_plane: &'a [T],
    pub y_stride: u32,
    pub u_plane: &'a [T],
    pub u_stride: u32,
    pub v_plane: &'a [T],
    pub v_stride: u32,
    pub width: u32,
    pub height: u32,
}

impl<'a, T> YuvPlanarImage<'a, T> {
    /// Each plane holds its rows: the luma plane `height` rows of `width`
    /// samples, the chroma planes the rows and samples that `sampling` leaves
    /// of them.
    pub open spec fn fits(&self, sampling: YuvChromaSample) -> bool {
        &&& plane_fits(
            self.y_plane@.len() as int,
            self.y_stride as int,
            self.width as int,
            self.height as int,
        )
        &&& plane_fits(
            self.u_plane@.len() as int,
            self.u_stride as int,
            sampling.chroma_width(self.width as int),
            sampling.chroma_height(self.height as int),
        )
        &&& plane_fits(
            self.v_plane@.len() as int,
            self.v_stride as int,
            sampling.chroma_width(self.width as int),
            sampling.chroma_height(self.height as int),
        )
    }

    /// Decides [`YuvPlanarImage::fits`].
    pub fn check_constraints(&self, sampling: YuvChromaSample) -> (result: Result<(), YuvError>)
        ensures
            result is Ok <==> self.fits(sampling),
            result is Err ==> result->Err_0 == YuvError::BufferSizeMismatch,
    {
        let chroma_width: u32 = sampling.get_chroma_width(self.width);
        let chroma_height: u32 = sampling.get_chroma_height(self.height);
        if check_plane(plane_len(self.y_plane), self.y_stride, self.width as u64, self.height)
            && check_plane(
            plane_len(self.u_plane),
            self.u_stride,
            chroma_width as u64,
            chroma_height,
        ) && check_plane(
            plane_len(self.v_plane),
            self.v_stride,
            chroma_width as u64,
            chroma_height,
        ) {
            Ok(())
        } else {
            Err(YuvError::BufferSizeMismatch)
        }
    }
}

/// An interleaved destination of `len` bytes holds `height` rows of `width`
/// pixels.
pub open spec fn destination_fits(
    len: int,
    stride: int,
    width: int,
    height: int,
    channels: YuvSourceChannels,
) -> bool {
    plane_fits(len, stride, pixel_start(channels, width), height)
}

/// Decides [`destination_fits`].
pub fn check_rgba_destination(
    rgba: &[u8],
    rgba_stride: u32,
    width: u32,
    height: u32,
    channels: YuvSourceChannels,
) -> (result: Result<(), YuvError>)
    ensures
        result is Ok <==> destination_fits(
            rgba@.len() as int,
            rgba_stride as int,
            width as int,
            height as int,
            channels,
        ),
        result is Err ==> result->Err_0 == YuvError::BufferSizeMismatch,
{
    let row_len: u64 = if channels.has_alpha() {
        4 * width as u64
    } else {
        3 * width as u64
    };
    if check_plane(plane_len(rgba), rgba_stride, row_len, height) {
        Ok(())
    } else {
        Err(YuvError::BufferSizeMismatch)
    }
}

} // verus!

//! Conversion of image buffers between YUV (planar, bi-planar and packed)
//! and interleaved RGB, in fixed point, with every conversion's result stated
//! sample by sample and proved.
//!
//! The coefficients of a conversion are derived exactly, as fractions, from
//! the luma weights of its colour matrix ([`yuv_support`], [`fraction`]) and
//! then rounded to fixed point. A conversion walks its image row by row; what
//! a row kernel leaves in its destination, and what a whole conversion leaves
//! in each plane, is said by [`planes::row_written`] and
//! [`planes::plane_written`]. What holds across conversions is in [`laws`].

pub mod fraction;
pub mod images;
pub mod laws;
pub mod numerics;
pub mod pixel;
pub mod planes;
pub mod rgba_to_nv;
pub mod rgba_to_yuv;
pub mod tables;
pub mod yuv422;
pub mod yuv_error;
pub mod yuv_nv_to_rgba;
pub mod yuv_p10_rgba;
pub mod yuv_p16_ar30;
pub mod yuv_support;
pub mod yuv_to_rgba;
pub mod yuv_to_yuy2;
pub mod yuy2_to_yuv;

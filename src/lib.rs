//! Reconciles the dimensions of two raster images and weaves their RGBA8
//! pixel data together into one output image.

pub mod dims;
pub mod error;
pub mod interleave;
pub mod raster;
pub mod output;
pub mod wedding;

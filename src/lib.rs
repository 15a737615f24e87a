//! Turns still images into single-frame GIF animations, with an optional
//! symmetric crop and a uniform rescale, and folds the per-file outcomes of a
//! batch into a summary.

pub mod geometry;
pub mod naming;
pub mod raster;
pub mod convert;
pub mod batch;

//! Basins of attraction of a few point masses: the integer side of the
//! renderer (nearest-attractor choice, palette, pixel layout and progress).

pub mod classify;
pub mod raster;
pub mod progress;

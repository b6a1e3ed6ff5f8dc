//! Batch image formatting: the rules by which one `source:target` line is
//! parsed, its raster cropped and resized, its target path derived and its
//! outcome reported.

pub mod config;
pub mod crop;
pub mod error;
pub mod line;
pub mod pipeline;
pub mod raster;
pub mod report;
pub mod resize;
pub mod target;
pub mod text;

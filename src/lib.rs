//! A media index over a directory tree of raster images, random selection
//! from it, and the thumbnail pipeline that serves a selected image.

pub mod config;
pub mod filter;
pub mod walk;
pub mod media;
pub mod pipeline;
pub mod reply;

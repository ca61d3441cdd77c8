//! Bytes and samples: colour channels, the sink an encoder writes to, 8-bit
//! pixels, JPEG streams and sample grids.

pub mod color;
pub mod vec_writer;
pub mod image;
pub mod jpeg;
pub mod texture;

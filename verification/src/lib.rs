//! Marshalling layer for high-dynamic-range raster images.
//!
//! The library holds the verified core of an image boundary layer: it reshapes
//! channel-oriented decoded image data into flat, interleaved pixel buffers,
//! selects container encoding parameters for writing, and plans the load and
//! write paths. File decoding and encoding themselves, and the foreign-function
//! boundary, live outside the library and hand it plain values.


pub mod formats;
pub mod loader;
pub mod policy;
pub mod reshape;
pub mod writer;

pub use formats::ExrEncoding;
pub use formats::ExrFormat;
pub use formats::ExrPixelFormat;

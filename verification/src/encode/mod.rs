//! The image encoders: PPM, BMP and PNG.

pub mod bmp;
pub mod error;
pub mod format;
pub mod png;
pub mod ppm;
pub mod zlib;

pub use error::EncodeError;
pub use format::OutputFormat;

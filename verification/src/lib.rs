//! Verified core of a CPU path tracer: the PNG chunk wire format with its
//! CRC-32, the image encoders and the pixel traversal order.

pub mod bytes;
pub mod config;
pub mod decimal;
pub mod encode;
pub mod framebuffer;
pub mod png;
pub mod scan;
pub mod text;

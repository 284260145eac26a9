//! The PNG chunk wire format.

pub mod chunk;
pub mod chunk_type;
pub mod error;
pub mod utils;

pub use chunk::Chunk;
pub use chunk_type::ChunkType;
pub use error::PngError;
pub use utils::crc_checksum;

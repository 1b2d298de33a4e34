//! A codec for PNG-style binary chunks: length-prefixed, type-tagged,
//! CRC-checked records, together with the bit-flag semantics of the
//! 4-byte chunk type tag.

pub mod args;
pub mod be32;
pub mod chunk;
pub mod chunk_type;
mod text;

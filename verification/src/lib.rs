//! Parser for the legacy Build-engine binary map format.
//!
//! A map file is a fixed little-endian byte layout: a 20-byte header followed
//! by three length-prefixed runs of fixed-size records (sectors, walls,
//! sprites). The library decodes such a byte stream into typed records and
//! proves the decoding exact: every field of every record is pinned, byte for
//! byte, by the contracts.

pub mod board;
pub mod records;
pub mod stats;
pub mod stream;

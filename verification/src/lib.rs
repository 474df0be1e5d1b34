//! Decoder for chunked game-audio sound banks.
//!
//! A bank is a sequence of named, length-prefixed chunks. The hierarchy chunk
//! holds a flat list of type-tagged object records; switch containers carry a
//! packed routing table that is rebuilt into a tree after the records are read.
//! Every decoder is stated against a byte-level model and proved to follow it.

pub mod bank;
pub mod cursor;
pub mod decode;
pub mod error;
pub mod hierarchy;
pub mod packages;
pub mod player;
pub mod sound_engine;

pub use bank::parse;
pub use bank::BankHeaderChunk;
pub use bank::ChunkName;
pub use bank::SoundbankChunk;
pub use bank::SoundbankChunkHeader;
pub use bank::SoundbankChunkTypes;

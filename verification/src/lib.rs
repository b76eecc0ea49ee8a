//! Framing layer of the PcapNG capture format.
//!
//! A capture is a sequence of length-prefixed blocks.  This crate decodes the
//! universal envelope around every block (type tag, leading total length,
//! body, duplicated trailing length), re-encodes blocks with self-consistent
//! lengths, discovers the byte order of a section from the magic number of
//! its section-header block, and dispatches a block body to a typed record.

pub mod block;
pub mod block_type;
pub mod endianness;
pub mod errors;
pub mod parsed;

pub use block::Block;
pub use block::BlockBody;
pub use block_type::BlockType;
pub use endianness::Endianness;
pub use errors::PcapError;
pub use parsed::ParsedBlock;

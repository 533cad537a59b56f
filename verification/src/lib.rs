//! Decoder for FSB5 sound banks: the container header, the bit-packed sample
//! headers with their chained metadata chunks, the name table, the data
//! segment, and the export of single samples as stand-alone files.

pub mod bitfield;
pub mod bytes;
pub mod chunk;
pub mod container;
pub mod error;
pub mod format;
pub mod header;
pub mod laws;
pub mod names;
pub mod payload;
pub mod pcm;
pub mod sample;
pub mod text;
pub mod wave;

pub use bitfield::bits;
pub use chunk::MetadataChunk;
pub use container::FSB5;
pub use error::Error;
pub use format::SoundFormat;
pub use header::FSB5Header;
pub use sample::Sample;

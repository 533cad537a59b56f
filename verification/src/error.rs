//! The ways in which decoding a sound bank or exporting a sample can fail.

use crate::format::SoundFormat;
use vstd::prelude::*;

verus! {

/// A failure of a decode or of an export. None of them is worth a retry: the
/// same bytes fail the same way.
#[derive(Debug, Clone, PartialEq, Eq)]
pub enum Error {
    /// The audio format code of the header is not one of the sixteen known.
    SoundFormat(u32),
    /// A metadata chunk carries a type code outside 1..=7 and 10..=11.
    MetadataChunkType(u64),
    /// The stream does not begin with the bytes `FSB5`; holds the bytes seen.
    MagicHeader([u8; 4]),
    /// The coarse frequency code of a sample is not in 1..=9, and no
    /// frequency chunk overrides it.
    Frequency(u32),
    /// The name of the sample with this index is not valid UTF-8.
    NameTable(usize),
    /// The sample handed to an export carries no payload.
    Mismatched,
    /// The container's audio format cannot be exported.
    RebuildFormat(SoundFormat),
    /// The stream ended before a read was complete, or a position in it
    /// cannot be addressed.
    IO,
    /// The wave writer refused the sample.
    PCM,
    /// The data offset of the sample after the one with this index is lower
    /// than its own, so that its payload would have a negative length.
    DataOffset(usize),
}

} // verus!

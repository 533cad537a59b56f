//! The typed metadata records that follow a sample header.

use crate::bytes::{can_read, read_bytes, read_u32, read_u8, run_at, u32_le};
use crate::error::Error;
use vstd::prelude::*;

verus! {

/// One metadata record of a sample.
#[derive(Debug, Clone, PartialEq, Eq)]
pub enum MetadataChunk {
    /// Type 1: the channel count.
    Channels(u8),
    /// Type 2: the sample rate in Hz, which overrides the coarse code.
    Frequency(u32),
    /// Type 3: the first and the last frame of the loop.
    Loop(u32, u32),
    /// Type 6: an XMA seek table, kept as it stands.
    XMASeek(Vec<u8>),
    /// Type 7: DSP coefficients, kept as they stand.
    DSPCOEFF(Vec<u8>),
    /// Type 10: XWMA codec data, kept as it stands.
    XWMAData(Vec<u8>),
    /// Type 11: a checksum and Vorbis setup data, kept as it stands.
    VorbisData { crc32: u32, unknown: Vec<u8> },
}

/// What a metadata record holds, with sequences for its byte blobs.
pub enum ChunkView {
    Channels(u8),
    Frequency(u32),
    Loop(u32, u32),
    XMASeek(Seq<u8>),
    DSPCOEFF(Seq<u8>),
    XWMAData(Seq<u8>),
    VorbisData { crc32: u32, unknown: Seq<u8> },
}

impl View for MetadataChunk {
    type V = ChunkView;

    open spec fn view(&self) -> ChunkView {
        match *self {
            MetadataChunk::Channels(c) => ChunkView::Channels(c),
            MetadataChunk::Frequency(f) => ChunkView::Frequency(f),
            MetadataChunk::Loop(a, b) => ChunkView::Loop(a, b),
            MetadataChunk::XMASeek(d) => ChunkView::XMASeek(d@),
            MetadataChunk::DSPCOEFF(d) => ChunkView::DSPCOEFF(d@),
            MetadataChunk::XWMAData(d) => ChunkView::XWMAData(d@),
            MetadataChunk::VorbisData { crc32, unknown } => ChunkView::VorbisData {
                crc32,
                unknown: unknown@,
            },
        }
    }
}

/// Whether `kind` is a chunk type that the decoder knows.
pub open spec fn known_chunk_type(kind: u64) -> bool {
    1 <= kind <= 3 || 6 <= kind <= 7 || 10 <= kind <= 11
}

/// The body of a chunk of type `kind` and declared size `size` that stands at
/// `pos`, with the position behind it.
///
/// The three fixed layouts take one, four and eight bytes whatever the
/// declared size is; a blob takes `size` bytes; the Vorbis record takes four
/// bytes and then `size` more.
pub open spec fn chunk_at(s: Seq<u8>, pos: int, size: int, kind: u64) -> Result<
    (ChunkView, int),
    Error,
> {
    if kind == 1 {
        if pos < s.len() {
            Ok((ChunkView::Channels(s[pos]), pos + 1))
        } else {
            Err(Error::IO)
        }
    } else if kind == 2 {
        if pos + 4 <= s.len() {
            Ok((ChunkView::Frequency(u32_le(s, pos)), pos + 4))
        } else {
            Err(Error::IO)
        }
    } else if kind == 3 {
        if pos + 8 <= s.len() {
            Ok((ChunkView::Loop(u32_le(s, pos), u32_le(s, pos + 4)), pos + 8))
        } else {
            Err(Error::IO)
        }
    } else if kind == 6 || kind == 7 || kind == 10 {
        if can_read(s, pos, size) {
            let blob = run_at(s, pos, size);
            Ok(
                (
                    if kind == 6 {
                        ChunkView::XMASeek(blob)
                    } else if kind == 7 {
                        ChunkView::DSPCOEFF(blob)
                    } else {
                        ChunkView::XWMAData(blob)
                    },
                    pos + size,
                ),
            )
        } else {
            Err(Error::IO)
        }
    } else if kind == 11 {
        if pos + 4 <= s.len() && can_read(s, pos + 4, size) {
            Ok(
                (
                    ChunkView::VorbisData {
                        crc32: u32_le(s, pos),
                        unknown: run_at(s, pos + 4, size),
                    },
                    pos + 4 + size,
                ),
            )
        } else {
            Err(Error::IO)
        }
    } else {
        Err(Error::MetadataChunkType(kind))
    }
}

/// Whether a read came out as `expected`: with the same error, or at the
/// same position with a chunk whose view is the expected one.
pub open spec fn chunk_outcome(
    r: Result<(MetadataChunk, usize), Error>,
    expected: Result<(ChunkView, int), Error>,
) -> bool {
    match r {
        Ok((chunk, end)) => expected == Ok::<(ChunkView, int), Error>((chunk@, end as int)),
        Err(e) => expected == Err::<(ChunkView, int), Error>(e),
    }
}

impl MetadataChunk {
    /// The type code under which a sample files this chunk.
    pub open spec fn kind(v: ChunkView) -> u64 {
        match v {
            ChunkView::Channels(_) => 1,
            ChunkView::Frequency(_) => 2,
            ChunkView::Loop(_, _) => 3,
            ChunkView::XMASeek(_) => 6,
            ChunkView::DSPCOEFF(_) => 7,
            ChunkView::XWMAData(_) => 10,
            ChunkView::VorbisData { .. } => 11,
        }
    }

    /// Decodes the body of one chunk of type `chunk_type` and declared size
    /// `chunk_size` at `pos`; hands back the chunk and the position behind
    /// it. An unknown type fails with `Error::MetadataChunkType` and a
    /// stream that is too short with `Error::IO`.
    pub fn read(data: &[u8], pos: usize, chunk_size: usize, chunk_type: u64) -> (r: Result<
        (MetadataChunk, usize),
        Error,
    >)
        ensures
            chunk_outcome(r, chunk_at(data@, pos as int, chunk_size as int, chunk_type)),
    {
        match chunk_type {
            1 => match read_u8(data, pos) {
                Ok((channels, end)) => Ok((MetadataChunk::Channels(channels), end)),
                Err(e) => Err(e),
            },
            2 => match read_u32(data, pos) {
                Ok((frequency, end)) => Ok((MetadataChunk::Frequency(frequency), end)),
                Err(e) => Err(e),
            },
            3 => match read_u32(data, pos) {
                Ok((start, mid)) => match read_u32(data, mid) {
                    Ok((stop, end)) => Ok((MetadataChunk::Loop(start, stop), end)),
                    Err(e) => Err(e),
                },
                Err(e) => Err(e),
            },
            6 => match read_bytes(data, pos, chunk_size) {
                Ok((blob, end)) => Ok((MetadataChunk::XMASeek(blob), end)),
                Err(e) => Err(e),
            },
            7 => match read_bytes(data, pos, chunk_size) {
                Ok((blob, end)) => Ok((MetadataChunk::DSPCOEFF(blob), end)),
                Err(e) => Err(e),
            },
            10 => match read_bytes(data, pos, chunk_size) {
                Ok((blob, end)) => Ok((MetadataChunk::XWMAData(blob), end)),
                Err(e) => Err(e),
            },
            11 => match read_u32(data, pos) {
                Ok((crc32, mid)) => match read_bytes(data, mid, chunk_size) {
                    Ok((unknown, end)) => Ok((MetadataChunk::VorbisData { crc32, unknown }, end)),
                    Err(e) => Err(e),
                },
                Err(e) => Err(e),
            },
            _ => Err(Error::MetadataChunkType(chunk_type)),
        }
    }
}

/// A chunk that was read is filed under the type it was asked for, that type
/// is a known one, and the position behind it is not before the one it was
/// read at.
pub proof fn lemma_chunk_at(s: Seq<u8>, pos: int, size: int, kind: u64)
    requires
        0 <= pos,
        0 <= size,
    ensures
        chunk_at(s, pos, size, kind) matches Ok((chunk, end)) ==> MetadataChunk::kind(chunk) == kind
            && known_chunk_type(kind) && pos <= end,
        !known_chunk_type(kind) ==> chunk_at(s, pos, size, kind) == Err::<(ChunkView, int), Error>(
            Error::MetadataChunkType(kind),
        ),
{
}

} // verus!

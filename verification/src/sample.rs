//! Samples and their bit-packed headers.
//!
//! A sample header is one 64-bit word, followed by a chain of metadata
//! chunks for as long as the word, and then each chunk's own header, says
//! that one more follows.

use crate::bitfield::{bit_field, bits, lemma_bit_field_bound};
use crate::bytes::{read_u32, read_u64, u32_le, u64_le};
use crate::chunk::{chunk_at, known_chunk_type, lemma_chunk_at, ChunkView, MetadataChunk};
use crate::error::Error;
use crate::text::{decimal, index_name};
use std::collections::HashMap;
use vstd::arithmetic::power2::{lemma2_to64, lemma2_to64_rest};
use vstd::prelude::*;

verus! {

/// One sound of a bank.
#[derive(Debug, Clone)]
pub struct Sample {
    /// The name from the name table; the decimal index where there is none.
    pub name: String,
    /// The sample rate in Hz.
    pub frequency: u32,
    /// The number of channels.
    pub channels: u64,
    /// Where the payload begins in the data segment, in bytes.
    pub data_offset: usize,
    /// The number of sample frames.
    pub samples: usize,
    /// The metadata chunks, each under its type code.
    pub metadata: HashMap<u64, MetadataChunk>,
    /// The payload, once the data segment has been read.
    pub data: Option<Vec<u8>>,
}

/// What a sample holds.
pub struct SampleView {
    pub name: Seq<char>,
    pub frequency: u32,
    pub channels: u64,
    pub data_offset: nat,
    pub samples: nat,
    pub metadata: Map<u64, ChunkView>,
    pub data: Option<Seq<u8>>,
}

/// The chunks of a table, each by its view.
pub open spec fn chunks_view(chunks: Map<u64, MetadataChunk>) -> Map<u64, ChunkView> {
    chunks.map_values(|chunk: MetadataChunk| chunk@)
}

impl View for Sample {
    type V = SampleView;

    open spec fn view(&self) -> SampleView {
        SampleView {
            name: self.name@,
            frequency: self.frequency,
            channels: self.channels,
            data_offset: self.data_offset as nat,
            samples: self.samples as nat,
            metadata: chunks_view(self.metadata@),
            data: match self.data {
                Some(payload) => Some(payload@),
                None => None,
            },
        }
    }
}

/// The sample rate that a coarse frequency code stands for.
pub open spec fn table_frequency(code: u32) -> Option<u32> {
    match code {
        1 => Some(8000u32),
        2 => Some(11000u32),
        3 => Some(11025u32),
        4 => Some(16000u32),
        5 => Some(22050u32),
        6 => Some(24000u32),
        7 => Some(32000u32),
        8 => Some(44100u32),
        9 => Some(48000u32),
        _ => None,
    }
}

/// The sample rate of a sample with the given coarse code and chunks: the
/// rate of its frequency chunk where it has one, the rate the code stands
/// for otherwise, and `Error::Frequency` with the code where it stands for
/// none.
pub open spec fn resolved_frequency(code: u32, chunks: Map<u64, ChunkView>) -> Result<u32, Error> {
    if chunks.contains_key(2) && chunks[2] is Frequency {
        Ok(chunks[2]->Frequency_0)
    } else {
        match table_frequency(code) {
            Some(rate) => Ok(rate),
            None => Err(Error::Frequency(code)),
        }
    }
}

/// The flag of a chunk header that says whether one more chunk follows.
pub open spec fn chunk_more(word: u32) -> bool {
    bit_field(word as u64, 0, 1) != 0
}

/// The declared size of the body of a chunk, from its header.
pub open spec fn chunk_size(word: u32) -> nat {
    bit_field(word as u64, 1, 24)
}

/// The type code of a chunk, from its header.
pub open spec fn chunk_kind(word: u32) -> u64 {
    bit_field(word as u64, 25, 7) as u64
}

/// The chunks of the chain that stands at `pos`, added to `acc`, with the
/// position behind the chain. `more` says whether a chunk stands at `pos` at
/// all.
///
/// A chunk of a type that occurred before takes the earlier one's place. A
/// chunk of unknown type is left out, and the chain goes on directly behind
/// its header: its body is not skipped.
pub open spec fn chunk_chain(s: Seq<u8>, pos: int, more: bool, acc: Map<u64, ChunkView>) -> Result<
    (Map<u64, ChunkView>, int),
    Error,
>
    decreases s.len() - pos,
{
    if !more {
        Ok((acc, pos))
    } else if pos < 0 || pos + 4 > s.len() {
        Err(Error::IO)
    } else {
        let word = u32_le(s, pos);
        match chunk_at(s, pos + 4, chunk_size(word) as int, chunk_kind(word)) {
            Ok((chunk, end)) => chunk_chain(
                s,
                end,
                chunk_more(word),
                acc.insert(chunk_kind(word), chunk),
            ),
            Err(Error::MetadataChunkType(_)) => chunk_chain(s, pos + 4, chunk_more(word), acc),
            Err(e) => Err(e),
        }
    }
}

/// The sample whose header stands at `pos`, as the sample with the given
/// index, with the position behind its last chunk.
///
/// From the least significant bit up, the header word holds: one bit that
/// says whether chunks follow, four bits of coarse frequency code, one bit
/// of channel count less one, 28 bits of data offset in units of 16 bytes,
/// and 30 bits of frame count.
pub open spec fn sample_at(s: Seq<u8>, pos: int, index: nat) -> Result<(SampleView, int), Error> {
    if pos < 0 || pos + 8 > s.len() {
        Err(Error::IO)
    } else {
        let word = u64_le(s, pos);
        match chunk_chain(s, pos + 8, bit_field(word, 0, 1) != 0, Map::empty()) {
            Err(e) => Err(e),
            Ok((chunks, end)) => match resolved_frequency(bit_field(word, 1, 4) as u32, chunks) {
                Err(e) => Err(e),
                Ok(frequency) => Ok(
                    (
                        SampleView {
                            name: decimal(index),
                            frequency,
                            channels: (bit_field(word, 5, 1) + 1) as u64,
                            data_offset: bit_field(word, 6, 28) * 16,
                            samples: bit_field(word, 34, 30),
                            metadata: chunks,
                            data: None,
                        },
                        end,
                    ),
                ),
            },
        }
    }
}

/// Adding a chunk to a table adds its view to the table's view.
pub proof fn lemma_chunks_view_insert(chunks: Map<u64, MetadataChunk>, kind: u64, chunk: MetadataChunk)
    ensures
        chunks_view(chunks.insert(kind, chunk)) == chunks_view(chunks).insert(kind, chunk@),
        chunks_view(Map::<u64, MetadataChunk>::empty()) == Map::<u64, ChunkView>::empty(),
{
    assert(chunks_view(chunks.insert(kind, chunk)) =~= chunks_view(chunks).insert(kind, chunk@));
    assert(chunks_view(Map::<u64, MetadataChunk>::empty()) =~= Map::<u64, ChunkView>::empty());
}

/// The sample rate of a sample with the given coarse code and chunks.
pub fn resolve_frequency(code: u32, chunks: &HashMap<u64, MetadataChunk>) -> (r: Result<u32, Error>)
    ensures
        r == resolved_frequency(code, chunks_view(chunks@)),
{
    let key: u64 = 2;
    if let Some(MetadataChunk::Frequency(rate)) = chunks.get(&key) {
        return Ok(*rate);
    }
    match code {
        1 => Ok(8000),
        2 => Ok(11000),
        3 => Ok(11025),
        4 => Ok(16000),
        5 => Ok(22050),
        6 => Ok(24000),
        7 => Ok(32000),
        8 => Ok(44100),
        9 => Ok(48000),
        _ => Err(Error::Frequency(code)),
    }
}

/// Decodes the chain of chunks at `pos`; `more` says whether a chunk stands
/// there at all. Hands back the chunks, each under its type code, and the
/// position behind the chain.
pub fn read_chunks(data: &[u8], pos: usize, more: bool) -> (r: Result<
    (HashMap<u64, MetadataChunk>, usize),
    Error,
>)
    ensures
        match r {
            Ok((chunks, end)) => chunk_chain(data@, pos as int, more, Map::empty()) == Ok::<
                (Map<u64, ChunkView>, int),
                Error,
            >((chunks_view(chunks@), end as int)),
            Err(e) => chunk_chain(data@, pos as int, more, Map::empty()) == Err::<
                (Map<u64, ChunkView>, int),
                Error,
            >(e),
        },
{
    let mut chunks: HashMap<u64, MetadataChunk> = HashMap::new();
    let mut at: usize = pos;
    let mut next: bool = more;
    proof {
        lemma_chunks_view_insert(chunks@, 0, MetadataChunk::Channels(0));
    }
    while next
        invariant
            chunk_chain(data@, pos as int, more, Map::empty()) == chunk_chain(
                data@,
                at as int,
                next,
                chunks_view(chunks@),
            ),
        decreases data@.len() - at,
    {
        let (word, body) = match read_u32(data, at) {
            Ok(v) => v,
            Err(e) => {
                return Err(e);
            },
        };
        proof {
            lemma2_to64();
            lemma_bit_field_bound(word as u64, 1, 24);
            lemma_bit_field_bound(word as u64, 25, 7);
        }
        next = bits(word as u64, 0, 1) != 0;
        let size = bits(word as u64, 1, 24) as usize;
        let kind = bits(word as u64, 25, 7);
        match MetadataChunk::read(data, body, size, kind) {
            Ok((chunk, end)) => {
                proof {
                    lemma_chunks_view_insert(chunks@, kind, chunk);
                }
                chunks.insert(kind, chunk);
                at = end;
            },
            Err(Error::MetadataChunkType(_)) => {
                at = body;
            },
            Err(e) => {
                return Err(e);
            },
        }
    }
    Ok((chunks, at))
}

impl Sample {
    /// Decodes the sample whose header stands at `pos`, as the sample with
    /// the given index. Hands back the sample, without a payload, and the
    /// position behind its last chunk.
    pub fn read(data: &[u8], pos: usize, index: usize) -> (r: Result<(Sample, usize), Error>)
        ensures
            match r {
                Ok((sample, end)) => sample_at(data@, pos as int, index as nat) == Ok::<
                    (SampleView, int),
                    Error,
                >((sample@, end as int)),
                Err(e) => sample_at(data@, pos as int, index as nat) == Err::<
                    (SampleView, int),
                    Error,
                >(e),
            },
    {
        let (word, body) = match read_u64(data, pos) {
            Ok(v) => v,
            Err(e) => {
                return Err(e);
            },
        };
        proof {
            lemma2_to64();
            lemma2_to64_rest();
            lemma_bit_field_bound(word, 1, 4);
            lemma_bit_field_bound(word, 5, 1);
            lemma_bit_field_bound(word, 6, 28);
            lemma_bit_field_bound(word, 34, 30);
        }
        let more = bits(word, 0, 1) != 0;
        let code = bits(word, 1, 4) as u32;
        let channels = bits(word, 5, 1) + 1;
        let data_offset = (bits(word, 6, 28) * 16) as usize;
        let samples = bits(word, 34, 30) as usize;
        let (chunks, end) = match read_chunks(data, body, more) {
            Ok(v) => v,
            Err(e) => {
                return Err(e);
            },
        };
        let frequency = match resolve_frequency(code, &chunks) {
            Ok(rate) => rate,
            Err(e) => {
                return Err(e);
            },
        };
        Ok(
            (
                Sample {
                    name: index_name(index),
                    frequency,
                    channels,
                    data_offset,
                    samples,
                    metadata: chunks,
                    data: None,
                },
                end,
            ),
        )
    }
}

/// The views of a list of samples.
pub open spec fn samples_view(samples: Seq<Sample>) -> Seq<SampleView> {
    samples.map_values(|sample: Sample| sample@)
}

/// The samples whose headers stand one behind the other from `pos` on,
/// added to `acc` until there are `count` of them, with the position behind
/// the last one. Each sample gets its place in the list as its index.
pub open spec fn sample_headers(s: Seq<u8>, pos: int, count: nat, acc: Seq<SampleView>) -> Result<
    (Seq<SampleView>, int),
    Error,
>
    decreases count - acc.len(),
{
    if acc.len() >= count {
        Ok((acc, pos))
    } else {
        match sample_at(s, pos, acc.len()) {
            Err(e) => Err(e),
            Ok((sample, end)) => sample_headers(s, end, count, acc.push(sample)),
        }
    }
}

/// Decodes `count` sample headers that stand one behind the other from `pos`
/// on. Hands back the samples, without payloads, and the position behind the
/// last one.
pub fn read_sample_headers(data: &[u8], pos: usize, count: usize) -> (r: Result<
    (Vec<Sample>, usize),
    Error,
>)
    ensures
        match r {
            Ok((samples, end)) => sample_headers(data@, pos as int, count as nat, Seq::empty())
                == Ok::<(Seq<SampleView>, int), Error>((samples_view(samples@), end as int)),
            Err(e) => sample_headers(data@, pos as int, count as nat, Seq::empty()) == Err::<
                (Seq<SampleView>, int),
                Error,
            >(e),
        },
{
    let mut samples: Vec<Sample> = Vec::new();
    let mut at: usize = pos;
    assert(samples_view(samples@) =~= Seq::<SampleView>::empty());
    while samples.len() < count
        invariant
            samples@.len() <= count,
            sample_headers(data@, pos as int, count as nat, Seq::empty()) == sample_headers(
                data@,
                at as int,
                count as nat,
                samples_view(samples@),
            ),
        decreases count - samples@.len(),
    {
        let index = samples.len();
        match Sample::read(data, at, index) {
            Ok((sample, end)) => {
                assert(samples_view(samples@.push(sample)) =~= samples_view(samples@).push(
                    sample@,
                ));
                samples.push(sample);
                at = end;
            },
            Err(e) => {
                return Err(e);
            },
        }
    }
    Ok((samples, at))
}

/// Whether every chunk of a table is of a known type and filed under it.
pub open spec fn chunks_filed(chunks: Map<u64, ChunkView>) -> bool {
    forall|kind: u64| #[trigger]
        chunks.contains_key(kind) ==> known_chunk_type(kind) && MetadataChunk::kind(chunks[kind])
            == kind
}

/// Whether `rate` is one of the nine sample rates that a coarse frequency
/// code can stand for.
pub open spec fn table_rate(rate: u32) -> bool {
    exists|code: u32| table_frequency(code) == Some(rate)
}

/// What holds of every sample that was decoded from a header: it has one or
/// two channels; its sample rate is that of its frequency chunk or, without
/// one, one of the nine rates of the table; its data offset is a multiple of
/// 16 below 2^32 and its frame count is below 2^30; and its chunks are of
/// known types, each filed under its own.
pub open spec fn header_form(sample: SampleView) -> bool {
    &&& sample.channels == 1 || sample.channels == 2
    &&& if sample.metadata.contains_key(2) {
        sample.metadata[2] == ChunkView::Frequency(sample.frequency)
    } else {
        table_rate(sample.frequency)
    }
    &&& sample.data_offset % 16 == 0
    &&& sample.data_offset < 0x1_0000_0000
    &&& sample.samples < 0x4000_0000
    &&& chunks_filed(sample.metadata)
}

/// A chunk of unknown type does not end the chain: the chain goes on
/// directly behind the chunk's header, with the chunks it had.
pub proof fn lemma_unknown_chunk_is_skipped(s: Seq<u8>, pos: int, acc: Map<u64, ChunkView>)
    requires
        0 <= pos,
        pos + 4 <= s.len(),
        !known_chunk_type(chunk_kind(u32_le(s, pos))),
    ensures
        chunk_chain(s, pos, true, acc) == chunk_chain(
            s,
            pos + 4,
            chunk_more(u32_le(s, pos)),
            acc,
        ),
{
    let word = u32_le(s, pos);
    lemma_chunk_at(s, pos + 4, chunk_size(word) as int, chunk_kind(word));
}

/// A chain keeps a table of filed chunks filed, and ends at or behind the
/// position it began at.
pub proof fn lemma_chunk_chain_filed(s: Seq<u8>, pos: int, more: bool, acc: Map<u64, ChunkView>)
    requires
        chunks_filed(acc),
    ensures
        chunk_chain(s, pos, more, acc) matches Ok((chunks, end)) ==> chunks_filed(chunks) && pos
            <= end,
    decreases s.len() - pos,
{
    if more && 0 <= pos && pos + 4 <= s.len() {
        let word = u32_le(s, pos);
        let kind = chunk_kind(word);
        lemma_chunk_at(s, pos + 4, chunk_size(word) as int, kind);
        match chunk_at(s, pos + 4, chunk_size(word) as int, kind) {
            Ok((chunk, end)) => {
                assert(chunks_filed(acc.insert(kind, chunk)));
                lemma_chunk_chain_filed(s, end, chunk_more(word), acc.insert(kind, chunk));
            },
            Err(Error::MetadataChunkType(_)) => {
                lemma_chunk_chain_filed(s, pos + 4, chunk_more(word), acc);
            },
            Err(_) => {},
        }
    }
}

/// A sample that was decoded from a header has the form of one, the decimal
/// numeral of its index as its name, and no payload yet.
pub proof fn lemma_sample_at_form(s: Seq<u8>, pos: int, index: nat)
    ensures
        sample_at(s, pos, index) matches Ok((sample, end)) ==> header_form(sample) && sample.name
            == decimal(index) && sample.data is None && pos <= end,
{
    if 0 <= pos && pos + 8 <= s.len() {
        let word = u64_le(s, pos);
        lemma2_to64();
        lemma2_to64_rest();
        lemma_bit_field_bound(word, 1, 4);
        lemma_bit_field_bound(word, 5, 1);
        lemma_bit_field_bound(word, 6, 28);
        lemma_bit_field_bound(word, 34, 30);
        lemma_chunk_chain_filed(s, pos + 8, bit_field(word, 0, 1) != 0, Map::empty());
        match chunk_chain(s, pos + 8, bit_field(word, 0, 1) != 0, Map::empty()) {
            Ok((chunks, end)) => {
                let code = bit_field(word, 1, 4) as u32;
                if !chunks.contains_key(2) {
                    if table_frequency(code) is Some {
                        assert(table_rate(table_frequency(code)->Some_0));
                    }
                }
            },
            Err(_) => {},
        }
    }
}

/// Where `count` sample headers can be decoded, there are `count` samples,
/// and each has the form of a decoded one and no payload yet.
pub proof fn lemma_sample_headers_form(s: Seq<u8>, pos: int, count: nat, acc: Seq<SampleView>)
    requires
        acc.len() <= count,
        forall|i: int| 0 <= i < acc.len() ==> header_form(#[trigger] acc[i]) && acc[i].data is None,
    ensures
        sample_headers(s, pos, count, acc) matches Ok((samples, end)) ==> samples.len() == count
            && forall|i: int|
            0 <= i < samples.len() ==> header_form(#[trigger] samples[i]) && samples[i].data
                is None,
    decreases count - acc.len(),
{
    if acc.len() < count {
        lemma_sample_at_form(s, pos, acc.len());
        match sample_at(s, pos, acc.len()) {
            Ok((sample, end)) => {
                lemma_sample_headers_form(s, end, count, acc.push(sample));
            },
            Err(_) => {},
        }
    }
}

} // verus!

//! Wave files, as the `hound` crate writes them.

use vstd::prelude::*;

verus! {

/// The bytes of the wave file that `hound` writes for integer samples with
/// the given channel count, sample rate and bits per sample; `None` where it
/// refuses them.
pub uninterp spec fn wave_file(channels: u16, sample_rate: u32, bits: u16, samples: Seq<i32>) -> Option<
    Seq<u8>,
>;

/// The number of bytes that hold one sample of `bits` bits.
pub open spec fn sample_bytes(bits: u16) -> int {
    (bits + 7) / 8
}

/// Whether a wave file of `count` samples can be written at all: a wave file
/// has at least one channel, a positive sample rate and samples of one to
/// four bytes, and keeps its byte rate and its length in 32 bits each.
pub open spec fn wave_writable(channels: u16, sample_rate: u32, bits: u16, count: nat) -> bool {
    &&& channels >= 1
    &&& sample_rate >= 1
    &&& 1 <= bits <= 32
    &&& sample_rate * sample_bytes(bits) * channels <= u32::MAX
    &&& count * sample_bytes(bits) + 60 <= u32::MAX
}

/// Writes a wave file into memory with `hound::WavWriter`: `new` with the
/// integer sample format, `write_sample` for each sample in turn, then
/// `finalize`. What comes back is the file's bytes, or `None` where the
/// writer failed. The writer borrows its sink until it is finalized, so the
/// three steps stand in one function.
///
/// The writer divides by the sample rate, by the channel count and by the
/// bytes of a sample, and counts the byte rate and the bytes written in 32
/// bits: `wave_writable` keeps all of these in range.
#[verifier::external_body]
pub(crate) fn write_wave(channels: u16, sample_rate: u32, bits: u16, samples: &Vec<i32>) -> (r:
    Option<Vec<u8>>)
    requires
        wave_writable(channels, sample_rate, bits, samples@.len()),
    ensures
        match r {
            Some(bytes) => wave_file(channels, sample_rate, bits, samples@) == Some(bytes@),
            None => wave_file(channels, sample_rate, bits, samples@) is None,
        },
{
    let format = hound::WavSpec {
        channels,
        sample_rate,
        bits_per_sample: bits,
        sample_format: hound::SampleFormat::Int,
    };
    let mut cursor = std::io::Cursor::new(Vec::new());
    let mut writer = hound::WavWriter::new(&mut cursor, format).ok()?;
    for sample in samples.iter() {
        writer.write_sample(*sample).ok()?;
    }
    writer.finalize().ok()?;
    Some(cursor.into_inner())
}

} // verus!

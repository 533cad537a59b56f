//! The export of integer PCM samples as wave files.

use crate::bytes::u32_le;
use crate::error::Error;
use crate::sample::{Sample, SampleView};
use crate::wave::{wave_file, wave_writable, write_wave};
use vstd::prelude::*;

verus! {

/// The value of sample `i` of a payload of samples `width` bytes wide:
/// 8-bit samples are unsigned bytes around 128, wider ones are signed and
/// little-endian.
pub open spec fn pcm_sample(data: Seq<u8>, width: int, i: int) -> int {
    if width == 1 {
        data[i] - 128
    } else if width == 2 {
        let word = data[2 * i] + 0x100 * data[2 * i + 1];
        if word >= 0x8000 {
            word - 0x1_0000
        } else {
            word
        }
    } else {
        let word = u32_le(data, 4 * i);
        if word >= 0x8000_0000 {
            word - 0x1_0000_0000
        } else {
            word as int
        }
    }
}

/// The samples of a payload of samples `width` bytes wide; bytes at its end
/// that do not make up a sample are left out.
pub open spec fn pcm_samples(data: Seq<u8>, width: int) -> Seq<i32> {
    Seq::new((data.len() as int / width) as nat, |i: int| pcm_sample(data, width, i) as i32)
}

/// Whether the library exports samples of this width in bytes.
pub open spec fn pcm_width(width: u16) -> bool {
    width == 1 || width == 2 || width == 4
}

/// The wave file of a sample whose payload holds integer PCM samples `width`
/// bytes wide.
///
/// Of the payload, the first `samples * width` bytes are exported. A sample
/// without a payload, or with a shorter one than that, fails with
/// `Error::Mismatched`; a width other than 1, 2 and 4, a sample that no wave
/// file can hold, and a refusal of the wave writer fail with `Error::PCM`.
pub open spec fn rebuilt(sample: SampleView, width: u16) -> Result<Seq<u8>, Error> {
    match sample.data {
        None => Err(Error::Mismatched),
        Some(payload) => {
            let n = sample.samples * width;
            if payload.len() < n {
                Err(Error::Mismatched)
            } else if !pcm_width(width) || sample.channels > u16::MAX || !wave_writable(
                sample.channels as u16,
                sample.frequency,
                (8 * width) as u16,
                sample.samples,
            ) {
                Err(Error::PCM)
            } else {
                wave_outcome(
                    wave_file(
                        sample.channels as u16,
                        sample.frequency,
                        (8 * width) as u16,
                        pcm_samples(payload.take(n as int), width as int),
                    ),
                )
            }
        },
    }
}

/// What an export hands back for what the wave writer made.
pub open spec fn wave_outcome(file: Option<Seq<u8>>) -> Result<Seq<u8>, Error> {
    match file {
        Some(bytes) => Ok(bytes),
        None => Err(Error::PCM),
    }
}

/// The samples of a payload of integer PCM samples `width` bytes wide, for a
/// width of 1, 2 or 4; `None` for any other width.
pub fn decode_samples(data: &[u8], width: u16) -> (r: Option<Vec<i32>>)
    ensures
        match r {
            Some(samples) => pcm_width(width) && samples@ == pcm_samples(data@, width as int),
            None => !pcm_width(width),
        },
{
    if !(width == 1 || width == 2 || width == 4) {
        return None;
    }
    let step = width as usize;
    let count = data.len() / step;
    let mut samples: Vec<i32> = Vec::new();
    let mut i: usize = 0;
    while i < count
        invariant
            0 <= i <= count,
            step == width,
            pcm_width(width),
            count == data@.len() as int / width as int,
            count * step <= data@.len() <= usize::MAX,
            samples@.len() == i,
            forall|j: int|
                0 <= j < i ==> #[trigger] samples@[j] == pcm_sample(data@, width as int, j) as i32,
        decreases count - i,
    {
        let at = i * step;
        let value: i32 = if width == 1 {
            data[at] as i32 - 128
        } else if width == 2 {
            let word: i32 = data[at] as i32 + 0x100 * (data[at + 1] as i32);
            if word >= 0x8000 {
                word - 0x1_0000
            } else {
                word
            }
        } else {
            let word: i64 = data[at] as i64 + 0x100 * (data[at + 1] as i64) + 0x1_0000 * (data[at
                + 2] as i64) + 0x100_0000 * (data[at + 3] as i64);
            if word >= 0x8000_0000 {
                (word - 0x1_0000_0000) as i32
            } else {
                word as i32
            }
        };
        samples.push(value);
        i = i + 1;
    }
    assert(samples@ =~= pcm_samples(data@, width as int));
    Some(samples)
}

/// What an export hands back for what the wave writer returned: the file,
/// or `Error::PCM` where the writer failed.
pub fn finish_wave(written: Option<Vec<u8>>) -> (r: Result<Vec<u8>, Error>)
    ensures
        match written {
            Some(bytes) => r == Ok::<Vec<u8>, Error>(bytes),
            None => r == Err::<Vec<u8>, Error>(Error::PCM),
        },
{
    match written {
        Some(bytes) => Ok(bytes),
        None => Err(Error::PCM),
    }
}

/// Exports a sample whose payload holds integer PCM samples `width` bytes
/// wide as a wave file of `8 * width` bits per sample.
pub fn rebuild(sample: Sample, width: u16) -> (r: Result<Vec<u8>, Error>)
    ensures
        match r {
            Ok(bytes) => rebuilt(sample@, width) == Ok::<Seq<u8>, Error>(bytes@),
            Err(e) => rebuilt(sample@, width) == Err::<Seq<u8>, Error>(e),
        },
{
    let payload = match sample.data {
        Some(payload) => payload,
        None => {
            return Err(Error::Mismatched);
        },
    };
    let frames = sample.samples;
    let ghost len = payload@.len() as int;
    let ghost w = width as int;
    proof {
        if width > 0 {
            vstd::arithmetic::div_mod::lemma_fundamental_div_mod(len, w);
        }
    }
    if width > 0 && frames > payload.len() / (width as usize) {
        proof {
            let q = len / w;
            let m = len % w;
            assert(len < frames * w) by (nonlinear_arith)
                requires
                    w > 0,
                    frames >= q + 1,
                    len == w * q + m,
                    0 <= m,
                    m < w,
            ;
        }
        return Err(Error::Mismatched);
    }
    proof {
        if width > 0 {
            let q = len / w;
            let m = len % w;
            assert(frames * w <= len) by (nonlinear_arith)
                requires
                    w > 0,
                    0 <= frames,
                    frames <= q,
                    len == w * q + m,
                    0 <= m,
            ;
        }
    }
    if !(width == 1 || width == 2 || width == 4) {
        return Err(Error::PCM);
    }
    let bits: u16 = 8 * width;
    if sample.channels < 1 || sample.channels > 0xffff || sample.frequency < 1 {
        return Err(Error::PCM);
    }
    let channels = sample.channels as u16;
    assert(sample.frequency * width <= 0xffff_ffff * 4 && sample.frequency * width * channels
        <= 0xffff_ffff * 4 * 0xffff) by (nonlinear_arith)
        requires
            0 <= sample.frequency <= 0xffff_ffff,
            0 <= width <= 4,
            0 <= channels <= 0xffff,
    ;
    let rate: u64 = sample.frequency as u64 * (width as u64) * (channels as u64);
    if rate > 0xffff_ffff || frames > (0xffff_ffff - 60) / (width as usize) {
        return Err(Error::PCM);
    }
    let n = frames * (width as usize);
    let front = vstd::slice::slice_subrange(payload.as_slice(), 0, n);
    assert(front@ == payload@.take(n as int));
    let samples = match decode_samples(front, width) {
        Some(samples) => samples,
        None => {
            return Err(Error::PCM);
        },
    };
    assert(samples@.len() == frames) by {
        assert(front@.len() == frames * width);
        vstd::arithmetic::div_mod::lemma_div_multiples_vanish(frames as int, width as int);
    }
    finish_wave(write_wave(channels, sample.frequency, bits, &samples))
}

} // verus!

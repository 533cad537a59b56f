//! The sound bank as a whole: decoding it from a byte stream, and exporting
//! one of its samples.

use crate::error::Error;
use crate::format::SoundFormat;
use crate::header::{header_at, FSB5Header, HeaderView};
use crate::laws::lemma_decoded_sizes;
use crate::names::{named, read_names};
use crate::payload::{read_payloads, with_payloads};
use crate::pcm;
use crate::sample::{read_sample_headers, sample_headers, samples_view, Sample, SampleView};
use vstd::prelude::*;

verus! {

/// A decoded sound bank.
#[derive(Debug, Clone)]
pub struct FSB5 {
    /// The header.
    pub header: FSB5Header,
    /// The length of all that the bank holds, in bytes.
    pub raw_size: usize,
    /// The samples, in the order in which the bank stores them.
    pub samples: Vec<Sample>,
}

/// What a sound bank holds.
pub struct ContainerView {
    pub header: HeaderView,
    pub raw_size: nat,
    pub samples: Seq<SampleView>,
}

impl View for FSB5 {
    type V = ContainerView;

    open spec fn view(&self) -> ContainerView {
        ContainerView {
            header: self.header@,
            raw_size: self.raw_size as nat,
            samples: samples_view(self.samples@),
        }
    }
}

/// The samples of the bank with the header `header`, with their names and
/// payloads.
///
/// The sample headers stand directly behind the header. The name table, if
/// the header declares one, begins where the sample headers end. The data
/// segment begins where the header's three sizes say.
pub open spec fn samples_of(s: Seq<u8>, header: HeaderView) -> Result<Seq<SampleView>, Error> {
    match sample_headers(s, header.size as int, header.num_samples, Seq::empty()) {
        Err(e) => Err(e),
        Ok((bare, table)) => {
            let with_names = if header.name_table_size > 0 {
                named(s, table, bare)
            } else {
                Ok(bare)
            };
            match with_names {
                Err(e) => Err(e),
                Ok(samples) => with_payloads(
                    s,
                    header.data_start() as int,
                    header.data_size,
                    samples,
                    0,
                ),
            }
        },
    }
}

/// The sound bank that the stream `s` holds.
///
/// The first failure decides: of the header, then of a size that the machine
/// cannot address (`Error::IO`), then of the sample headers, of the name
/// table and of the data segment.
pub open spec fn decoded(s: Seq<u8>) -> Result<ContainerView, Error> {
    match header_at(s) {
        Err(e) => Err(e),
        Ok(header) => if header.raw_size() > usize::MAX {
            Err(Error::IO)
        } else {
            match samples_of(s, header) {
                Err(e) => Err(e),
                Ok(samples) => Ok(ContainerView { header, raw_size: header.raw_size(), samples }),
            }
        },
    }
}

/// What exporting `sample` from a bank of the format `mode` yields: the
/// payload as it stands for MPEG, a wave file for integer PCM of 8, 16 and
/// 32 bits, and `Error::RebuildFormat` for every other format.
pub open spec fn exported(mode: SoundFormat, sample: SampleView) -> Result<Seq<u8>, Error> {
    match mode {
        SoundFormat::MPEG => match sample.data {
            Some(payload) => Ok(payload),
            None => Err(Error::Mismatched),
        },
        _ => match mode.pcm_width() {
            Some(width) => pcm::rebuilt(sample, width),
            None => Err(Error::RebuildFormat(mode)),
        },
    }
}

impl FSB5 {
    /// Decodes the sound bank that `data` holds.
    pub fn read(data: &[u8]) -> (r: Result<FSB5, Error>)
        ensures
            match r {
                Ok(bank) => decoded(data@) == Ok::<ContainerView, Error>(bank@),
                Err(e) => decoded(data@) == Err::<ContainerView, Error>(e),
            },
            r matches Ok(bank) ==> bank.raw_size == bank.header.size
                + bank.header.sample_headers_size + bank.header.name_table_size
                + bank.header.data_size && bank.samples@.len() == bank.header.num_samples,
    {
        proof {
            lemma_decoded_sizes(data@);
        }
        let header = match FSB5Header::read(data) {
            Ok(header) => header,
            Err(e) => {
                return Err(e);
            },
        };
        let data_start = match header.size.checked_add(header.sample_headers_size) {
            Some(sum) => match sum.checked_add(header.name_table_size) {
                Some(sum) => sum,
                None => {
                    return Err(Error::IO);
                },
            },
            None => {
                return Err(Error::IO);
            },
        };
        let raw_size = match data_start.checked_add(header.data_size) {
            Some(sum) => sum,
            None => {
                return Err(Error::IO);
            },
        };
        let (bare, table) = match read_sample_headers(data, header.size, header.num_samples) {
            Ok(v) => v,
            Err(e) => {
                return Err(e);
            },
        };
        let with_names = if header.name_table_size > 0 {
            match read_names(data, table, bare) {
                Ok(samples) => samples,
                Err(e) => {
                    return Err(e);
                },
            }
        } else {
            bare
        };
        let samples = match read_payloads(data, data_start, header.data_size, with_names) {
            Ok(samples) => samples,
            Err(e) => {
                return Err(e);
            },
        };
        Ok(FSB5 { header, raw_size, samples })
    }

    /// Exports `sample` as a file of its own, by the format of this bank.
    pub fn rebuild(&self, sample: Sample) -> (r: Result<Vec<u8>, Error>)
        ensures
            match r {
                Ok(bytes) => exported(self.header.mode, sample@) == Ok::<Seq<u8>, Error>(bytes@),
                Err(e) => exported(self.header.mode, sample@) == Err::<Seq<u8>, Error>(e),
            },
            self.header.mode == SoundFormat::MPEG ==> match sample.data {
                Some(payload) => r == Ok::<Vec<u8>, Error>(payload),
                None => r == Err::<Vec<u8>, Error>(Error::Mismatched),
            },
            !self.header.mode.rebuildable() ==> r == Err::<Vec<u8>, Error>(
                Error::RebuildFormat(self.header.mode),
            ),
    {
        match self.header.mode {
            SoundFormat::MPEG => match sample.data {
                Some(payload) => Ok(payload),
                None => Err(Error::Mismatched),
            },
            SoundFormat::PCM8 => pcm::rebuild(sample, 1),
            SoundFormat::PCM16 => pcm::rebuild(sample, 2),
            SoundFormat::PCM32 => pcm::rebuild(sample, 4),
            _ => Err(Error::RebuildFormat(self.header.mode)),
        }
    }
}

} // verus!

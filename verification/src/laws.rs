//! What holds of every sound bank that can be decoded, and of every stream
//! that cannot.

use crate::container::{decoded, exported, samples_of, ContainerView};
use crate::error::Error;
use crate::format::SoundFormat;
use crate::header::{header_at, magic, HeaderView};
use crate::names::named;
use crate::payload::{lemma_with_payloads_keeps, loaded, with_payloads};
use crate::sample::{header_form, lemma_sample_headers_form, sample_headers, SampleView};
use vstd::prelude::*;

verus! {

/// What holds of every sample of a decoded bank: it has the form of a sample
/// that was decoded from a header, and it has its payload.
pub open spec fn decoded_form(sample: SampleView) -> bool {
    header_form(sample) && sample.data is Some
}

/// The samples of a bank are as many as its header says, and each has the
/// form of a decoded sample.
pub proof fn lemma_samples_of(s: Seq<u8>, header: HeaderView)
    ensures
        samples_of(s, header) matches Ok(samples) ==> samples.len() == header.num_samples
            && forall|i: int| 0 <= i < samples.len() ==> decoded_form(#[trigger] samples[i]),
{
    lemma_sample_headers_form(s, header.size as int, header.num_samples, Seq::empty());
    match sample_headers(s, header.size as int, header.num_samples, Seq::empty()) {
        Ok((bare, table)) => {
            let with_names = if header.name_table_size > 0 {
                named(s, table, bare)
            } else {
                Ok(bare)
            };
            match with_names {
                Ok(samples) => {
                    assert forall|i: int| 0 <= i < samples.len() implies header_form(
                        #[trigger] samples[i],
                    ) by {
                        assert(header_form(bare[i]));
                    }
                    lemma_with_payloads_keeps(
                        s,
                        header.data_start() as int,
                        header.data_size,
                        samples,
                        0,
                    );
                    match with_payloads(
                        s,
                        header.data_start() as int,
                        header.data_size,
                        samples,
                        0,
                    ) {
                        Ok(out) => {
                            assert forall|i: int| 0 <= i < out.len() implies decoded_form(
                                #[trigger] out[i],
                            ) by {
                                assert(header_form(samples[i]));
                                assert(out[i] == loaded(samples[i], out[i].data->Some_0));
                            }
                        },
                        Err(_) => {},
                    }
                },
                Err(_) => {},
            }
        },
        Err(_) => {},
    }
}

/// The raw size of a decoded bank is the sum of the four sizes of its
/// header: of the header itself, of the sample headers, of the name table
/// and of the data segment. And the bank has as many samples as its header
/// says.
pub proof fn lemma_decoded_sizes(s: Seq<u8>)
    ensures
        decoded(s) matches Ok(bank) ==> bank.raw_size == bank.header.size
            + bank.header.sample_headers_size + bank.header.name_table_size
            + bank.header.data_size && bank.samples.len() == bank.header.num_samples,
{
    if let Ok(header) = header_at(s) {
        lemma_samples_of(s, header);
    }
}

/// Every sample of a decoded bank has one or two channels, as the one bit of
/// its header says, and its sample rate is that of its frequency chunk or,
/// where it has none, one of the nine rates of the table. Its data offset is
/// a multiple of 16, its chunks are filed under their own types, and it has
/// its payload.
pub proof fn lemma_decoded_samples(s: Seq<u8>, i: int)
    ensures
        decoded(s) matches Ok(bank) ==> (0 <= i < bank.samples.len() ==> decoded_form(
            bank.samples[i],
        )),
{
    if let Ok(header) = header_at(s) {
        lemma_samples_of(s, header);
    }
}

/// A stream that begins with four bytes other than the magic tag fails with
/// `Error::MagicHeader` and those four bytes, whatever follows them: no byte
/// behind the fourth has a say.
pub proof fn lemma_bad_magic_decides(a: Seq<u8>, b: Seq<u8>)
    requires
        a.len() >= 4,
        b.len() >= 4,
        a.subrange(0, 4) == b.subrange(0, 4),
        a.subrange(0, 4) != magic(),
    ensures
        decoded(a) == Err::<ContainerView, Error>(Error::MagicHeader([a[0], a[1], a[2], a[3]])),
        decoded(b) == decoded(a),
{
    let front = a.subrange(0, 4);
    assert(front[0] == a[0] && front[1] == a[1] && front[2] == a[2] && front[3] == a[3]);
    let other = b.subrange(0, 4);
    assert(other[0] == b[0] && other[1] == b[1] && other[2] == b[2] && other[3] == b[3]);
}

/// A sample of an MPEG bank is exported as its payload, byte for byte.
pub proof fn lemma_mpeg_export(sample: SampleView)
    requires
        sample.data is Some,
    ensures
        exported(SoundFormat::MPEG, sample) == Ok::<Seq<u8>, Error>(sample.data->Some_0),
{
}

/// A format that cannot be exported fails with `Error::RebuildFormat` and
/// the format, whatever the sample holds.
pub proof fn lemma_export_refused(mode: SoundFormat, sample: SampleView)
    requires
        !mode.rebuildable(),
    ensures
        exported(mode, sample) == Err::<Seq<u8>, Error>(Error::RebuildFormat(mode)),
{
}

} // verus!

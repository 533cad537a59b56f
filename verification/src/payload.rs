//! The data segment: the payloads of all samples, one behind the other.

use crate::bytes::{can_read, read_bytes, run_at};
use crate::error::Error;
use crate::sample::{samples_view, Sample, SampleView};
use vstd::prelude::*;

verus! {

/// The length of the payload of sample `i`: up to the data offset of the
/// next sample, or, for the last sample, the size of the data segment.
/// Negative where the next sample's offset is the lower one.
pub open spec fn payload_len(samples: Seq<SampleView>, data_size: nat, i: int) -> int {
    if i + 1 < samples.len() {
        samples[i + 1].data_offset - samples[i].data_offset
    } else {
        data_size as int
    }
}

/// The sample `sample` with the payload `payload`.
pub open spec fn loaded(sample: SampleView, payload: Seq<u8>) -> SampleView {
    SampleView {
        name: sample.name,
        frequency: sample.frequency,
        channels: sample.channels,
        data_offset: sample.data_offset,
        samples: sample.samples,
        metadata: sample.metadata,
        data: Some(payload),
    }
}

/// The samples, those from index `i` on with the payloads that stand one
/// behind the other from `pos` on.
///
/// The payloads are taken from the stream in the order of the samples, each
/// directly behind the one before it. A sample whose successor has a lower
/// data offset fails with `Error::DataOffset` and its index, and a stream
/// that ends within a payload with `Error::IO`.
pub open spec fn with_payloads(
    s: Seq<u8>,
    pos: int,
    data_size: nat,
    samples: Seq<SampleView>,
    i: nat,
) -> Result<Seq<SampleView>, Error>
    decreases samples.len() - i,
{
    if i >= samples.len() {
        Ok(samples)
    } else {
        let n = payload_len(samples, data_size, i as int);
        if n < 0 {
            Err(Error::DataOffset(i as usize))
        } else if !can_read(s, pos, n) {
            Err(Error::IO)
        } else {
            with_payloads(
                s,
                pos + n,
                data_size,
                samples.update(i as int, loaded(samples[i as int], run_at(s, pos, n))),
                i + 1,
            )
        }
    }
}

/// Gives each sample its payload from the data segment that begins at
/// `start` and is declared to hold `data_size` bytes.
pub fn read_payloads(data: &[u8], start: usize, data_size: usize, samples: Vec<Sample>) -> (r:
    Result<Vec<Sample>, Error>)
    ensures
        match r {
            Ok(out) => with_payloads(
                data@,
                start as int,
                data_size as nat,
                samples_view(samples@),
                0,
            ) == Ok::<Seq<SampleView>, Error>(samples_view(out@)),
            Err(e) => with_payloads(
                data@,
                start as int,
                data_size as nat,
                samples_view(samples@),
                0,
            ) == Err::<Seq<SampleView>, Error>(e),
        },
{
    let count = samples.len();
    let mut out = samples;
    let mut at: usize = start;
    let mut i: usize = 0;
    while i < count
        invariant
            0 <= i <= count,
            count == out@.len(),
            with_payloads(data@, start as int, data_size as nat, samples_view(samples@), 0)
                == with_payloads(data@, at as int, data_size as nat, samples_view(out@), i as nat),
        decreases count - i,
    {
        let first = out[i].data_offset;
        let n: usize = if i + 1 < count {
            let next = out[i + 1].data_offset;
            if next < first {
                return Err(Error::DataOffset(i));
            }
            next - first
        } else {
            data_size
        };
        assert(n == payload_len(samples_view(out@), data_size as nat, i as int));
        match read_bytes(data, at, n) {
            Ok((payload, end)) => {
                let ghost earlier = samples_view(out@);
                out[i].data = Some(payload);
                assert(samples_view(out@) =~= earlier.update(
                    i as int,
                    loaded(earlier[i as int], payload@),
                ));
                at = end;
            },
            Err(e) => {
                return Err(e);
            },
        }
        i = i + 1;
    }
    Ok(out)
}

/// Reading the payloads changes nothing of a sample but its payload, and
/// leaves no sample from index `i` on without one.
pub proof fn lemma_with_payloads_keeps(
    s: Seq<u8>,
    pos: int,
    data_size: nat,
    samples: Seq<SampleView>,
    i: nat,
)
    ensures
        with_payloads(s, pos, data_size, samples, i) matches Ok(out) ==> out.len() == samples.len()
            && forall|j: int|
            0 <= j < out.len() ==> #[trigger] out[j] == if j < i {
                samples[j]
            } else {
                loaded(samples[j], out[j].data->Some_0)
            },
    decreases samples.len() - i,
{
    if i < samples.len() {
        let n = payload_len(samples, data_size, i as int);
        if n >= 0 && can_read(s, pos, n) {
            let next = samples.update(i as int, loaded(samples[i as int], run_at(s, pos, n)));
            lemma_with_payloads_keeps(s, pos + n, data_size, next, i + 1);
        }
    }
}

} // verus!

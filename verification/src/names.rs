//! The name table: one 32-bit offset for each sample, then the names
//! themselves, each ended by a zero byte.

use crate::bytes::{read_text, read_u32, text_at, u32_le};
use crate::error::Error;
use crate::sample::{samples_view, Sample, SampleView};
use crate::text::{decode_name, text_of};
use vstd::prelude::*;

verus! {

/// The bytes of the name of sample `i`, for a name table that begins at
/// `table`: those that stand at the offset which the table's entry `i` gives,
/// counted from `table`, up to the first zero byte.
pub open spec fn name_bytes(s: Seq<u8>, table: int, i: int) -> Seq<u8> {
    text_at(s, table + u32_le(s, table + 4 * i))
}

/// The first index from `from` on, and below `count`, of a sample whose name
/// is not valid UTF-8.
pub open spec fn first_bad_name(s: Seq<u8>, table: int, from: nat, count: nat) -> Option<nat>
    decreases count - from,
{
    if from >= count {
        None
    } else if text_of(name_bytes(s, table, from as int)) is None {
        Some(from)
    } else {
        first_bad_name(s, table, from + 1, count)
    }
}

/// The sample `sample` under the name `name`.
pub open spec fn renamed(sample: SampleView, name: Seq<char>) -> SampleView {
    SampleView {
        name,
        frequency: sample.frequency,
        channels: sample.channels,
        data_offset: sample.data_offset,
        samples: sample.samples,
        metadata: sample.metadata,
        data: sample.data,
    }
}

/// The samples under the names that the name table at `table` gives them.
///
/// A stream that ends within the table's offsets fails with `Error::IO`;
/// after that, the first name that is not valid UTF-8 fails with
/// `Error::NameTable` and its sample's index.
pub open spec fn named(s: Seq<u8>, table: int, samples: Seq<SampleView>) -> Result<
    Seq<SampleView>,
    Error,
> {
    if table + 4 * samples.len() > s.len() {
        Err(Error::IO)
    } else {
        match first_bad_name(s, table, 0, samples.len()) {
            Some(i) => Err(Error::NameTable(i as usize)),
            None => Ok(
                Seq::new(
                    samples.len(),
                    |i: int| renamed(samples[i], text_of(name_bytes(s, table, i))->Some_0),
                ),
            ),
        }
    }
}

/// Gives each sample the name that the name table at `table` holds for it.
pub fn read_names(data: &[u8], table: usize, samples: Vec<Sample>) -> (r: Result<
    Vec<Sample>,
    Error,
>)
    ensures
        match r {
            Ok(out) => named(data@, table as int, samples_view(samples@)) == Ok::<
                Seq<SampleView>,
                Error,
            >(samples_view(out@)),
            Err(e) => named(data@, table as int, samples_view(samples@)) == Err::<
                Seq<SampleView>,
                Error,
            >(e),
        },
{
    let count = samples.len();
    if table > data.len() || (data.len() - table) / 4 < count {
        return Err(Error::IO);
    }
    let ghost before = samples_view(samples@);
    let mut out = samples;
    let mut i: usize = 0;
    while i < count
        invariant
            0 <= i <= count,
            count == out@.len(),
            before == samples_view(samples@),
            before.len() == count,
            table + 4 * count <= data@.len() <= usize::MAX,
            first_bad_name(data@, table as int, 0, count as nat) == first_bad_name(
                data@,
                table as int,
                i as nat,
                count as nat,
            ),
            forall|j: int|
                0 <= j < i ==> #[trigger] samples_view(out@)[j] == renamed(
                    before[j],
                    text_of(name_bytes(data@, table as int, j))->Some_0,
                ),
            forall|j: int| i <= j < count ==> #[trigger] samples_view(out@)[j] == before[j],
        decreases count - i,
    {
        let (offset, _) = match read_u32(data, table + 4 * i) {
            Ok(v) => v,
            Err(e) => {
                return Err(e);
            },
        };
        let at: usize = if offset as usize <= data.len() - table {
            table + offset as usize
        } else {
            data.len()
        };
        let bytes = read_text(data, at);
        assert(bytes@ == name_bytes(data@, table as int, i as int));
        match decode_name(bytes, i) {
            Ok(name) => {
                let ghost earlier = samples_view(out@);
                out[i].name = name;
                assert forall|j: int| 0 <= j < count implies #[trigger] samples_view(out@)[j]
                    == if j == i {
                    renamed(before[j], text_of(name_bytes(data@, table as int, j))->Some_0)
                } else {
                    earlier[j]
                } by {}
            },
            Err(e) => {
                return Err(e);
            },
        }
        i = i + 1;
    }
    assert(samples_view(out@) =~= Seq::new(
        before.len(),
        |j: int| renamed(before[j], text_of(name_bytes(data@, table as int, j))->Some_0),
    ));
    Ok(out)
}

} // verus!

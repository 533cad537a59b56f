//! The fixed-layout header at the start of a sound bank.

use crate::bytes::{read_u32, u32_le};
use crate::error::Error;
use crate::format::{format_of_code, SoundFormat};
use std::convert::TryFrom;
use vstd::prelude::*;

verus! {

/// The header of a sound bank.
#[derive(Debug, Copy, Clone)]
pub struct FSB5Header {
    /// The magic tag, always `FSB5`.
    pub id: [u8; 4],
    /// The version of the format.
    pub version: u32,
    /// The number of samples in the bank.
    pub num_samples: usize,
    /// The size in bytes of the block of sample headers.
    pub sample_headers_size: usize,
    /// The size in bytes of the name table; zero where there is none.
    pub name_table_size: usize,
    /// The size in bytes of the data segment.
    pub data_size: usize,
    /// The audio format of all samples.
    pub mode: SoundFormat,
    /// Eight reserved bytes.
    pub zero: [u8; 8],
    /// The content hash.
    pub hash: [u8; 16],
    /// Eight more reserved bytes.
    pub dummy: [u8; 8],
    /// A field that only version 0 stores; zero in every other version.
    pub unknown: u32,
    /// The size in bytes of the header itself, where the sample headers begin.
    pub size: usize,
}

/// What a header holds, with sequences for its byte arrays and unbounded
/// numbers for its sizes.
pub struct HeaderView {
    pub id: Seq<u8>,
    pub version: u32,
    pub num_samples: nat,
    pub sample_headers_size: nat,
    pub name_table_size: nat,
    pub data_size: nat,
    pub mode: SoundFormat,
    pub zero: Seq<u8>,
    pub hash: Seq<u8>,
    pub dummy: Seq<u8>,
    pub unknown: u32,
    pub size: nat,
}

impl View for FSB5Header {
    type V = HeaderView;

    open spec fn view(&self) -> HeaderView {
        HeaderView {
            id: self.id@,
            version: self.version,
            num_samples: self.num_samples as nat,
            sample_headers_size: self.sample_headers_size as nat,
            name_table_size: self.name_table_size as nat,
            data_size: self.data_size as nat,
            mode: self.mode,
            zero: self.zero@,
            hash: self.hash@,
            dummy: self.dummy@,
            unknown: self.unknown,
            size: self.size as nat,
        }
    }
}

impl HeaderView {
    /// The length of all that the bank holds: the header, the sample
    /// headers, the name table and the data segment.
    pub open spec fn raw_size(self) -> nat {
        self.size + self.sample_headers_size + self.name_table_size + self.data_size
    }

    /// Where the data segment begins.
    pub open spec fn data_start(self) -> nat {
        self.size + self.sample_headers_size + self.name_table_size
    }
}

/// The four bytes every sound bank begins with: `FSB5`.
pub open spec fn magic() -> Seq<u8> {
    seq![0x46u8, 0x53u8, 0x42u8, 0x35u8]
}

/// The size of the header of a bank of the given version: version 0 stores
/// one field more than the others.
pub open spec fn header_size(version: u32) -> nat {
    if version == 0 {
        64
    } else {
        60
    }
}

/// The header that the stream `s` begins with.
///
/// A stream of fewer than four bytes fails with `Error::IO`, one that begins
/// with other bytes than the magic tag with `Error::MagicHeader` and those
/// bytes, one that ends within the header with `Error::IO`, and one whose
/// format code names no format with `Error::SoundFormat`, in this order.
pub open spec fn header_at(s: Seq<u8>) -> Result<HeaderView, Error> {
    if s.len() < 4 {
        Err(Error::IO)
    } else if s.subrange(0, 4) != magic() {
        Err(Error::MagicHeader([s[0], s[1], s[2], s[3]]))
    } else if s.len() < 60 || s.len() < header_size(u32_le(s, 4)) {
        Err(Error::IO)
    } else {
        match format_of_code(u32_le(s, 24)) {
            Err(e) => Err(e),
            Ok(mode) => Ok(
                HeaderView {
                    id: s.subrange(0, 4),
                    version: u32_le(s, 4),
                    num_samples: u32_le(s, 8) as nat,
                    sample_headers_size: u32_le(s, 12) as nat,
                    name_table_size: u32_le(s, 16) as nat,
                    data_size: u32_le(s, 20) as nat,
                    mode,
                    zero: s.subrange(28, 36),
                    hash: s.subrange(36, 52),
                    dummy: s.subrange(52, 60),
                    unknown: if u32_le(s, 4) == 0 {
                        u32_le(s, 60)
                    } else {
                        0
                    },
                    size: header_size(u32_le(s, 4)),
                },
            ),
        }
    }
}

/// Whether a read came out as `expected`: with the same error, or with a
/// header whose view is the expected one.
pub open spec fn header_outcome(r: Result<FSB5Header, Error>, expected: Result<HeaderView, Error>) -> bool {
    match r {
        Ok(header) => expected == Ok::<HeaderView, Error>(header@),
        Err(e) => expected == Err::<HeaderView, Error>(e),
    }
}

impl FSB5Header {
    /// Decodes the header that `data` begins with.
    pub fn read(data: &[u8]) -> (r: Result<FSB5Header, Error>)
        ensures
            header_outcome(r, header_at(data@)),
    {
        if data.len() < 4 {
            return Err(Error::IO);
        }
        let id: [u8; 4] = [data[0], data[1], data[2], data[3]];
        assert(id@ =~= data@.subrange(0, 4));
        if id[0] != 0x46 || id[1] != 0x53 || id[2] != 0x42 || id[3] != 0x35 {
            return Err(Error::MagicHeader(id));
        }
        assert(id@ =~= magic());
        if data.len() < 60 {
            return Err(Error::IO);
        }
        let (version, _) = match read_u32(data, 4) { Ok(v) => v, Err(e) => { return Err(e); } };
        let (num_samples, _) = match read_u32(data, 8) { Ok(v) => v, Err(e) => { return Err(e); } };
        let (sample_headers_size, _) = match read_u32(data, 12) { Ok(v) => v, Err(e) => { return Err(e); } };
        let (name_table_size, _) = match read_u32(data, 16) { Ok(v) => v, Err(e) => { return Err(e); } };
        let (data_size, _) = match read_u32(data, 20) { Ok(v) => v, Err(e) => { return Err(e); } };
        let (code, _) = match read_u32(data, 24) { Ok(v) => v, Err(e) => { return Err(e); } };
        let zero: [u8; 8] = [
            data[28], data[29], data[30], data[31], data[32], data[33], data[34], data[35],
        ];
        let hash: [u8; 16] = [
            data[36], data[37], data[38], data[39], data[40], data[41], data[42], data[43],
            data[44], data[45], data[46], data[47], data[48], data[49], data[50], data[51],
        ];
        let dummy: [u8; 8] = [
            data[52], data[53], data[54], data[55], data[56], data[57], data[58], data[59],
        ];
        assert(zero@ =~= data@.subrange(28, 36));
        assert(hash@ =~= data@.subrange(36, 52));
        assert(dummy@ =~= data@.subrange(52, 60));
        let (unknown, size): (u32, usize) = if version == 0 {
            match read_u32(data, 60) {
                Ok((word, end)) => (word, end),
                Err(e) => { return Err(e); },
            }
        } else {
            (0, 60)
        };
        let mode = match SoundFormat::try_from(code) {
            Ok(mode) => mode,
            Err(e) => { return Err(e); },
        };
        Ok(
            FSB5Header {
                id,
                version,
                num_samples: num_samples as usize,
                sample_headers_size: sample_headers_size as usize,
                name_table_size: name_table_size as usize,
                data_size: data_size as usize,
                mode,
                zero,
                hash,
                dummy,
                unknown,
                size,
            },
        )
    }
}

} // verus!

//! Reads from a byte stream at a position: single bytes, little-endian
//! words, runs of a given length, and zero-terminated runs.
//!
//! A stream is a sequence of bytes; a position is an index into it, which may
//! lie behind its end. A read that needs more bytes than the stream holds
//! behind the position fails with `Error::IO`. A read of no bytes succeeds at
//! any position.

use crate::error::Error;
use vstd::prelude::*;
use vstd::slice::{slice_subrange, slice_to_vec};

verus! {

/// The 32-bit word whose four bytes stand at `at`, least significant first.
pub open spec fn u32_le(s: Seq<u8>, at: int) -> u32 {
    (s[at] as int + s[at + 1] as int * 0x100 + s[at + 2] as int * 0x1_0000 + s[at + 3] as int
        * 0x100_0000) as u32
}

/// The 64-bit word whose eight bytes stand at `at`, least significant first.
pub open spec fn u64_le(s: Seq<u8>, at: int) -> u64 {
    (u32_le(s, at) as int + u32_le(s, at + 4) as int * 0x1_0000_0000) as u64
}

/// Whether `n` bytes can be read at `pos`.
pub open spec fn can_read(s: Seq<u8>, pos: int, n: int) -> bool {
    n == 0 || (0 <= pos && 0 <= n && pos + n <= s.len())
}

/// The `n` bytes at `pos`, where they can be read.
pub open spec fn run_at(s: Seq<u8>, pos: int, n: int) -> Seq<u8> {
    if n == 0 {
        Seq::empty()
    } else {
        s.subrange(pos, pos + n)
    }
}

/// The position of the first zero byte at or behind `pos`, or the end of the
/// stream where there is none.
pub open spec fn text_end(s: Seq<u8>, pos: int) -> int
    decreases s.len() - pos,
{
    if pos < 0 || pos >= s.len() {
        pos
    } else if s[pos] == 0 {
        pos
    } else {
        text_end(s, pos + 1)
    }
}

/// The bytes from `pos` up to the first zero byte, which is left out, or up
/// to the end of the stream where there is none; nothing behind the end.
pub open spec fn text_at(s: Seq<u8>, pos: int) -> Seq<u8> {
    if pos < 0 || pos >= s.len() {
        Seq::empty()
    } else {
        s.subrange(pos, text_end(s, pos))
    }
}

/// `text_end` stops at the first zero byte and not before: it lies between
/// `pos` and the end of the stream, no byte before it is zero, and it is the
/// end of the stream or a zero byte.
pub proof fn lemma_text_end(s: Seq<u8>, pos: int)
    requires
        0 <= pos <= s.len(),
    ensures
        pos <= text_end(s, pos) <= s.len(),
        forall|i: int| pos <= i < text_end(s, pos) ==> s[i] != 0,
        text_end(s, pos) == s.len() || s[text_end(s, pos)] == 0,
    decreases s.len() - pos,
{
    if pos < s.len() && s[pos] != 0 {
        lemma_text_end(s, pos + 1);
    }
}

/// Decodes four bytes, least significant first, with
/// `byteorder::LittleEndian::read_u32`, which computes
/// `u32::from_le_bytes` of the first four bytes of its argument and panics
/// on a shorter one.
#[verifier::external_body]
fn le_u32(buf: &[u8]) -> (r: u32)
    requires
        buf@.len() >= 4,
    ensures
        r == u32_le(buf@, 0),
{
    <byteorder::LittleEndian as byteorder::ByteOrder>::read_u32(buf)
}

/// Decodes eight bytes, least significant first, with
/// `byteorder::LittleEndian::read_u64`, which computes
/// `u64::from_le_bytes` of the first eight bytes of its argument and panics
/// on a shorter one.
#[verifier::external_body]
fn le_u64(buf: &[u8]) -> (r: u64)
    requires
        buf@.len() >= 8,
    ensures
        r == u64_le(buf@, 0),
{
    <byteorder::LittleEndian as byteorder::ByteOrder>::read_u64(buf)
}

/// Reads one byte at `pos`; hands back the byte and the position behind it.
pub fn read_u8(data: &[u8], pos: usize) -> (r: Result<(u8, usize), Error>)
    ensures
        match r {
            Ok((byte, end)) => pos < data@.len() && byte == data@[pos as int] && end == pos + 1,
            Err(e) => pos >= data@.len() && e == Error::IO,
        },
{
    if pos < data.len() {
        Ok((data[pos], pos + 1))
    } else {
        Err(Error::IO)
    }
}

/// Reads a little-endian 32-bit word at `pos`; hands back the word and the
/// position behind it.
pub fn read_u32(data: &[u8], pos: usize) -> (r: Result<(u32, usize), Error>)
    ensures
        match r {
            Ok((word, end)) => pos + 4 <= data@.len() && word == u32_le(data@, pos as int) && end
                == pos + 4,
            Err(e) => pos + 4 > data@.len() && e == Error::IO,
        },
{
    if pos <= data.len() && data.len() - pos >= 4 {
        let word = le_u32(slice_subrange(data, pos, pos + 4));
        Ok((word, pos + 4))
    } else {
        Err(Error::IO)
    }
}

/// Reads a little-endian 64-bit word at `pos`; hands back the word and the
/// position behind it.
pub fn read_u64(data: &[u8], pos: usize) -> (r: Result<(u64, usize), Error>)
    ensures
        match r {
            Ok((word, end)) => pos + 8 <= data@.len() && word == u64_le(data@, pos as int) && end
                == pos + 8,
            Err(e) => pos + 8 > data@.len() && e == Error::IO,
        },
{
    if pos <= data.len() && data.len() - pos >= 8 {
        let word = le_u64(slice_subrange(data, pos, pos + 8));
        Ok((word, pos + 8))
    } else {
        Err(Error::IO)
    }
}

/// Reads `n` bytes at `pos`; hands back a copy of them and the position
/// behind them.
pub fn read_bytes(data: &[u8], pos: usize, n: usize) -> (r: Result<(Vec<u8>, usize), Error>)
    ensures
        match r {
            Ok((run, end)) => can_read(data@, pos as int, n as int) && run@ == run_at(
                data@,
                pos as int,
                n as int,
            ) && end == pos + n,
            Err(e) => !can_read(data@, pos as int, n as int) && e == Error::IO,
        },
{
    if n == 0 {
        Ok((Vec::new(), pos))
    } else if pos <= data.len() && data.len() - pos >= n {
        Ok((slice_to_vec(slice_subrange(data, pos, pos + n)), pos + n))
    } else {
        Err(Error::IO)
    }
}

/// Reads the bytes at `pos` up to the first zero byte or the end of the
/// stream, and hands back a copy of them without the zero byte.
pub fn read_text(data: &[u8], pos: usize) -> (r: Vec<u8>)
    ensures
        r@ == text_at(data@, pos as int),
{
    if pos >= data.len() {
        return Vec::new();
    }
    let mut end: usize = pos;
    while end < data.len() && data[end] != 0
        invariant
            pos <= end <= data@.len(),
            text_end(data@, pos as int) == text_end(data@, end as int),
        decreases data@.len() - end,
    {
        end = end + 1;
    }
    slice_to_vec(slice_subrange(data, pos, end))
}

} // verus!

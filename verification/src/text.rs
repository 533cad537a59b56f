//! The text of sample names: the decimal default, and the decoding of a
//! name from the bytes of the name table.

use crate::error::Error;
use vstd::prelude::*;
use vstd::utf8::{
    decode_utf8, encode_utf8, encode_utf8_decode_utf8, encode_utf8_valid_utf8, is_ascii_chars,
    is_ascii_chars_encode_utf8, valid_utf8,
};

verus! {

/// The error of `String::from_utf8`, which this library only passes on.
#[verifier::external_type_specification]
#[verifier::external_body]
pub struct ExFromUtf8Error(std::string::FromUtf8Error);

/// The character of the decimal digit `d`.
pub open spec fn digit(d: nat) -> char {
    (48 + d) as char
}

/// The decimal numeral of `n`, without leading zeros.
pub open spec fn decimal(n: nat) -> Seq<char>
    decreases n,
{
    if n < 10 {
        seq![digit(n)]
    } else {
        decimal(n / 10).push(digit(n % 10))
    }
}

/// The bytes of a text of ASCII characters, one byte for each character.
pub open spec fn ascii_bytes(chars: Seq<char>) -> Seq<u8> {
    Seq::new(chars.len(), |i: int| chars[i] as u8)
}

/// The text that `bytes` encode, where they are valid UTF-8.
pub open spec fn text_of(bytes: Seq<u8>) -> Option<Seq<char>> {
    if valid_utf8(bytes) {
        Some(decode_utf8(bytes))
    } else {
        None
    }
}

/// A decimal numeral is made of ASCII digits, one byte each in UTF-8.
pub proof fn lemma_decimal_is_ascii(n: nat)
    ensures
        decimal(n).len() >= 1,
        forall|i: int| 0 <= i < decimal(n).len() ==> '0' <= #[trigger] decimal(n)[i] <= '9',
        is_ascii_chars(decimal(n)),
    decreases n,
{
    if n >= 10 {
        lemma_decimal_is_ascii(n / 10);
    }
}

/// Turns bytes into a string with `String::from_utf8`, which succeeds exactly
/// on valid UTF-8 and then yields the text that the bytes encode.
#[verifier::external_body]
fn utf8_to_string(bytes: Vec<u8>) -> (r: Result<String, std::string::FromUtf8Error>)
    ensures
        r is Ok <==> valid_utf8(bytes@),
        r matches Ok(text) ==> text@ == decode_utf8(bytes@),
{
    String::from_utf8(bytes)
}

/// Appends the ASCII digits of the decimal numeral of `n` to `out`.
fn push_decimal(n: usize, out: &mut Vec<u8>)
    ensures
        final(out)@ == old(out)@ + ascii_bytes(decimal(n as nat)),
    decreases n,
{
    if n >= 10 {
        push_decimal(n / 10, out);
    }
    let d: u8 = (n % 10) as u8;
    out.push(48 + d);
    proof {
        if n >= 10 {
            let high = decimal((n / 10) as nat);
            assert(ascii_bytes(high).push((48 + d) as u8) =~= ascii_bytes(
                high.push(digit((n % 10) as nat)),
            ));
            assert(out@ =~= old(out)@ + ascii_bytes(decimal(n as nat)));
        } else {
            assert(out@ =~= old(out)@ + ascii_bytes(decimal(n as nat)));
        }
    }
}

/// The name a sample has until the name table gives it one: the decimal
/// numeral of its index.
pub fn index_name(index: usize) -> (r: String)
    ensures
        r@ == decimal(index as nat),
{
    let mut bytes: Vec<u8> = Vec::new();
    push_decimal(index, &mut bytes);
    proof {
        let chars = decimal(index as nat);
        lemma_decimal_is_ascii(index as nat);
        is_ascii_chars_encode_utf8(chars);
        assert(bytes@ =~= ascii_bytes(chars));
        assert(ascii_bytes(chars) =~= encode_utf8(chars));
        encode_utf8_valid_utf8(chars);
        encode_utf8_decode_utf8(chars);
    }
    match utf8_to_string(bytes) {
        Ok(text) => text,
        Err(_) => String::new(),
    }
}

/// Decodes the name of the sample with the given index from its bytes: the
/// text they encode, or `Error::NameTable` with the index where they are not
/// valid UTF-8.
pub fn decode_name(bytes: Vec<u8>, index: usize) -> (r: Result<String, Error>)
    ensures
        match r {
            Ok(name) => text_of(bytes@) == Some(name@),
            Err(e) => text_of(bytes@) is None && e == Error::NameTable(index),
        },
{
    match utf8_to_string(bytes) {
        Ok(name) => Ok(name),
        Err(_) => Err(Error::NameTable(index)),
    }
}

} // verus!

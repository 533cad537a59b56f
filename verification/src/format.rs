//! The audio formats a sound bank can declare.

use crate::error::Error;
use std::convert::TryFrom;
use vstd::prelude::*;
use vstd::std_specs::convert::TryFromSpecImpl;

verus! {

/// The codec shared by all samples of one sound bank.
#[derive(Debug, Copy, Clone, PartialEq, Eq, Structural)]
pub enum SoundFormat {
    /// Code 0: the bank declares no format.
    NoFormat,
    PCM8,
    PCM16,
    PCM24,
    PCM32,
    PCMFloat,
    GCADPCM,
    IMAADPCM,
    VAG,
    HEVAG,
    XMA,
    MPEG,
    CELT,
    AT9,
    XWMA,
    Vorbis,
}

impl SoundFormat {
    /// The number by which a header names this format.
    pub open spec fn code(self) -> u32 {
        match self {
            SoundFormat::NoFormat => 0,
            SoundFormat::PCM8 => 1,
            SoundFormat::PCM16 => 2,
            SoundFormat::PCM24 => 3,
            SoundFormat::PCM32 => 4,
            SoundFormat::PCMFloat => 5,
            SoundFormat::GCADPCM => 6,
            SoundFormat::IMAADPCM => 7,
            SoundFormat::VAG => 8,
            SoundFormat::HEVAG => 9,
            SoundFormat::XMA => 10,
            SoundFormat::MPEG => 11,
            SoundFormat::CELT => 12,
            SoundFormat::AT9 => 13,
            SoundFormat::XWMA => 14,
            SoundFormat::Vorbis => 15,
        }
    }

    /// The width in bytes of one sample of an integer PCM format that can be
    /// exported as a wave file; `None` for every other format.
    pub open spec fn pcm_width(self) -> Option<u16> {
        match self {
            SoundFormat::PCM8 => Some(1u16),
            SoundFormat::PCM16 => Some(2u16),
            SoundFormat::PCM32 => Some(4u16),
            _ => None,
        }
    }

    /// Whether samples of this format can be exported at all.
    pub open spec fn rebuildable(self) -> bool {
        self == SoundFormat::MPEG || self.pcm_width() is Some
    }

    /// The characters of the file extension that suits an exported sample.
    pub open spec fn extension(self) -> Seq<char> {
        match self {
            SoundFormat::MPEG => "mp3"@,
            SoundFormat::Vorbis => "ogg"@,
            SoundFormat::PCM8 | SoundFormat::PCM16 | SoundFormat::PCM32 => "wav"@,
            _ => "bin"@,
        }
    }

    /// The file extension that suits an exported sample of this format.
    pub fn file_extension(self) -> (r: &'static str)
        ensures
            r@ == self.extension(),
    {
        match self {
            SoundFormat::MPEG => "mp3",
            SoundFormat::Vorbis => "ogg",
            SoundFormat::PCM8 | SoundFormat::PCM16 | SoundFormat::PCM32 => "wav",
            _ => "bin",
        }
    }

    /// Whether samples of this format can be exported: MPEG as it is, and
    /// integer PCM of 8, 16 or 32 bits as a wave file.
    pub fn can_rebuild(self) -> (r: bool)
        ensures
            r == self.rebuildable(),
    {
        match self {
            SoundFormat::MPEG | SoundFormat::PCM8 | SoundFormat::PCM16 | SoundFormat::PCM32 => true,
            _ => false,
        }
    }
}

/// The format that a header's code names, or the error that holds the code
/// where it names none.
pub open spec fn format_of_code(value: u32) -> Result<SoundFormat, Error> {
    match value {
        0 => Ok(SoundFormat::NoFormat),
        1 => Ok(SoundFormat::PCM8),
        2 => Ok(SoundFormat::PCM16),
        3 => Ok(SoundFormat::PCM24),
        4 => Ok(SoundFormat::PCM32),
        5 => Ok(SoundFormat::PCMFloat),
        6 => Ok(SoundFormat::GCADPCM),
        7 => Ok(SoundFormat::IMAADPCM),
        8 => Ok(SoundFormat::VAG),
        9 => Ok(SoundFormat::HEVAG),
        10 => Ok(SoundFormat::XMA),
        11 => Ok(SoundFormat::MPEG),
        12 => Ok(SoundFormat::CELT),
        13 => Ok(SoundFormat::AT9),
        14 => Ok(SoundFormat::XWMA),
        15 => Ok(SoundFormat::Vorbis),
        _ => Err(Error::SoundFormat(value)),
    }
}

/// Decoding a code and numbering a format undo each other: a code below 16
/// names the one format that has it as its number, any other code names none,
/// and every format is named by its own number.
pub proof fn lemma_format_codes(value: u32, format: SoundFormat)
    ensures
        value < 16 ==> format_of_code(value) is Ok && format_of_code(value)->Ok_0.code() == value,
        value >= 16 ==> format_of_code(value) == Err::<SoundFormat, Error>(
            Error::SoundFormat(value),
        ),
        format.code() < 16,
        format_of_code(format.code()) == Ok::<SoundFormat, Error>(format),
{
}

impl TryFromSpecImpl<u32> for SoundFormat {
    open spec fn obeys_try_from_spec() -> bool {
        true
    }

    open spec fn try_from_spec(value: u32) -> Result<Self, Self::Error> {
        format_of_code(value)
    }
}

impl TryFrom<u32> for SoundFormat {
    type Error = Error;

    /// Decodes the audio format code of a header.
    fn try_from(value: u32) -> (r: Result<Self, Self::Error>)
        ensures
            r == format_of_code(value),
    {
        match value {
            0 => Ok(SoundFormat::NoFormat),
            1 => Ok(SoundFormat::PCM8),
            2 => Ok(SoundFormat::PCM16),
            3 => Ok(SoundFormat::PCM24),
            4 => Ok(SoundFormat::PCM32),
            5 => Ok(SoundFormat::PCMFloat),
            6 => Ok(SoundFormat::GCADPCM),
            7 => Ok(SoundFormat::IMAADPCM),
            8 => Ok(SoundFormat::VAG),
            9 => Ok(SoundFormat::HEVAG),
            10 => Ok(SoundFormat::XMA),
            11 => Ok(SoundFormat::MPEG),
            12 => Ok(SoundFormat::CELT),
            13 => Ok(SoundFormat::AT9),
            14 => Ok(SoundFormat::XWMA),
            15 => Ok(SoundFormat::Vorbis),
            _ => Err(Error::SoundFormat(value)),
        }
    }
}

} // verus!

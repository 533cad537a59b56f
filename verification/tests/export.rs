use fsb5::pcm::{decode_samples, finish_wave, rebuild};
use fsb5::{Error, FSB5Header, MetadataChunk, Sample, SoundFormat, FSB5};
use std::collections::HashMap;

fn bank_of(mode: SoundFormat) -> FSB5 {
    FSB5 {
        header: FSB5Header {
            id: *b"FSB5",
            version: 1,
            num_samples: 1,
            sample_headers_size: 8,
            name_table_size: 0,
            data_size: 0,
            mode,
            zero: [0; 8],
            hash: [0; 16],
            dummy: [0; 8],
            unknown: 0,
            size: 60,
        },
        raw_size: 68,
        samples: Vec::new(),
    }
}

fn sample_of(channels: u64, frequency: u32, frames: usize, data: Option<Vec<u8>>) -> Sample {
    Sample {
        name: String::from("0"),
        frequency,
        channels,
        data_offset: 0,
        samples: frames,
        metadata: HashMap::new(),
        data,
    }
}

fn payload(len: usize) -> Vec<u8> {
    (0..len).map(|i| (7 * i + 3) as u8).collect()
}

fn word16(bytes: &[u8], at: usize) -> u16 {
    u16::from_le_bytes([bytes[at], bytes[at + 1]])
}

fn word32(bytes: &[u8], at: usize) -> u32 {
    u32::from_le_bytes([bytes[at], bytes[at + 1], bytes[at + 2], bytes[at + 3]])
}

#[test]
fn mpeg_rebuild_returns_the_payload_unchanged() {
    let bank = bank_of(SoundFormat::MPEG);
    let data = payload(1000);
    let sample = sample_of(2, 44100, 3, Some(data.clone()));
    assert_eq!(bank.rebuild(sample), Ok(data));
    let empty = sample_of(0, 0, 0, Some(Vec::new()));
    assert_eq!(bank.rebuild(empty), Ok(Vec::new()));
}

#[test]
fn rebuild_without_a_payload_is_mismatched() {
    for mode in [SoundFormat::MPEG, SoundFormat::PCM8, SoundFormat::PCM16, SoundFormat::PCM32] {
        let sample = sample_of(1, 44100, 0, None);
        assert_eq!(bank_of(mode).rebuild(sample), Err(Error::Mismatched));
    }
    assert_eq!(rebuild(sample_of(1, 44100, 0, None), 9), Err(Error::Mismatched));
}

#[test]
fn rebuild_of_other_formats_is_refused() {
    let refused = [
        SoundFormat::NoFormat,
        SoundFormat::PCM24,
        SoundFormat::PCMFloat,
        SoundFormat::GCADPCM,
        SoundFormat::IMAADPCM,
        SoundFormat::VAG,
        SoundFormat::HEVAG,
        SoundFormat::XMA,
        SoundFormat::CELT,
        SoundFormat::AT9,
        SoundFormat::XWMA,
        SoundFormat::Vorbis,
    ];
    for mode in refused {
        let with = sample_of(1, 44100, 1, Some(payload(8)));
        assert_eq!(bank_of(mode).rebuild(with), Err(Error::RebuildFormat(mode)));
        let without = sample_of(1, 44100, 1, None);
        assert_eq!(bank_of(mode).rebuild(without), Err(Error::RebuildFormat(mode)));
    }
}

#[test]
fn pcm16_rebuild_states_its_parameters_and_keeps_the_front_of_the_payload() {
    // Ten frames of two bytes: twenty bytes of the forty are exported.
    let data = payload(40);
    let sample = sample_of(2, 44100, 10, Some(data.clone()));
    let wave = bank_of(SoundFormat::PCM16).rebuild(sample).unwrap();
    assert_eq!(wave.len(), 44 + 20);
    assert_eq!(&wave[0..4], b"RIFF");
    assert_eq!(word32(&wave, 4), 36 + 20);
    assert_eq!(&wave[8..16], b"WAVEfmt ");
    assert_eq!(word32(&wave, 16), 16);
    assert_eq!(word16(&wave, 20), 1);
    assert_eq!(word16(&wave, 22), 2);
    assert_eq!(word32(&wave, 24), 44100);
    assert_eq!(word32(&wave, 28), 44100 * 2 * 2);
    assert_eq!(word16(&wave, 32), 4);
    assert_eq!(word16(&wave, 34), 16);
    assert_eq!(&wave[36..40], b"data");
    assert_eq!(word32(&wave, 40), 20);
    assert_eq!(&wave[44..], &data[..20]);
}

#[test]
fn pcm16_rebuild_of_a_whole_payload() {
    let data: Vec<u8> = vec![0x00, 0x80, 0xff, 0x7f, 0xff, 0xff, 0x00, 0x00, 0x34, 0x12, 0xcc, 0xed];
    let sample = sample_of(1, 8000, 6, Some(data.clone()));
    let wave = rebuild(sample, 2).unwrap();
    assert_eq!(word16(&wave, 22), 1);
    assert_eq!(word32(&wave, 24), 8000);
    assert_eq!(word16(&wave, 34), 16);
    assert_eq!(word32(&wave, 40), 12);
    assert_eq!(&wave[44..], &data[..]);
}

#[test]
fn pcm8_rebuild_keeps_the_bytes() {
    let data: Vec<u8> = vec![0, 1, 127, 128, 129, 255, 77, 78];
    let sample = sample_of(2, 22050, 6, Some(data.clone()));
    let wave = bank_of(SoundFormat::PCM8).rebuild(sample).unwrap();
    assert_eq!(wave.len(), 44 + 6);
    assert_eq!(word16(&wave, 20), 1);
    assert_eq!(word16(&wave, 22), 2);
    assert_eq!(word32(&wave, 24), 22050);
    assert_eq!(word32(&wave, 28), 22050 * 2);
    assert_eq!(word16(&wave, 32), 2);
    assert_eq!(word16(&wave, 34), 8);
    assert_eq!(word32(&wave, 40), 6);
    assert_eq!(&wave[44..], &data[..6]);
}

#[test]
fn pcm32_rebuild_keeps_the_bytes() {
    let data: Vec<u8> = vec![
        0x00, 0x00, 0x00, 0x80, 0xff, 0xff, 0xff, 0x7f, 0xff, 0xff, 0xff, 0xff, 0x78, 0x56, 0x34,
        0x12, 9, 9,
    ];
    let sample = sample_of(1, 48000, 4, Some(data.clone()));
    let wave = bank_of(SoundFormat::PCM32).rebuild(sample).unwrap();
    // More than sixteen bits take the extensible form of the header.
    assert_eq!(wave.len(), 68 + 16);
    assert_eq!(&wave[0..4], b"RIFF");
    assert_eq!(word32(&wave, 4), 60 + 16);
    assert_eq!(word32(&wave, 16), 40);
    assert_eq!(word16(&wave, 20), 0xfffe);
    assert_eq!(word16(&wave, 22), 1);
    assert_eq!(word32(&wave, 24), 48000);
    assert_eq!(word32(&wave, 28), 48000 * 4);
    assert_eq!(word16(&wave, 32), 4);
    assert_eq!(word16(&wave, 34), 32);
    assert_eq!(word16(&wave, 38), 32);
    assert_eq!(&wave[60..64], b"data");
    assert_eq!(word32(&wave, 64), 16);
    assert_eq!(&wave[68..], &data[..16]);
}

#[test]
fn pcm_rebuild_of_no_frames_is_a_bare_header() {
    let sample = sample_of(1, 44100, 0, Some(payload(5)));
    let wave = rebuild(sample, 2).unwrap();
    assert_eq!(wave.len(), 44);
    assert_eq!(word32(&wave, 4), 36);
    assert_eq!(word32(&wave, 40), 0);
}

#[test]
fn pcm_rebuild_of_a_short_payload_is_mismatched() {
    let sample = sample_of(1, 44100, 10, Some(payload(19)));
    assert_eq!(rebuild(sample, 2), Err(Error::Mismatched));
    let sample = sample_of(1, 44100, 10, Some(payload(20)));
    assert!(rebuild(sample, 2).is_ok());
    let sample = sample_of(1, 44100, usize::MAX, Some(payload(20)));
    assert_eq!(rebuild(sample, 4), Err(Error::Mismatched));
    let sample = sample_of(1, 44100, 1, Some(Vec::new()));
    assert_eq!(bank_of(SoundFormat::PCM8).rebuild(sample), Err(Error::Mismatched));
}

#[test]
fn pcm_rebuild_of_what_no_wave_file_holds_is_a_pcm_error() {
    let no_channels = sample_of(0, 44100, 2, Some(payload(4)));
    assert_eq!(rebuild(no_channels, 2), Err(Error::PCM));
    let many_channels = sample_of(65536, 44100, 2, Some(payload(4)));
    assert_eq!(rebuild(many_channels, 2), Err(Error::PCM));
    let no_rate = sample_of(1, 0, 2, Some(payload(4)));
    assert_eq!(rebuild(no_rate, 2), Err(Error::PCM));
    let fast = sample_of(2, 0x4000_0000, 2, Some(payload(4)));
    assert_eq!(rebuild(fast, 2), Err(Error::PCM));
    let just_slow_enough = sample_of(1, 0x3fff_ffff, 1, Some(payload(4)));
    assert!(rebuild(just_slow_enough, 4).is_ok());
}

#[test]
fn pcm_rebuild_of_an_unfinished_frame_is_a_pcm_error() {
    // Three samples do not fill two channels.
    let sample = sample_of(2, 44100, 3, Some(payload(6)));
    assert_eq!(rebuild(sample, 2), Err(Error::PCM));
    let sample = sample_of(3, 44100, 3, Some(payload(6)));
    assert!(rebuild(sample, 2).is_ok());
}

#[test]
fn pcm_rebuild_of_other_widths_is_a_pcm_error() {
    for width in [0u16, 3, 5, 8, 16, 0xffff] {
        let sample = sample_of(1, 44100, 0, Some(payload(6)));
        assert_eq!(rebuild(sample, width), Err(Error::PCM));
    }
    let sample = sample_of(1, 44100, 2, Some(payload(6)));
    assert_eq!(rebuild(sample, 3), Err(Error::PCM));
    let sample = sample_of(1, 44100, 2, Some(payload(5)));
    assert_eq!(rebuild(sample, 3), Err(Error::Mismatched));
}

#[test]
fn samples_are_decoded_by_their_width() {
    let data = [0x00, 0x80, 0xff, 0x7f, 0xff, 0xff, 0x01, 0x00, 0x2a];
    assert_eq!(
        decode_samples(&data, 1),
        Some(vec![-128, 0, 127, -1, 127, 127, -127, -128, -86])
    );
    assert_eq!(decode_samples(&data, 2), Some(vec![-32768, 32767, -1, 1]));
    assert_eq!(decode_samples(&data, 4), Some(vec![0x7fff_8000, 0x0001_ffff]));
    assert_eq!(
        decode_samples(&[0x00, 0x00, 0x00, 0x80, 0xfe, 0xff, 0xff, 0xff], 4),
        Some(vec![i32::MIN, -2])
    );
    assert_eq!(decode_samples(&[], 2), Some(vec![]));
    assert_eq!(decode_samples(&[1], 2), Some(vec![]));
}

#[test]
fn samples_of_other_widths_are_not_decoded() {
    let data = [1, 2, 3, 4, 5, 6];
    assert_eq!(decode_samples(&data, 0), None);
    assert_eq!(decode_samples(&data, 3), None);
    assert_eq!(decode_samples(&data, 8), None);
}

#[test]
fn failure_of_the_wave_writer_is_a_pcm_error() {
    assert_eq!(finish_wave(None), Err(Error::PCM));
    assert_eq!(finish_wave(Some(vec![1, 2, 3])), Ok(vec![1, 2, 3]));
}

#[test]
fn decoded_sample_is_rebuilt_from_its_bank() {
    let mut data = Vec::new();
    data.extend_from_slice(b"FSB5");
    for word in [1u32, 1, 8, 0, 8, 1] {
        data.extend_from_slice(&word.to_le_bytes());
    }
    data.extend_from_slice(&[0; 32]);
    let header: u64 = 0 | 4 << 1 | 0 << 5 | 0 << 6 | 8 << 34;
    data.extend_from_slice(&header.to_le_bytes());
    data.extend_from_slice(&[10, 20, 30, 40, 50, 60, 70, 80]);
    let mut bank = FSB5::read(&data).unwrap();
    assert_eq!(bank.header.mode, SoundFormat::PCM8);
    let sample = bank.samples.remove(0);
    assert_eq!(sample.metadata.get(&2), None::<&MetadataChunk>);
    let wave = bank.rebuild(sample).unwrap();
    assert_eq!(word16(&wave, 22), 1);
    assert_eq!(word32(&wave, 24), 16000);
    assert_eq!(word16(&wave, 34), 8);
    assert_eq!(&wave[44..], &[10, 20, 30, 40, 50, 60, 70, 80]);
}

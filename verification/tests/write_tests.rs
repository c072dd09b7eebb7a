use wavio::error::WavError;
use wavio::meta::WavFileMeta;
use wavio::read::{read_wav_file, read_wav_file_metadata, read_wav_file_np};
use wavio::write::{can_write, write_wav_file};

fn meta(bits: u16, channels: u16, rate: u32, int: bool) -> WavFileMeta {
    WavFileMeta::new(bits, channels, rate, int, 0).unwrap()
}

/// What `hound` writes for the same format and samples, asked directly.
fn hound_image(bits: u16, channels: u16, rate: u32, data: &[i16]) -> Vec<u8> {
    let spec = hound::WavSpec {
        channels,
        sample_rate: rate,
        bits_per_sample: bits,
        sample_format: hound::SampleFormat::Int,
    };
    let mut cursor = std::io::Cursor::new(Vec::new());
    let mut writer = hound::WavWriter::new(&mut cursor, spec).unwrap();
    for &s in data {
        writer.write_sample(s).unwrap();
    }
    writer.finalize().unwrap();
    cursor.into_inner()
}

#[test]
fn write_then_read_round_trip() {
    let m = meta(16, 1, 8000, true);
    let buffer: Vec<i16> = vec![0, 1, -1, 32767, -32768];
    let image = write_wav_file(&m, &buffer).unwrap();
    assert_eq!(read_wav_file_np(&image, 0), Ok(buffer.clone()));
    let back = read_wav_file_metadata(&image).unwrap();
    assert_eq!(back.duration(), 5);
    assert_eq!(back.length(), 5);
    assert_eq!(back.bits_per_sample(), 16);
    assert_eq!(back.channels(), 1);
    assert_eq!(back.sample_rate(), 8000);
    assert_eq!(back.sample_format_int(), true);
}

#[test]
fn round_trip_for_mono_and_stereo_buffers() {
    let buffers: Vec<Vec<i16>> = vec![
        vec![],
        vec![7, -7],
        vec![i16::MIN, i16::MAX, 0, -1, 1, 256],
        (0..2000).map(|i| (i * 37 % 65536 - 32768) as i16).collect(),
    ];
    for channels in [1u16, 2] {
        for rate in [1u32, 8000, 44100, 192000] {
            for buffer in &buffers {
                let m = meta(16, channels, rate, true);
                let image = write_wav_file(&m, buffer).unwrap();
                assert_eq!(read_wav_file_np(&image, 0).as_ref(), Ok(buffer));
                assert_eq!(read_wav_file(&image).as_ref(), Ok(buffer));
                let back = read_wav_file_metadata(&image).unwrap();
                assert_eq!(back.length() as usize, buffer.len());
                assert_eq!(back.duration() as usize, buffer.len() / channels as usize);
            }
        }
    }
}

#[test]
fn image_is_bit_exact() {
    let image = write_wav_file(&meta(16, 1, 8000, true), &[1, -2]).unwrap();
    let mut expected: Vec<u8> = Vec::new();
    expected.extend_from_slice(b"RIFF");
    expected.extend_from_slice(&[40, 0, 0, 0]);
    expected.extend_from_slice(b"WAVE");
    expected.extend_from_slice(b"fmt ");
    expected.extend_from_slice(&[16, 0, 0, 0]);
    expected.extend_from_slice(&[1, 0]);
    expected.extend_from_slice(&[1, 0]);
    expected.extend_from_slice(&[0x40, 0x1f, 0, 0]);
    expected.extend_from_slice(&[0x80, 0x3e, 0, 0]);
    expected.extend_from_slice(&[2, 0]);
    expected.extend_from_slice(&[16, 0]);
    expected.extend_from_slice(b"data");
    expected.extend_from_slice(&[4, 0, 0, 0]);
    expected.extend_from_slice(&[1, 0, 0xfe, 0xff]);
    assert_eq!(image, expected);
}

#[test]
fn image_is_what_the_encoder_writes() {
    let data: Vec<i16> = (0..12).map(|i| i * 100 - 600).collect();
    for (bits, channels, rate) in [(16u16, 1u16, 8000u32), (16, 2, 44100), (24, 2, 48000), (32, 3, 8000)] {
        let image = write_wav_file(&meta(bits, channels, rate, true), &data).unwrap();
        assert_eq!(image, hound_image(bits, channels, rate, &data));
    }
    let small: Vec<i16> = vec![-128, 0, 127];
    assert_eq!(
        write_wav_file(&meta(8, 1, 11025, true), &small).unwrap(),
        hound_image(8, 1, 11025, &small)
    );
}

#[test]
fn five_samples_are_written_as_little_endian_pairs() {
    let written = write_wav_file(&meta(16, 1, 8000, true), &[0, 1, -1, 32767, -32768]);
    assert!(written.is_ok());
    let image = written.unwrap();
    assert_eq!(&image[0..4], b"RIFF");
    assert_eq!(&image[4..8], &[46, 0, 0, 0]);
    assert_eq!(&image[8..16], b"WAVEfmt ");
    // Format tag 1, one channel, 8000 Hz.
    assert_eq!(&image[20..28], &[1, 0, 1, 0, 0x40, 0x1f, 0, 0]);
    // Byte rate 16000, block alignment 2, 16 bits.
    assert_eq!(&image[28..36], &[0x80, 0x3e, 0, 0, 2, 0, 16, 0]);
    assert_eq!(&image[36..40], b"data");
    assert_eq!(&image[40..44], &[10, 0, 0, 0]);
    assert_eq!(&image[44..], &[0x00, 0x00, 0x01, 0x00, 0xff, 0xff, 0xff, 0x7f, 0x00, 0x80]);
}

#[test]
fn empty_stereo_buffer_is_written() {
    let written = write_wav_file(&meta(16, 2, 44100, true), &[]);
    assert!(written.is_ok());
    let image = written.unwrap();
    assert_eq!(image.len(), 44);
    assert_eq!(&image[40..44], &[0, 0, 0, 0]);
    let back = read_wav_file_metadata(&image).unwrap();
    assert_eq!(back.duration(), 0);
    assert_eq!(back.length(), 0);
    assert_eq!(read_wav_file_np(&image, 0), Ok(Vec::new()));
}

#[test]
fn write_succeeds_exactly_when_the_buffer_is_writable_and_fits() {
    let buffers: Vec<Vec<i16>> = vec![
        vec![],
        vec![5],
        vec![5, -5],
        vec![127, -128, 0],
        vec![128, 0, 0, 0],
        vec![0, 0, 0, -129],
        vec![i16::MAX, i16::MIN, 1, -1, 300, -300],
    ];
    for bits in [8u16, 16, 24, 32] {
        for channels in [1u16, 2, 3] {
            for int in [true, false] {
                for rate in [1u32, 44100, u32::MAX] {
                    let m = meta(bits, channels, rate, int);
                    for buffer in &buffers {
                        let bytes = (bits / 8) as u64;
                        let writable = (int || bits == 32)
                            && rate as u64 * bytes * channels as u64 <= u32::MAX as u64
                            && buffer.len() % channels as usize == 0;
                        let fits = bits != 8 || buffer.iter().all(|s| (-128..=127).contains(s));
                        assert_eq!(can_write(&m, buffer.len()), writable);
                        let written = write_wav_file(&m, buffer);
                        assert_eq!(written.is_ok(), writable && fits);
                        if let Err(e) = written {
                            assert_eq!(e, WavError::WriteFailure);
                        }
                    }
                }
            }
        }
    }
}

#[test]
fn whole_frames_of_pcm16_are_always_written() {
    for channels in [1u16, 2, 5, 32767] {
        for rate in [1u32, 8000, 32768] {
            let frames = 3usize;
            let data: Vec<i16> = (0..frames * channels as usize)
                .map(|i| (i as i64 * 7919 % 65536 - 32768) as i16)
                .collect();
            let written = write_wav_file(&meta(16, channels, rate, true), &data);
            assert!(written.is_ok());
            assert_eq!(read_wav_file(&written.unwrap()), Ok(data));
        }
    }
}

#[test]
fn frame_counts_of_the_metadata_are_not_written() {
    let long = WavFileMeta::new(16, 2, 8000, true, 1000).unwrap();
    let image = write_wav_file(&long, &[1, 2, 3, 4]).unwrap();
    assert_eq!(image, write_wav_file(&meta(16, 2, 8000, true), &[1, 2, 3, 4]).unwrap());
    assert_eq!(read_wav_file_metadata(&image).unwrap().duration(), 2);
}

#[test]
fn partial_frame_is_not_written() {
    let m = meta(16, 2, 8000, true);
    assert_eq!(write_wav_file(&m, &[1, 2, 3]), Err(WavError::WriteFailure));
    assert_eq!(can_write(&m, 3), false);
    assert_eq!(can_write(&m, 4), true);
    assert_eq!(can_write(&m, 0), true);
}

#[test]
fn float_samples_take_32_bits() {
    for bits in [8u16, 16, 24] {
        let m = meta(bits, 1, 8000, false);
        assert_eq!(can_write(&m, 2), false);
        assert_eq!(write_wav_file(&m, &[1, 2]), Err(WavError::WriteFailure));
    }
    let m = meta(32, 1, 8000, false);
    assert_eq!(can_write(&m, 2), true);
    assert!(write_wav_file(&m, &[1, 2]).is_ok());
}

#[test]
fn byte_rate_must_fit_32_bits() {
    // 4294967295 frames per second of two bytes each.
    let m = meta(16, 1, u32::MAX, true);
    assert_eq!(can_write(&m, 0), false);
    assert_eq!(write_wav_file(&m, &[]), Err(WavError::WriteFailure));
    let m = meta(16, 1, u32::MAX / 2, true);
    assert_eq!(can_write(&m, 0), true);
    assert!(write_wav_file(&m, &[]).is_ok());
    let m = meta(16, 1, u32::MAX / 2 + 1, true);
    assert_eq!(can_write(&m, 0), false);
}

#[test]
fn block_alignment_must_fit_16_bits() {
    let m = meta(16, 32767, 1, true);
    assert_eq!(can_write(&m, 0), true);
    assert!(write_wav_file(&m, &[]).is_ok());
    let m = meta(16, 32768, 1, true);
    assert_eq!(can_write(&m, 0), false);
    assert_eq!(write_wav_file(&m, &[]), Err(WavError::WriteFailure));
    let m = meta(32, 16384, 1, true);
    assert_eq!(can_write(&m, 0), false);
}

#[test]
fn riff_size_must_fit_32_bits() {
    let m = meta(16, 1, 8000, true);
    // 2 bytes a sample and 36 bytes of header after the RIFF size.
    assert_eq!(can_write(&m, 2147483629), true);
    assert_eq!(can_write(&m, 2147483630), false);
    let wide = meta(32, 1, 8000, true);
    // 4 bytes a sample and 60 bytes of header after the RIFF size.
    assert_eq!(can_write(&wide, 1073741808), true);
    assert_eq!(can_write(&wide, 1073741809), false);
}

#[test]
fn eight_bit_samples_out_of_range_are_not_written() {
    let m = meta(8, 1, 8000, true);
    assert!(write_wav_file(&m, &[127, -128]).is_ok());
    assert_eq!(write_wav_file(&m, &[128]), Err(WavError::WriteFailure));
    assert_eq!(write_wav_file(&m, &[0, -129]), Err(WavError::WriteFailure));
}

#[test]
fn wide_images_keep_the_format() {
    let image = write_wav_file(&meta(24, 2, 48000, true), &[1, 2, 3, 4]).unwrap();
    let back = read_wav_file_metadata(&image).unwrap();
    assert_eq!(back.bits_per_sample(), 24);
    assert_eq!(back.channels(), 2);
    assert_eq!(back.sample_rate(), 48000);
    assert_eq!(back.duration(), 2);
    assert_eq!(image.len(), 68 + 12);
}

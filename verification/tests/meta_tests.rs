use wavio::error::WavError;
use wavio::meta::{WavFileMeta, WavFormat, WavHeader};
use wavio::text::{push_bool, push_decimal};

fn header(bits: u16, channels: u16, rate: u32, int: bool, duration: u32, len: u32) -> WavHeader {
    WavHeader {
        format: WavFormat {
            bits_per_sample: bits,
            channels,
            sample_rate: rate,
            sample_format_int: int,
        },
        duration,
        len,
    }
}

#[test]
fn string_rendering() {
    let m = WavFileMeta::new(16, 2, 44100, true, 44100).unwrap();
    assert_eq!(
        m.to_string(),
        "WavFileMeta(bits_per_sample=16, channels=2, sample_rate=44100, sample_format_int=true)"
    );
}

#[test]
fn string_rendering_of_float_format() {
    let m = WavFileMeta::new(32, 1, 4294967295, false, 7).unwrap();
    assert_eq!(
        m.to_string(),
        "WavFileMeta(bits_per_sample=32, channels=1, sample_rate=4294967295, sample_format_int=false)"
    );
    let m = WavFileMeta::new(8, 65535, 1, true, 0).unwrap();
    assert_eq!(
        m.to_string(),
        "WavFileMeta(bits_per_sample=8, channels=65535, sample_rate=1, sample_format_int=true)"
    );
}

#[test]
fn rendering_leaves_out_the_counts() {
    let short = WavFileMeta::new(16, 2, 44100, true, 1).unwrap();
    let long = WavFileMeta::new(16, 2, 44100, true, 1000000).unwrap();
    assert_eq!(short.to_string(), long.to_string());
}

#[test]
fn new_fills_in_the_counts() {
    let m = WavFileMeta::new(16, 2, 44100, true, 44100).unwrap();
    assert_eq!(m.bits_per_sample(), 16);
    assert_eq!(m.channels(), 2);
    assert_eq!(m.sample_rate(), 44100);
    assert_eq!(m.sample_format_int(), true);
    assert_eq!(m.duration(), 44100);
    assert_eq!(m.length(), 88200);
    assert_eq!(m.duration_seconds(), 1);
    assert_eq!(m.header(), header(16, 2, 44100, true, 44100, 88200));
}

#[test]
fn duration_seconds_drops_the_remainder() {
    assert_eq!(WavFileMeta::new(16, 1, 8000, true, 7999).unwrap().duration_seconds(), 0);
    assert_eq!(WavFileMeta::new(16, 1, 8000, true, 8000).unwrap().duration_seconds(), 1);
    assert_eq!(WavFileMeta::new(16, 1, 8000, true, 23999).unwrap().duration_seconds(), 2);
    assert_eq!(WavFileMeta::new(16, 1, 1, true, u32::MAX).unwrap().duration_seconds(), u32::MAX);
}

#[test]
fn new_refuses_what_no_header_holds() {
    assert!(WavFileMeta::new(16, 0, 8000, true, 0).is_none());
    assert!(WavFileMeta::new(16, 1, 0, true, 0).is_none());
    for bits in [0u16, 1, 7, 12, 20, 40, 64, 65535] {
        assert!(WavFileMeta::new(bits, 1, 8000, true, 0).is_none());
    }
    for bits in [8u16, 16, 24, 32] {
        assert!(WavFileMeta::new(bits, 1, 8000, true, 0).is_some());
    }
    // 2147483648 stereo frames are one sample too many for 32 bits.
    assert!(WavFileMeta::new(16, 2, 8000, true, 2147483647).is_some());
    assert!(WavFileMeta::new(16, 2, 8000, true, 2147483648).is_none());
}

#[test]
fn from_header_keeps_a_valid_header() {
    let h = header(24, 3, 48000, true, 10, 30);
    assert!(h.is_valid());
    let m = WavFileMeta::from_header(&h).unwrap();
    assert_eq!(m.header(), h);
    assert_eq!(m.length(), 30);
    assert_eq!(m.duration_seconds(), 0);
}

#[test]
fn from_header_refuses_an_invalid_header() {
    let bad = [
        header(16, 2, 8000, true, 10, 21),
        header(16, 2, 8000, true, 10, 10),
        header(16, 0, 8000, true, 0, 0),
        header(16, 1, 0, true, 5, 5),
        header(12, 1, 8000, true, 5, 5),
        header(16, 65535, 8000, true, 65537, 65535),
    ];
    for h in bad {
        assert_eq!(h.is_valid(), false);
        assert_eq!(WavFileMeta::from_header(&h), Err(WavError::HeaderParse));
    }
}

#[test]
fn decimal_text() {
    for n in [0u32, 1, 9, 10, 11, 99, 100, 101, 44100, 1000000, 4294967295] {
        let mut out = String::from("n=");
        push_decimal(&mut out, n);
        assert_eq!(out, format!("n={}", n));
    }
}

#[test]
fn bool_text() {
    let mut out = String::new();
    push_bool(&mut out, true);
    out.push(' ');
    push_bool(&mut out, false);
    assert_eq!(out, "true false");
}

#[test]
fn each_error_has_its_message() {
    assert_eq!(
        WavError::OffsetPastEnd.message(),
        "Starting sample is beyond the duration of the WAV file"
    );
    assert_eq!(
        WavError::UnsupportedChannels.message(),
        "Only mono and stereo channels are supported"
    );
    let all = [
        WavError::FileOpen,
        WavError::HeaderParse,
        WavError::Decode,
        WavError::OffsetPastEnd,
        WavError::UnsupportedChannels,
        WavError::WriteFailure,
    ];
    for (i, a) in all.iter().enumerate() {
        assert!(!a.message().is_empty());
        for b in &all[i + 1..] {
            assert_ne!(a, b);
            assert_ne!(a.message(), b.message());
        }
    }
}

//! The format descriptor of a WAV file and the metadata built from it.

use vstd::prelude::*;
use vstd::string::StringExecFns;
use crate::error::WavError;
use crate::text::{bool_text, decimal, push_bool, push_decimal};

verus! {

/// How the samples of a WAV file are laid out.
#[derive(Clone, Copy, Debug, PartialEq, Eq, Structural)]
pub struct WavFormat {
    /// Bits in one sample.
    pub bits_per_sample: u16,
    /// Samples in one frame.
    pub channels: u16,
    /// Frames per second.
    pub sample_rate: u32,
    /// `true` for integer PCM samples, `false` for IEEE float samples.
    pub sample_format_int: bool,
}

/// What the header of a WAV file declares: the format and how much audio
/// follows it.
#[derive(Clone, Copy, Debug, PartialEq, Eq, Structural)]
pub struct WavHeader {
    /// The sample layout.
    pub format: WavFormat,
    /// The number of frames.
    pub duration: u32,
    /// The number of samples over all channels.
    pub len: u32,
}

/// The bit depths a WAV file may declare.
pub open spec fn supported_bits(bits_per_sample: u16) -> bool {
    bits_per_sample == 8 || bits_per_sample == 16 || bits_per_sample == 24
        || bits_per_sample == 32
}

impl WavHeader {
    /// A header is valid when its bit depth is supported, it has at least one
    /// channel and a positive sample rate, and its sample count is its frame
    /// count times its channel count.
    pub open spec fn valid(self) -> bool {
        &&& supported_bits(self.format.bits_per_sample)
        &&& self.format.channels >= 1
        &&& self.format.sample_rate > 0
        &&& self.len == self.duration * self.format.channels
    }

    /// Whole seconds of audio: the frame count divided by the sample rate,
    /// the remainder dropped.
    pub open spec fn seconds(self) -> int {
        self.duration as int / self.format.sample_rate as int
    }

    /// Decides [`WavHeader::valid`].
    pub fn is_valid(&self) -> (valid: bool)
        ensures
            valid == self.valid(),
    {
        let bits: u16 = self.format.bits_per_sample;
        let frames: u64 = self.duration as u64;
        let channels: u64 = self.format.channels as u64;
        assert(frames * channels <= 0xffff_ffff * 0xffff) by (nonlinear_arith)
            requires
                frames <= 0xffff_ffff,
                channels <= 0xffff,
        ;
        (bits == 8 || bits == 16 || bits == 24 || bits == 32) && self.format.channels >= 1
            && self.format.sample_rate > 0 && self.len as u64 == frames * channels
    }
}

/// The metadata of a WAV file: a valid header together with its length in
/// whole seconds. A value never changes once made.
#[derive(Clone, Copy, Debug, PartialEq, Eq, Structural)]
pub struct WavFileMeta {
    bits_per_sample: u16,
    channels: u16,
    sample_rate: u32,
    sample_format_int: bool,
    duration: u32,
    length: u32,
    duration_seconds: u32,
}

impl View for WavFileMeta {
    type V = WavHeader;

    /// The header that the metadata describes.
    closed spec fn view(&self) -> WavHeader {
        WavHeader {
            format: WavFormat {
                bits_per_sample: self.bits_per_sample,
                channels: self.channels,
                sample_rate: self.sample_rate,
                sample_format_int: self.sample_format_int,
            },
            duration: self.duration,
            len: self.length,
        }
    }
}

/// The rendering of a format: the four format fields by name, the counts of
/// frames, samples and seconds left out.
pub open spec fn format_text(format: WavFormat) -> Seq<char> {
    "WavFileMeta(bits_per_sample="@ + decimal(format.bits_per_sample as nat) + ", channels="@
        + decimal(format.channels as nat) + ", sample_rate="@ + decimal(format.sample_rate as nat)
        + ", sample_format_int="@ + bool_text(format.sample_format_int) + ")"@
}

impl WavFileMeta {
    #[verifier::type_invariant]
    closed spec fn well_formed(&self) -> bool {
        &&& self@.valid()
        &&& self.duration_seconds == self@.seconds()
    }

    /// Metadata for a valid header; `HeaderParse` for any other.
    pub fn from_header(header: &WavHeader) -> (made: Result<WavFileMeta, WavError>)
        ensures
            match made {
                Ok(meta) => header.valid() && meta@ == *header,
                Err(e) => !header.valid() && e == WavError::HeaderParse,
            },
    {
        if header.is_valid() {
            Ok(
                WavFileMeta {
                    bits_per_sample: header.format.bits_per_sample,
                    channels: header.format.channels,
                    sample_rate: header.format.sample_rate,
                    sample_format_int: header.format.sample_format_int,
                    duration: header.duration,
                    length: header.len,
                    duration_seconds: header.duration / header.format.sample_rate,
                },
            )
        } else {
            Err(WavError::HeaderParse)
        }
    }

    /// Metadata for `duration` frames in the given format, or `None` when no
    /// valid header has these values: the bit depth is not supported, there
    /// is no channel, the sample rate is zero, or the sample count does not
    /// fit in 32 bits.
    pub fn new(
        bits_per_sample: u16,
        channels: u16,
        sample_rate: u32,
        sample_format_int: bool,
        duration: u32,
    ) -> (made: Option<WavFileMeta>)
        ensures
            match made {
                Some(meta) => meta@.valid() && meta@.format == (WavFormat {
                    bits_per_sample,
                    channels,
                    sample_rate,
                    sample_format_int,
                }) && meta@.duration == duration,
                None => !supported_bits(bits_per_sample) || channels == 0 || sample_rate == 0
                    || duration * channels > u32::MAX,
            },
    {
        let format = WavFormat { bits_per_sample, channels, sample_rate, sample_format_int };
        match duration.checked_mul(channels as u32) {
            Some(len) => {
                let header = WavHeader { format, duration, len };
                match WavFileMeta::from_header(&header) {
                    Ok(meta) => Some(meta),
                    Err(_) => None,
                }
            },
            None => None,
        }
    }

    /// The header that the metadata describes, which is always valid.
    pub fn header(&self) -> (header: WavHeader)
        ensures
            header == self@,
            header.valid(),
    {
        proof {
            use_type_invariant(self);
        }
        WavHeader {
            format: WavFormat {
                bits_per_sample: self.bits_per_sample,
                channels: self.channels,
                sample_rate: self.sample_rate,
                sample_format_int: self.sample_format_int,
            },
            duration: self.duration,
            len: self.length,
        }
    }

    /// Bits in one sample: 8, 16, 24 or 32.
    pub fn bits_per_sample(&self) -> (bits: u16)
        ensures
            bits == self@.format.bits_per_sample,
            supported_bits(bits),
    {
        proof {
            use_type_invariant(self);
        }
        self.bits_per_sample
    }

    /// Samples in one frame: at least one.
    pub fn channels(&self) -> (channels: u16)
        ensures
            channels == self@.format.channels,
            channels >= 1,
    {
        proof {
            use_type_invariant(self);
        }
        self.channels
    }

    /// Frames per second: more than zero.
    pub fn sample_rate(&self) -> (rate: u32)
        ensures
            rate == self@.format.sample_rate,
            rate > 0,
    {
        proof {
            use_type_invariant(self);
        }
        self.sample_rate
    }

    /// `true` for integer PCM samples, `false` for IEEE float samples.
    pub fn sample_format_int(&self) -> (integer: bool)
        ensures
            integer == self@.format.sample_format_int,
    {
        self.sample_format_int
    }

    /// The number of frames.
    pub fn duration(&self) -> (frames: u32)
        ensures
            frames == self@.duration,
    {
        self.duration
    }

    /// The number of samples over all channels: frames times channels.
    pub fn length(&self) -> (samples: u32)
        ensures
            samples == self@.len,
            samples == self@.duration * self@.format.channels,
    {
        proof {
            use_type_invariant(self);
        }
        self.length
    }

    /// Whole seconds of audio: frames divided by the sample rate, the
    /// remainder dropped.
    pub fn duration_seconds(&self) -> (seconds: u32)
        ensures
            seconds == self@.duration / self@.format.sample_rate,
    {
        proof {
            use_type_invariant(self);
        }
        self.duration_seconds
    }

    /// The format as text; frames, samples and seconds are not shown.
    pub fn to_string(&self) -> (text: String)
        ensures
            text@ == format_text(self@.format),
    {
        let mut text = String::from_str("WavFileMeta(bits_per_sample=");
        push_decimal(&mut text, self.bits_per_sample as u32);
        text.append(", channels=");
        push_decimal(&mut text, self.channels as u32);
        text.append(", sample_rate=");
        push_decimal(&mut text, self.sample_rate);
        text.append(", sample_format_int=");
        push_bool(&mut text, self.sample_format_int);
        text.append(")");
        text
    }
}

} // verus!

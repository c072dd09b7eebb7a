//! The ways a WAV operation can fail.

use vstd::prelude::*;

verus! {

/// Why an operation on a WAV image or file was refused.
#[derive(Clone, Copy, Debug, PartialEq, Eq, Structural)]
pub enum WavError {
    /// The file could not be opened, created or read.
    FileOpen,
    /// The RIFF/WAVE header is invalid or declares an unsupported format.
    HeaderParse,
    /// The sample data cannot be delivered as 16-bit integers.
    Decode,
    /// The requested starting frame lies beyond the last frame.
    OffsetPastEnd,
    /// The channel count is neither mono nor stereo.
    UnsupportedChannels,
    /// Samples could not be appended or the image could not be finalized.
    WriteFailure,
}

impl WavError {
    /// The text that goes with each kind of failure.
    pub open spec fn message_text(self) -> Seq<char> {
        match self {
            WavError::FileOpen => "The WAV file could not be opened"@,
            WavError::HeaderParse => "The WAV header is invalid or not supported"@,
            WavError::Decode => "The samples cannot be decoded as 16-bit integers"@,
            WavError::OffsetPastEnd => "Starting sample is beyond the duration of the WAV file"@,
            WavError::UnsupportedChannels => "Only mono and stereo channels are supported"@,
            WavError::WriteFailure => "The WAV data could not be written"@,
        }
    }

    /// A short description of the failure, for the caller to show.
    pub fn message(&self) -> (text: &'static str)
        ensures
            text@ == self.message_text(),
    {
        match self {
            WavError::FileOpen => "The WAV file could not be opened",
            WavError::HeaderParse => "The WAV header is invalid or not supported",
            WavError::Decode => "The samples cannot be decoded as 16-bit integers",
            WavError::OffsetPastEnd => "Starting sample is beyond the duration of the WAV file",
            WavError::UnsupportedChannels => "Only mono and stereo channels are supported",
            WavError::WriteFailure => "The WAV data could not be written",
        }
    }
}

} // verus!

//! Reading: metadata, the whole sample buffer, and the buffer from a
//! millisecond offset.

use vstd::prelude::*;
use crate::decoder::{
    next_sample,
    open_reader,
    reader_duration,
    reader_header,
    reader_image,
    reader_len,
    reader_position,
    reader_spec,
    seek_reader,
    wav_header,
    wav_samples,
};
use crate::error::WavError;
use crate::meta::{WavFileMeta, WavFormat, WavHeader};

verus! {

/// The frame at which a read that starts `starting_time_ms` into the audio
/// begins: whole seconds times the sample rate. The division truncates before
/// the multiplication, so every offset below one second is frame 0.
pub open spec fn starting_frame(starting_time_ms: u32, sample_rate: u32) -> int {
    (starting_time_ms / 1000) * sample_rate
}

/// Only integer samples of 16 bits are delivered as `i16`.
pub open spec fn delivers_i16(format: WavFormat) -> bool {
    format.sample_format_int && format.bits_per_sample == 16
}

/// Reads from an offset are offered for mono and stereo only.
pub open spec fn mono_or_stereo(format: WavFormat) -> bool {
    format.channels == 1 || format.channels == 2
}

/// The metadata of an image: its header where the decoder accepts it and it
/// is valid, `HeaderParse` otherwise.
pub open spec fn metadata_outcome(header: Option<WavHeader>) -> Result<WavHeader, WavError> {
    match header {
        Some(found) => if found.valid() {
            Ok(found)
        } else {
            Err(WavError::HeaderParse)
        },
        None => Err(WavError::HeaderParse),
    }
}

/// Whether every sample from index `from` up to `to` could be decoded.
pub open spec fn all_decoded(samples: Seq<Option<i16>>, from: int, to: int) -> bool {
    forall|i: int| from <= i < to ==> (#[trigger] samples[i]) is Some
}

/// The samples from index `from` up to `to`, in order.
pub open spec fn decoded(samples: Seq<Option<i16>>, from: int, to: int) -> Seq<i16> {
    Seq::new((to - from) as nat, |i: int| samples[from + i].unwrap())
}

/// The buffer from index `from` up to `to`: all of the samples, or `Decode`
/// where one of them could not be decoded.
pub open spec fn samples_outcome(samples: Seq<Option<i16>>, from: int, to: int) -> Result<
    Seq<i16>,
    WavError,
> {
    if all_decoded(samples, from, to) {
        Ok(decoded(samples, from, to))
    } else {
        Err(WavError::Decode)
    }
}

/// Where a read from `starting_time_ms` begins in audio with the given valid
/// header. The offset is judged first, then the channel count, then the
/// sample format.
pub open spec fn start_outcome(header: WavHeader, starting_time_ms: u32) -> Result<u32, WavError> {
    if starting_frame(starting_time_ms, header.format.sample_rate) > header.duration {
        Err(WavError::OffsetPastEnd)
    } else if !mono_or_stereo(header.format) {
        Err(WavError::UnsupportedChannels)
    } else if !delivers_i16(header.format) {
        Err(WavError::Decode)
    } else {
        Ok(starting_frame(starting_time_ms, header.format.sample_rate) as u32)
    }
}

/// What reading a whole image gives, from what the decoder makes of it.
pub open spec fn read_outcome(header: Option<WavHeader>, samples: Seq<Option<i16>>) -> Result<
    Seq<i16>,
    WavError,
> {
    match metadata_outcome(header) {
        Err(e) => Err(e),
        Ok(found) => if !delivers_i16(found.format) {
            Err(WavError::Decode)
        } else {
            samples_outcome(samples, 0, found.len as int)
        },
    }
}

/// What reading an image from `starting_time_ms` gives, from what the
/// decoder makes of it.
pub open spec fn read_from_outcome(
    header: Option<WavHeader>,
    samples: Seq<Option<i16>>,
    starting_time_ms: u32,
) -> Result<Seq<i16>, WavError> {
    match metadata_outcome(header) {
        Err(e) => Err(e),
        Ok(found) => match start_outcome(found, starting_time_ms) {
            Err(e) => Err(e),
            Ok(frame) => samples_outcome(
                samples,
                frame * found.format.channels,
                found.len as int,
            ),
        },
    }
}

/// `actual` is `expected`, the buffer taken by its view.
pub open spec fn buffer_is(actual: Result<Vec<i16>, WavError>, expected: Result<Seq<i16>, WavError>) -> bool {
    match actual {
        Ok(buffer) => expected == Ok::<Seq<i16>, WavError>(buffer@),
        Err(e) => expected == Err::<Seq<i16>, WavError>(e),
    }
}

/// `actual` is `expected`, the metadata taken by its view.
pub open spec fn metadata_is(actual: Result<WavFileMeta, WavError>, expected: Result<WavHeader, WavError>) -> bool {
    match actual {
        Ok(meta) => expected == Ok::<WavHeader, WavError>(meta@),
        Err(e) => expected == Err::<WavHeader, WavError>(e),
    }
}

/// Computes where a read from `starting_time_ms` begins: the starting frame,
/// or the reason why no buffer is read.
pub fn locate_start(meta: &WavFileMeta, starting_time_ms: u32) -> (start: Result<u32, WavError>)
    ensures
        start == start_outcome(meta@, starting_time_ms),
        start matches Ok(frame) ==> frame <= meta@.duration,
{
    let seconds: u32 = starting_time_ms / 1000;
    let within: bool = match seconds.checked_mul(meta.sample_rate()) {
        Some(frame) => frame <= meta.duration(),
        None => false,
    };
    if !within {
        Err(WavError::OffsetPastEnd)
    } else if meta.channels() != 1 && meta.channels() != 2 {
        Err(WavError::UnsupportedChannels)
    } else if !(meta.sample_format_int() && meta.bits_per_sample() == 16) {
        Err(WavError::Decode)
    } else {
        Ok(seconds * meta.sample_rate())
    }
}

/// Asks an open reader for the header it found and turns it into metadata.
fn reader_metadata(reader: &hound::WavReader<std::io::Cursor<&[u8]>>) -> (read: Result<
    WavFileMeta,
    WavError,
>)
    requires
        wav_header(reader_image(*reader)) is Some,
    ensures
        metadata_is(read, metadata_outcome(wav_header(reader_image(*reader)))),
{
    let header = WavHeader {
        format: reader_spec(reader),
        duration: reader_duration(reader),
        len: reader_len(reader),
    };
    WavFileMeta::from_header(&header)
}

/// Takes every sample from the reader's position to the end of the data.
fn collect_samples(reader: &mut hound::WavReader<std::io::Cursor<&[u8]>>) -> (read: Result<
    Vec<i16>,
    WavError,
>)
    requires
        wav_header(reader_image(*old(reader))) is Some,
        reader_position(*old(reader)) <= reader_header(*old(reader)).len,
    ensures
        buffer_is(
            read,
            samples_outcome(
                wav_samples(reader_image(*old(reader))),
                reader_position(*old(reader)) as int,
                reader_header(*old(reader)).len as int,
            ),
        ),
{
    let ghost image = reader_image(*reader);
    let ghost from = reader_position(*reader) as int;
    let ghost to = reader_header(*reader).len as int;
    let mut buffer: Vec<i16> = Vec::new();
    loop
        invariant
            image == reader_image(*old(reader)),
            from == reader_position(*old(reader)),
            to == reader_header(*old(reader)).len,
            reader_image(*reader) == image,
            wav_header(image) is Some,
            from <= reader_position(*reader) <= to,
            all_decoded(wav_samples(image), from, reader_position(*reader) as int),
            buffer@ == decoded(wav_samples(image), from, reader_position(*reader) as int),
        decreases to - reader_position(*reader),
    {
        match next_sample(reader) {
            Some(Ok(value)) => {
                buffer.push(value);
            },
            Some(Err(_)) => {
                return Err(WavError::Decode);
            },
            None => {
                return Ok(buffer);
            },
        }
    }
}

/// Reads the metadata of a WAV image.
///
/// Succeeds exactly when the decoder accepts the header and the header is
/// valid; every other image is refused with `HeaderParse`.
pub fn read_wav_file_metadata(image: &[u8]) -> (read: Result<WavFileMeta, WavError>)
    ensures
        metadata_is(read, metadata_outcome(wav_header(image@))),
{
    match open_reader(image) {
        Ok(reader) => reader_metadata(&reader),
        Err(_) => Err(WavError::HeaderParse),
    }
}

/// Reads every sample of a WAV image, interleaved as stored.
///
/// The header is judged as in [`read_wav_file_metadata`]; then `Decode` is
/// returned unless the samples are 16-bit integers and each of them can be
/// decoded. Any channel count is read.
pub fn read_wav_file(image: &[u8]) -> (read: Result<Vec<i16>, WavError>)
    ensures
        buffer_is(read, read_outcome(wav_header(image@), wav_samples(image@))),
        read matches Ok(buffer) ==> wav_header(image@) matches Some(header) && buffer@.len()
            == header.duration * header.format.channels,
{
    match open_reader(image) {
        Ok(mut reader) => match reader_metadata(&reader) {
            Ok(meta) => {
                if meta.sample_format_int() && meta.bits_per_sample() == 16 {
                    collect_samples(&mut reader)
                } else {
                    Err(WavError::Decode)
                }
            },
            Err(e) => Err(e),
        },
        Err(_) => Err(WavError::HeaderParse),
    }
}

/// Reads the samples of a WAV image from `starting_time_ms` on, interleaved
/// as stored.
///
/// The header is judged as in [`read_wav_file_metadata`] and the request as
/// in [`locate_start`]. Then the buffer is returned unless the decoder
/// cannot decode one of the samples from the starting frame to the end,
/// which is a `Decode` failure. The buffer holds one sample per channel for
/// each frame from the starting frame on.
pub fn read_wav_file_np(image: &[u8], starting_time_ms: u32) -> (read: Result<Vec<i16>, WavError>)
    ensures
        buffer_is(
            read,
            read_from_outcome(wav_header(image@), wav_samples(image@), starting_time_ms),
        ),
        read matches Ok(buffer) ==> wav_header(image@) matches Some(header) && buffer@.len() == (
        header.duration - starting_frame(starting_time_ms, header.format.sample_rate))
            * header.format.channels,
{
    match open_reader(image) {
        Ok(reader) => match reader_metadata(&reader) {
            Ok(meta) => match locate_start(&meta, starting_time_ms) {
                Ok(frame) => {
                    proof {
                        lemma_frame_start(meta@, frame as int);
                    }
                    match seek_reader(reader, frame) {
                        Some(mut there) => collect_samples(&mut there),
                        None => Err(WavError::Decode),
                    }
                },
                Err(e) => Err(e),
            },
            Err(e) => Err(e),
        },
        Err(_) => Err(WavError::HeaderParse),
    }
}

/// In a valid header, a frame up to the last one starts at a sample index up
/// to the sample count, and the samples from there on are the remaining
/// frames times the channel count.
pub proof fn lemma_frame_start(header: WavHeader, frame: int)
    requires
        header.valid(),
        0 <= frame <= header.duration,
    ensures
        0 <= frame * header.format.channels <= header.len,
        header.len - frame * header.format.channels == (header.duration - frame)
            * header.format.channels,
{
    let channels = header.format.channels as int;
    let duration = header.duration as int;
    assert(0 <= frame * channels <= duration * channels) by (nonlinear_arith)
        requires
            0 <= frame <= duration,
            channels >= 1,
    ;
    assert(duration * channels - frame * channels == (duration - frame) * channels)
        by (nonlinear_arith);
}

} // verus!

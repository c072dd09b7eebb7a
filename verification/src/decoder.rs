//! The decoder: `hound`'s WAV reader over an image held in memory.
//!
//! The reader is opaque to Verus. What it does is named by the spec
//! functions without a body below and claimed by the contracts of the
//! functions that call it: Verus believes those contracts and reads no body.
//! Each doc comment names the `hound` function behind the item and says what
//! is claimed of it.

use vstd::prelude::*;
use crate::meta::{WavFormat, WavHeader};

verus! {

/// `hound::WavReader`, a streaming reader of the WAVE format.
#[verifier::external_type_specification]
#[verifier::external_body]
#[verifier::reject_recursive_types(R)]
pub struct ExWavReader<R>(hound::WavReader<R>);

/// `std::io::Cursor`, a position in an in-memory buffer.
#[verifier::external_type_specification]
#[verifier::external_body]
#[verifier::reject_recursive_types(T)]
pub struct ExCursor<T>(std::io::Cursor<T>);

/// `hound::Error`, the error of every `hound` operation.
#[verifier::external_type_specification]
#[verifier::external_body]
pub struct ExHoundError(hound::Error);

/// What `hound::WavReader::new` finds in an image: `None` where it refuses
/// the image, else the header it accepts, which is the format that the
/// reader's `spec` reports, the frames that its `duration` reports and the
/// samples that its `len` reports.
pub uninterp spec fn wav_header(image: Seq<u8>) -> Option<WavHeader>;

/// The samples of an image's data chunk in file order, as
/// `hound::WavReader::samples` yields them for `i16`: the value, or `None`
/// where the reader yields an error in its place. The reader decodes an
/// `i16` only from integer samples of 8 or 16 bits, which lie where `seek`
/// counts them, and fails on every sample of any other format and on every
/// sample past the end of the image: so what it yields at an index is the
/// same whether it read or skipped what lies before.
pub uninterp spec fn wav_samples(image: Seq<u8>) -> Seq<Option<i16>>;

/// The image that a reader was opened over.
pub uninterp spec fn reader_image(reader: hound::WavReader<std::io::Cursor<&[u8]>>) -> Seq<u8>;

/// The number of samples that lie before a reader's position.
pub uninterp spec fn reader_position(reader: hound::WavReader<std::io::Cursor<&[u8]>>) -> nat;

/// The header of the image that a reader was opened over.
pub open spec fn reader_header(reader: hound::WavReader<std::io::Cursor<&[u8]>>) -> WavHeader {
    wav_header(reader_image(reader)).unwrap()
}

/// Calls `hound::WavReader::new` on a cursor over `image`. Claimed: the
/// reader opens exactly on the images that have a header; a reader that
/// opens is one over the image it was given and stands before its first
/// sample.
#[verifier::external_body]
pub(crate) fn open_reader<'a>(image: &'a [u8]) -> (opened: Result<
    hound::WavReader<std::io::Cursor<&'a [u8]>>,
    hound::Error,
>)
    ensures
        match opened {
            Ok(reader) => wav_header(image@) is Some && reader_image(reader) == image@
                && reader_position(reader) == 0,
            Err(_) => wav_header(image@) is None,
        },
{
    hound::WavReader::new(std::io::Cursor::new(image))
}

/// Calls `hound::WavReader::spec`. Claimed: the reader reports the format of
/// the header it was opened with.
#[verifier::external_body]
pub(crate) fn reader_spec(reader: &hound::WavReader<std::io::Cursor<&[u8]>>) -> (format: WavFormat)
    requires
        wav_header(reader_image(*reader)) is Some,
    ensures
        format == reader_header(*reader).format,
{
    let spec = reader.spec();
    WavFormat {
        bits_per_sample: spec.bits_per_sample,
        channels: spec.channels,
        sample_rate: spec.sample_rate,
        sample_format_int: match spec.sample_format {
            hound::SampleFormat::Int => true,
            hound::SampleFormat::Float => false,
        },
    }
}

/// Calls `hound::WavReader::duration`. Claimed: the reader reports the frame
/// count of the header it was opened with.
#[verifier::external_body]
pub(crate) fn reader_duration(reader: &hound::WavReader<std::io::Cursor<&[u8]>>) -> (frames: u32)
    requires
        wav_header(reader_image(*reader)) is Some,
    ensures
        frames == reader_header(*reader).duration,
{
    reader.duration()
}

/// Calls `hound::WavReader::len`. Claimed: the reader reports the sample
/// count of the header it was opened with.
#[verifier::external_body]
pub(crate) fn reader_len(reader: &hound::WavReader<std::io::Cursor<&[u8]>>) -> (samples: u32)
    requires
        wav_header(reader_image(*reader)) is Some,
    ensures
        samples == reader_header(*reader).len,
{
    reader.len()
}

/// Calls `hound::WavReader::seek` and gives the reader back where the seek
/// lands. Required: a reader that has not moved yet, so that the distance is
/// counted from the first sample, and a frame inside the data, so that the
/// sample index fits in 32 bits. Claimed: the seek lands, since it moves the
/// cursor forward by a distance that fits, which a cursor over bytes in
/// memory never refuses; the reader that comes back is still one over its
/// image and stands before the first sample of that frame.
#[verifier::external_body]
pub(crate) fn seek_reader<'a>(
    reader: hound::WavReader<std::io::Cursor<&'a [u8]>>,
    frame: u32,
) -> (moved: Option<hound::WavReader<std::io::Cursor<&'a [u8]>>>)
    requires
        wav_header(reader_image(reader)) is Some,
        reader_position(reader) == 0,
        frame <= reader_header(reader).duration,
        frame * reader_header(reader).format.channels <= reader_header(reader).len,
    ensures
        moved is Some,
        moved matches Some(there) ==> reader_image(there) == reader_image(reader)
            && reader_position(there) == frame * reader_header(reader).format.channels,
{
    let mut reader = reader;
    match reader.seek(frame) {
        Ok(()) => Some(reader),
        Err(_) => None,
    }
}

/// Calls `next` on `hound::WavReader::samples::<i16>`. Claimed: while
/// samples lie ahead the reader yields the one at its position and steps
/// past it, whether it could be decoded or not; at the end it yields `None`
/// and stays.
#[verifier::external_body]
pub(crate) fn next_sample(reader: &mut hound::WavReader<std::io::Cursor<&[u8]>>) -> (item: Option<
    Result<i16, hound::Error>,
>)
    requires
        wav_header(reader_image(*old(reader))) is Some,
    ensures
        reader_image(*final(reader)) == reader_image(*old(reader)),
        match item {
            Some(sample) => {
                &&& reader_position(*old(reader)) < reader_header(*old(reader)).len
                &&& reader_position(*final(reader)) == reader_position(*old(reader)) + 1
                &&& match sample {
                    Ok(value) => wav_samples(reader_image(*old(reader)))[reader_position(
                        *old(reader),
                    ) as int] == Some(value),
                    Err(_) => wav_samples(reader_image(*old(reader)))[reader_position(
                        *old(reader),
                    ) as int] is None,
                }
            },
            None => {
                &&& reader_position(*old(reader)) >= reader_header(*old(reader)).len
                &&& reader_position(*final(reader)) == reader_position(*old(reader))
            },
        },
{
    reader.samples::<i16>().next()
}

} // verus!

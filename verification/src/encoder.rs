//! The encoder: `hound`'s WAV writer over a byte buffer held in memory.
//!
//! The writer is opaque to Verus. What it does is named by the spec
//! functions without a body below and claimed by the contracts of the
//! functions that call it: Verus believes those contracts and reads no body.
//! Each doc comment names the `hound` function behind the item and says what
//! is claimed of it.

use vstd::prelude::*;
use crate::meta::{supported_bits, WavFormat};

verus! {

/// A `hound::WavWriter` that appends to a byte buffer lent to it. The buffer
/// is out of reach while the writer lives and holds the writer's output once
/// the writer is gone. The writer is held in this struct, hidden from Verus,
/// because its type bounds its parameter by `std::io::Write` and
/// `std::io::Seek`, which Verus does not take in a declaration.
#[verifier::external_body]
pub struct SampleWriter<'a> {
    inner: hound::WavWriter<std::io::Cursor<&'a mut Vec<u8>>>,
}

/// The RIFF/WAVE image that `hound::WavWriter` leaves behind when it is
/// opened on an empty buffer with a format, given samples one by one and
/// finalized.
pub uninterp spec fn wav_image(format: WavFormat, samples: Seq<i16>) -> Seq<u8>;

/// The format that a writer was opened with.
pub uninterp spec fn writer_format(writer: SampleWriter) -> WavFormat;

/// The samples that a writer has taken so far, in order.
pub uninterp spec fn writer_samples(writer: SampleWriter) -> Seq<i16>;

/// The bytes that a writer's buffer holds when the writer hands it back:
/// fixed from the moment the writer is opened, known once it is finalized.
pub uninterp spec fn writer_output(writer: SampleWriter) -> Seq<u8>;

/// Bytes that one sample takes in a file of the given format.
pub open spec fn sample_bytes(format: WavFormat) -> int {
    format.bits_per_sample as int / 8
}

/// Bytes that come before the first sample in an image of the given format:
/// the short format chunk serves up to two channels of up to 16 bits, any
/// other format takes the extensible one.
pub open spec fn header_bytes(format: WavFormat) -> int {
    if format.channels > 2 || format.bits_per_sample > 16 {
        68
    } else {
        44
    }
}

/// Whether the writer takes a sample in the given format: a file of 8 bits
/// holds the values from -128 to 127, every wider one holds any `i16`.
pub open spec fn sample_fits(format: WavFormat, sample: i16) -> bool {
    format.bits_per_sample != 8 || -128 <= sample <= 127
}

/// The RIFF size of an image with `count` samples: every byte of it but the
/// first eight.
pub open spec fn riff_size(format: WavFormat, count: nat) -> int {
    count * sample_bytes(format) + header_bytes(format) - 8
}

/// Calls `hound::WavWriter::new` on a cursor over the empty buffer `sink`.
/// Required, because the call does not return otherwise or misstates the
/// header: a supported bit depth, 32 bits for float samples, at least one
/// channel, a positive sample rate and a byte rate that fits in 32 bits.
/// Claimed: the writer opens, since it refuses only other bit depths and
/// what its sink refuses, and a buffer in memory takes the header; it has
/// the format it was given and no samples yet, and its output is what `sink`
/// holds when the borrow ends.
#[verifier::external_body]
pub(crate) fn open_writer<'a>(sink: &'a mut Vec<u8>, format: WavFormat) -> (opened: Result<
    SampleWriter<'a>,
    hound::Error,
>)
    requires
        old(sink)@.len() == 0,
        supported_bits(format.bits_per_sample),
        format.sample_format_int || format.bits_per_sample == 32,
        format.channels >= 1,
        format.sample_rate > 0,
        format.sample_rate * sample_bytes(format) * format.channels <= u32::MAX,
    ensures
        opened is Ok,
        opened matches Ok(writer) ==> writer_format(writer) == format && writer_samples(writer)
            == Seq::<i16>::empty() && writer_output(writer) == final(sink)@,
{
    let spec = hound::WavSpec {
        channels: format.channels,
        sample_rate: format.sample_rate,
        bits_per_sample: format.bits_per_sample,
        sample_format: match format.sample_format_int {
            true => hound::SampleFormat::Int,
            false => hound::SampleFormat::Float,
        },
    };
    hound::WavWriter::new(std::io::Cursor::new(sink), spec).map(|inner| SampleWriter { inner })
}

/// Calls `hound::WavWriter::write_sample` with an `i16`. Required: a
/// supported bit depth, which every writer has that was opened, and, because
/// the writer counts its bytes in 32 bits, also when it is dropped, that the
/// RIFF size of the image with one more sample fits. Claimed: format and
/// output stay; the writer refuses a sample only where it narrows it to 8
/// bits and the value does not fit, and a buffer in memory takes the bytes;
/// a sample that is accepted is appended to the samples taken.
#[verifier::external_body]
pub(crate) fn put_sample(writer: &mut SampleWriter, sample: i16) -> (put: Result<(), hound::Error>)
    requires
        supported_bits(writer_format(*old(writer)).bits_per_sample),
        riff_size(writer_format(*old(writer)), writer_samples(*old(writer)).len() + 1)
            <= u32::MAX,
    ensures
        writer_format(*final(writer)) == writer_format(*old(writer)),
        writer_output(*final(writer)) == writer_output(*old(writer)),
        put is Ok <==> sample_fits(writer_format(*old(writer)), sample),
        put is Ok ==> writer_samples(*final(writer)) == writer_samples(*old(writer)).push(sample),
{
    writer.inner.write_sample(sample)
}

/// Calls `hound::WavWriter::finalize`. Required, because the writer divides
/// by the channel count and adds the header to its data bytes in 32 bits: at
/// least one channel, and a RIFF size of the image that fits. Claimed: the
/// writer patches the sizes into the buffer and then refuses only samples
/// that do not fill whole frames; where finalizing succeeds, the output is
/// the image of the writer's format and samples.
#[verifier::external_body]
pub(crate) fn finish_writer(writer: SampleWriter) -> (done: Result<(), hound::Error>)
    requires
        writer_format(writer).channels >= 1,
        riff_size(writer_format(writer), writer_samples(writer).len()) <= u32::MAX,
    ensures
        done is Ok <==> writer_samples(writer).len() % (writer_format(writer).channels as nat)
            == 0,
        done is Ok ==> writer_output(writer) == wav_image(
            writer_format(writer),
            writer_samples(writer),
        ),
{
    writer.inner.finalize()
}

} // verus!

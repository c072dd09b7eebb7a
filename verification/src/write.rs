//! Writing: a sample buffer and its metadata as a WAV image.

use vstd::prelude::*;
use crate::encoder::{
    finish_writer,
    header_bytes,
    open_writer,
    put_sample,
    riff_size,
    sample_bytes,
    sample_fits,
    wav_image,
    writer_format,
    writer_output,
    writer_samples,
    SampleWriter,
};
use crate::error::WavError;
use crate::meta::{supported_bits, WavFileMeta, WavFormat};

verus! {

/// Whether `count` samples in the given format make a WAV image: float
/// samples take 32 bits, the bytes of one frame fit the 16-bit block
/// alignment, the bytes of one second fit the 32-bit byte rate, the samples
/// fill whole frames, and the size of the image less its first eight bytes
/// fits the 32-bit RIFF size.
pub open spec fn writable(format: WavFormat, count: nat) -> bool {
    &&& format.sample_format_int || format.bits_per_sample == 32
    &&& sample_bytes(format) * format.channels <= u16::MAX
    &&& format.sample_rate * sample_bytes(format) * format.channels <= u32::MAX
    &&& format.channels > 0 && count % (format.channels as nat) == 0
    &&& riff_size(format, count) <= u32::MAX
}

/// Whether the encoder takes every sample of `data` in the given format.
pub open spec fn all_fit(format: WavFormat, data: Seq<i16>) -> bool {
    forall|i: int| 0 <= i < data.len() ==> sample_fits(format, #[trigger] data[i])
}

/// Decides [`writable`] for the format of `meta`.
pub fn can_write(meta: &WavFileMeta, count: usize) -> (fits: bool)
    ensures
        fits == writable(meta@.format, count as nat),
{
    let bytes: u64 = (meta.bits_per_sample() / 8) as u64;
    let channels: u64 = meta.channels() as u64;
    let rate: u64 = meta.sample_rate() as u64;
    let header: u64 = if meta.channels() > 2 || meta.bits_per_sample() > 16 {
        68
    } else {
        44
    };
    assert(bytes * channels <= 4 * 0xffff) by (nonlinear_arith)
        requires
            bytes <= 4,
            channels <= 0xffff,
    ;
    let frame: u64 = bytes * channels;
    assert(rate * frame <= 0xffff_ffff * (4 * 0xffff)) by (nonlinear_arith)
        requires
            rate <= 0xffff_ffff,
            frame <= 4 * 0xffff,
    ;
    assert(rate * bytes * channels == rate * frame) by (nonlinear_arith)
        requires
            frame == bytes * channels,
    ;
    if !(meta.sample_format_int() || meta.bits_per_sample() == 32) {
        false
    } else if frame > 0xffff {
        false
    } else if rate * frame > 0xffff_ffff {
        false
    } else if count as u64 % channels != 0 {
        false
    } else if count as u64 > 0xffff_ffff {
        assert(count * sample_bytes(meta@.format) >= count) by (nonlinear_arith)
            requires
                sample_bytes(meta@.format) >= 1,
        ;
        false
    } else {
        let samples: u64 = count as u64;
        assert(samples * bytes <= 0xffff_ffff * 4) by (nonlinear_arith)
            requires
                samples <= 0xffff_ffff,
                bytes <= 4,
        ;
        samples * bytes + header - 8 <= 0xffff_ffff
    }
}

/// Hands every sample of `data` to the writer, in order, and stops at the
/// first one that the writer refuses.
fn put_samples(writer: &mut SampleWriter, data: &[i16]) -> (put: Result<(), WavError>)
    requires
        supported_bits(writer_format(*old(writer)).bits_per_sample),
        riff_size(
            writer_format(*old(writer)),
            writer_samples(*old(writer)).len() + data@.len(),
        ) <= u32::MAX,
    ensures
        writer_format(*final(writer)) == writer_format(*old(writer)),
        writer_output(*final(writer)) == writer_output(*old(writer)),
        match put {
            Ok(()) => all_fit(writer_format(*old(writer)), data@) && writer_samples(
                *final(writer),
            ) == writer_samples(*old(writer)) + data@,
            Err(e) => !all_fit(writer_format(*old(writer)), data@) && e
                == WavError::WriteFailure,
        },
{
    let ghost format = writer_format(*writer);
    let ghost before = writer_samples(*writer);
    let mut at: usize = 0;
    while at < data.len()
        invariant
            format == writer_format(*old(writer)),
            before == writer_samples(*old(writer)),
            supported_bits(format.bits_per_sample),
            riff_size(format, before.len() + data@.len()) <= u32::MAX,
            at <= data@.len(),
            writer_format(*writer) == format,
            writer_output(*writer) == writer_output(*old(writer)),
            writer_samples(*writer) == before + data@.take(at as int),
            all_fit(format, data@.take(at as int)),
        decreases data@.len() - at,
    {
        assert(riff_size(format, before.len() + at as nat + 1) <= riff_size(
            format,
            before.len() + data@.len(),
        )) by (nonlinear_arith)
            requires
                at < data@.len(),
                sample_bytes(format) >= 0,
                riff_size(format, before.len() + at as nat + 1) == (before.len() + at + 1)
                    * sample_bytes(format) + header_bytes(format) - 8,
                riff_size(format, before.len() + data@.len()) == (before.len() + data@.len())
                    * sample_bytes(format) + header_bytes(format) - 8,
        ;
        match put_sample(writer, data[at]) {
            Ok(()) => {},
            Err(_) => {
                return Err(WavError::WriteFailure);
            },
        }
        at = at + 1;
    }
    assert(data@.take(at as int) =~= data@);
    Ok(())
}

/// Writes `data` as a WAV image in the format of `meta`; the frame and
/// sample counts of `meta` play no part, the image says how much `data`
/// holds.
///
/// The write succeeds exactly when the samples make an image in this format
/// (see [`writable`]) and the encoder takes each of them (see [`all_fit`]);
/// any other buffer is refused with `WriteFailure`. The image that is
/// returned is the encoder's image of the format and of exactly these
/// samples in order.
pub fn write_wav_file(meta: &WavFileMeta, data: &[i16]) -> (written: Result<Vec<u8>, WavError>)
    ensures
        written is Ok <==> writable(meta@.format, data@.len()) && all_fit(meta@.format, data@),
        match written {
            Ok(image) => image@ == wav_image(meta@.format, data@),
            Err(e) => e == WavError::WriteFailure,
        },
{
    if !can_write(meta, data.len()) {
        return Err(WavError::WriteFailure);
    }
    let format = meta.header().format;
    let mut image: Vec<u8> = Vec::new();
    let done = match open_writer(&mut image, format) {
        Ok(mut writer) => match put_samples(&mut writer, data) {
            Ok(()) => finish_writer(writer).is_ok(),
            Err(_) => false,
        },
        Err(_) => false,
    };
    if done {
        Ok(image)
    } else {
        Err(WavError::WriteFailure)
    }
}

} // verus!

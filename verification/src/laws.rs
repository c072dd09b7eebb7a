//! What holds of every image and every request: each law is stated over
//! the outcomes that the contracts of the read and write functions name.

use vstd::prelude::*;
use crate::encoder::riff_size;
use crate::error::WavError;
use crate::meta::{WavFileMeta, WavFormat, WavHeader};
use crate::read::{
    all_decoded,
    decoded,
    delivers_i16,
    lemma_frame_start,
    metadata_is,
    metadata_outcome,
    mono_or_stereo,
    read_from_outcome,
    read_outcome,
    starting_frame,
};
use crate::write::{all_fit, writable};

verus! {

/// Metadata that is read has counts that agree: the sample count is the
/// frame count times the channel count, and the whole seconds are the frame
/// count divided by the sample rate, the remainder dropped.
pub proof fn metadata_counts_agree(header: Option<WavHeader>)
    requires
        metadata_outcome(header) is Ok,
    ensures
        header matches Some(found) && metadata_outcome(header) == Ok::<WavHeader, WavError>(found)
            && found.len == found.duration * found.format.channels && found.format.sample_rate
            > 0 && found.seconds() * found.format.sample_rate <= found.duration < (found.seconds()
            + 1) * found.format.sample_rate,
{
    let found = header->Some_0;
    let rate = found.format.sample_rate as int;
    let duration = found.duration as int;
    assert((duration / rate) * rate <= duration < (duration / rate + 1) * rate)
        by (nonlinear_arith)
        requires
            rate > 0,
            duration >= 0,
    ;
}

/// Reading the metadata of one image twice gives the same answer twice,
/// since both readings find the same header: the same failure, or metadata
/// with the same header, and so the same value from every accessor.
pub proof fn metadata_read_repeats(
    header: Option<WavHeader>,
    first: Result<WavFileMeta, WavError>,
    second: Result<WavFileMeta, WavError>,
)
    requires
        metadata_is(first, metadata_outcome(header)),
        metadata_is(second, metadata_outcome(header)),
    ensures
        match first {
            Ok(meta) => second matches Ok(again) && again@ == meta@,
            Err(e) => second == Err::<WavFileMeta, WavError>(e),
        },
{
}

/// The starting frame never moves back as the offset grows.
pub proof fn starting_frame_is_monotonic(earlier_ms: u32, later_ms: u32, sample_rate: u32)
    requires
        earlier_ms <= later_ms,
    ensures
        0 <= starting_frame(earlier_ms, sample_rate) <= starting_frame(later_ms, sample_rate),
{
    let a = earlier_ms as int / 1000;
    let b = later_ms as int / 1000;
    let rate = sample_rate as int;
    assert(0 <= a * rate <= b * rate) by (nonlinear_arith)
        requires
            0 <= a <= b,
            0 <= rate,
    ;
}

/// A read of 16-bit mono or stereo audio whose samples can all be decoded is
/// refused exactly when its starting frame lies past the last frame, and
/// then as past the end; every other read returns one sample per channel for
/// each frame from the starting frame on.
pub proof fn read_succeeds_inside_the_audio(
    header: WavHeader,
    samples: Seq<Option<i16>>,
    starting_time_ms: u32,
)
    requires
        header.valid(),
        mono_or_stereo(header.format),
        delivers_i16(header.format),
        all_decoded(samples, 0, header.len as int),
    ensures
        match read_from_outcome(Some(header), samples, starting_time_ms) {
            Ok(buffer) => starting_frame(starting_time_ms, header.format.sample_rate)
                <= header.duration && buffer.len() == (header.duration - starting_frame(
                starting_time_ms,
                header.format.sample_rate,
            )) * header.format.channels,
            Err(e) => starting_frame(starting_time_ms, header.format.sample_rate)
                > header.duration && e == WavError::OffsetPastEnd,
        },
{
    let frame = starting_frame(starting_time_ms, header.format.sample_rate);
    if frame <= header.duration {
        lemma_frame_start(header, frame);
    }
}

/// A buffer read from a later offset is the tail of a buffer read from an
/// earlier one: where the earlier read succeeds, the later read returns what
/// is left of the earlier buffer after the frames between the two starting
/// frames, unless the later offset is past the end.
pub proof fn later_read_is_tail_of_earlier(
    header: Option<WavHeader>,
    samples: Seq<Option<i16>>,
    earlier_ms: u32,
    later_ms: u32,
)
    requires
        earlier_ms < later_ms,
        read_from_outcome(header, samples, earlier_ms) is Ok,
    ensures
        header matches Some(found) && ({
            let early = read_from_outcome(header, samples, earlier_ms)->Ok_0;
            let skipped = (starting_frame(later_ms, found.format.sample_rate) - starting_frame(
                earlier_ms,
                found.format.sample_rate,
            )) * found.format.channels;
            if starting_frame(later_ms, found.format.sample_rate) > found.duration {
                read_from_outcome(header, samples, later_ms) == Err::<Seq<i16>, WavError>(
                    WavError::OffsetPastEnd,
                )
            } else {
                0 <= skipped <= early.len() && read_from_outcome(header, samples, later_ms)
                    == Ok::<Seq<i16>, WavError>(early.skip(skipped))
            }
        }),
{
    let found = header->Some_0;
    let rate = found.format.sample_rate;
    let channels = found.format.channels as int;
    let first = starting_frame(earlier_ms, rate);
    let second = starting_frame(later_ms, rate);
    starting_frame_is_monotonic(earlier_ms, later_ms, rate);
    lemma_frame_start(found, first);
    if second <= found.duration {
        lemma_frame_start(found, second);
        assert(first * channels <= second * channels) by (nonlinear_arith)
            requires
                first <= second,
                channels >= 1,
        ;
        assert((second - first) * channels == second * channels - first * channels)
            by (nonlinear_arith);
        let early = decoded(samples, first * channels, found.len as int);
        let late = decoded(samples, second * channels, found.len as int);
        assert(late =~= early.skip((second - first) * channels));
    }
}

/// An offset below one second, zero first of all, reads everything: for mono
/// and stereo audio the outcome is that of reading the whole image, and a
/// buffer that is returned has as many samples as the header counts.
pub proof fn subsecond_offset_reads_everything(
    header: Option<WavHeader>,
    samples: Seq<Option<i16>>,
    starting_time_ms: u32,
)
    requires
        starting_time_ms < 1000,
        header matches Some(found) ==> mono_or_stereo(found.format),
    ensures
        read_from_outcome(header, samples, starting_time_ms) == read_outcome(header, samples),
        read_from_outcome(header, samples, starting_time_ms) matches Ok(buffer)
            ==> header matches Some(found) && buffer.len() == found.len,
{
    if let Some(found) = header {
        let rate = found.format.sample_rate as int;
        assert(starting_frame(starting_time_ms, found.format.sample_rate) == 0)
            by (nonlinear_arith)
            requires
                starting_time_ms as int / 1000 == 0,
                starting_frame(starting_time_ms, found.format.sample_rate) == (starting_time_ms
                    as int / 1000) * rate,
        ;
    }
}

/// An offset that falls on the frame after the last one is inside the audio:
/// the read is never refused as past the end, a buffer that is returned is
/// empty, and for 16-bit mono or stereo audio the empty buffer is returned.
pub proof fn offset_at_end_reads_nothing(
    header: WavHeader,
    samples: Seq<Option<i16>>,
    starting_time_ms: u32,
)
    requires
        header.valid(),
        starting_frame(starting_time_ms, header.format.sample_rate) == header.duration,
    ensures
        read_from_outcome(Some(header), samples, starting_time_ms) != Err::<Seq<i16>, WavError>(
            WavError::OffsetPastEnd,
        ),
        read_from_outcome(Some(header), samples, starting_time_ms) matches Ok(buffer)
            ==> buffer.len() == 0,
        mono_or_stereo(header.format) && delivers_i16(header.format) ==> read_from_outcome(
            Some(header),
            samples,
            starting_time_ms,
        ) == Ok::<Seq<i16>, WavError>(Seq::empty()),
{
    lemma_frame_start(header, header.duration as int);
    let from = header.duration * header.format.channels;
    assert(decoded(samples, from, header.len as int) =~= Seq::<i16>::empty());
}

/// Where an offset falls on the frame after the last one and the next
/// millisecond begins a new second, the read from that next millisecond is
/// refused as past the end.
pub proof fn offset_after_end_is_refused(
    header: WavHeader,
    samples: Seq<Option<i16>>,
    starting_time_ms: u32,
)
    requires
        header.valid(),
        starting_frame(starting_time_ms, header.format.sample_rate) == header.duration,
        starting_time_ms < u32::MAX,
        (starting_time_ms + 1) % 1000 == 0,
    ensures
        read_from_outcome(Some(header), samples, (starting_time_ms + 1) as u32) == Err::<
            Seq<i16>,
            WavError,
        >(WavError::OffsetPastEnd),
{
    let seconds = starting_time_ms as int / 1000;
    let next = (starting_time_ms + 1) as int / 1000;
    let rate = header.format.sample_rate as int;
    assert(next * rate == seconds * rate + rate) by (nonlinear_arith)
        requires
            next == seconds + 1,
    ;
}

/// Audio with a channel count other than one or two has metadata, and a read
/// from an offset inside it is refused for its channel count.
pub proof fn surround_is_described_not_read(
    header: WavHeader,
    samples: Seq<Option<i16>>,
    starting_time_ms: u32,
)
    requires
        header.valid(),
        !mono_or_stereo(header.format),
        starting_frame(starting_time_ms, header.format.sample_rate) <= header.duration,
    ensures
        metadata_outcome(Some(header)) == Ok::<WavHeader, WavError>(header),
        read_from_outcome(Some(header), samples, starting_time_ms) == Err::<Seq<i16>, WavError>(
            WavError::UnsupportedChannels,
        ),
{
}

/// Audio whose samples are not 16-bit integers has metadata, but no buffer:
/// reading the whole image fails with `Decode`, and so does a read of mono or
/// stereo audio from an offset inside it.
pub proof fn other_sample_formats_are_described_not_decoded(
    header: WavHeader,
    samples: Seq<Option<i16>>,
    starting_time_ms: u32,
)
    requires
        header.valid(),
        !delivers_i16(header.format),
    ensures
        metadata_outcome(Some(header)) == Ok::<WavHeader, WavError>(header),
        read_outcome(Some(header), samples) == Err::<Seq<i16>, WavError>(WavError::Decode),
        mono_or_stereo(header.format) && starting_frame(
            starting_time_ms,
            header.format.sample_rate,
        ) <= header.duration ==> read_from_outcome(Some(header), samples, starting_time_ms)
            == Err::<Seq<i16>, WavError>(WavError::Decode),
{
}

/// A buffer read from an offset holds one sample per channel for each frame
/// from the starting frame to the last.
pub proof fn read_length_is_remaining_frames(
    header: Option<WavHeader>,
    samples: Seq<Option<i16>>,
    starting_time_ms: u32,
)
    requires
        read_from_outcome(header, samples, starting_time_ms) is Ok,
    ensures
        header matches Some(found) && read_from_outcome(
            header,
            samples,
            starting_time_ms,
        )->Ok_0.len() == (found.duration - starting_frame(
            starting_time_ms,
            found.format.sample_rate,
        )) * found.format.channels,
{
    let found = header->Some_0;
    lemma_frame_start(found, starting_frame(starting_time_ms, found.format.sample_rate));
}

/// Whole frames of 16-bit integer samples are always written: the write
/// succeeds for every such buffer, whatever its values, as long as the block
/// alignment, the byte rate and the size of the image fit the fields of the
/// header.
pub proof fn whole_frames_of_pcm16_are_written(format: WavFormat, data: Seq<i16>)
    requires
        delivers_i16(format),
        format.channels >= 1,
        data.len() % (format.channels as nat) == 0,
        2 * format.channels <= u16::MAX,
        format.sample_rate * 2 * format.channels <= u32::MAX,
        riff_size(format, data.len()) <= u32::MAX,
    ensures
        writable(format, data.len()),
        all_fit(format, data),
{
}

/// A read from the start returns what the decoder finds: where the decoder
/// finds a valid header of 16-bit mono or stereo audio and decodes every
/// sample that the header counts, the buffer holds exactly these samples in
/// order, whether the whole image is read or the read starts at offset 0.
pub proof fn read_returns_what_the_decoder_finds(
    header: WavHeader,
    samples: Seq<Option<i16>>,
    buffer: Seq<i16>,
)
    requires
        header.valid(),
        delivers_i16(header.format),
        mono_or_stereo(header.format),
        buffer.len() == header.len,
        forall|i: int| 0 <= i < buffer.len() ==> samples[i] == Some(#[trigger] buffer[i]),
    ensures
        read_outcome(Some(header), samples) == Ok::<Seq<i16>, WavError>(buffer),
        read_from_outcome(Some(header), samples, 0) == Ok::<Seq<i16>, WavError>(buffer),
{
    subsecond_offset_reads_everything(Some(header), samples, 0);
    assert forall|i: int| 0 <= i < header.len implies (#[trigger] samples[i]) == Some(
        buffer[i],
    ) by {}
    assert(decoded(samples, 0, header.len as int) =~= buffer);
}

} // verus!

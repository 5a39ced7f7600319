//! Between the host's block-based interface and the engine's one frame in,
//! one frame out: which configurations are served, where a frame's samples
//! are read from and written to, and which automation lands on which frame.
//!
//! Samples travel interleaved, one frame after another. The helpers are
//! generic over the sample, which they only move.
use vstd::prelude::*;

verus! {

pub const MAX_INPUT_CHANNELS: u32 = 2;

pub const MAX_OUTPUT_CHANNELS: u32 = 2;

/// Whether a configuration can be served: a compressor with nothing coming
/// in has nothing to hold down, and nothing beyond stereo is handled.
pub fn accepts_channels(input_channels: u32, output_channels: u32) -> (accepted: bool)
    ensures
        accepted == (1 <= input_channels <= MAX_INPUT_CHANNELS && 1 <= output_channels
            <= MAX_OUTPUT_CHANNELS),
{
    if input_channels == 0 || input_channels > MAX_INPUT_CHANNELS {
        return false;
    }
    if output_channels == 0 || output_channels > MAX_OUTPUT_CHANNELS {
        return false;
    }
    true
}

/// The sample at `position`, or `silence` past the end of the block.
pub open spec fn sample_or<T>(samples: Seq<T>, position: int, silence: T) -> T {
    if 0 <= position < samples.len() {
        samples[position]
    } else {
        silence
    }
}

/// The stereo frame the engine hears at `frame`: silence with no input, the
/// one channel on both sides of a mono input, and otherwise the frame's
/// first two channels.
pub open spec fn heard_frame<T>(input: Seq<T>, frame: int, channels: int, silence: T) -> (T, T) {
    if channels == 0 {
        (silence, silence)
    } else if channels == 1 {
        (sample_or(input, frame, silence), sample_or(input, frame, silence))
    } else {
        (
            sample_or(input, frame * channels, silence),
            sample_or(input, frame * channels + 1, silence),
        )
    }
}

/// Reads the stereo frame at `frame` from an interleaved block of
/// `channels` channels. A sample missing from the block reads as `silence`.
pub fn frame_input<T: Copy>(input: &[T], frame: usize, channels: usize, silence: T) -> (heard: (
    T,
    T,
))
    requires
        frame * channels + 1 <= usize::MAX,
    ensures
        heard == heard_frame(input@, frame as int, channels as int, silence),
{
    if channels == 0 {
        (silence, silence)
    } else if channels == 1 {
        let mono = if frame < input.len() {
            input[frame]
        } else {
            silence
        };
        (mono, mono)
    } else {
        let base = frame * channels;
        let left = if base < input.len() {
            input[base]
        } else {
            silence
        };
        let right = if base + 1 < input.len() {
            input[base + 1]
        } else {
            silence
        };
        (left, right)
    }
}

/// What the block holds at `position` once the frame at `frame` is written:
/// the frame's first channel carries the left side, every other channel the
/// right, and slots past the end of the block are not written.
pub open spec fn written_frame<T>(
    before: Seq<T>,
    frame: int,
    channels: int,
    left: T,
    right: T,
    position: int,
) -> T {
    let base = frame * channels;
    if base <= position < base + channels {
        if position == base {
            left
        } else {
            right
        }
    } else {
        before[position]
    }
}

/// Writes a stereo frame into an interleaved block of `channels` channels.
pub fn write_frame<T: Copy>(output: &mut [T], frame: usize, channels: usize, left: T, right: T)
    requires
        frame * channels + channels <= usize::MAX,
    ensures
        final(output)@.len() == old(output)@.len(),
        forall|k: int|
            0 <= k < old(output)@.len() ==> #[trigger] final(output)@[k] == written_frame(
                old(output)@,
                frame as int,
                channels as int,
                left,
                right,
                k,
            ),
{
    let base = frame * channels;
    let mut channel: usize = 0;
    while channel < channels
        invariant
            base == frame * channels,
            base + channels <= usize::MAX,
            channel <= channels,
            output@.len() == old(output)@.len(),
            forall|k: int|
                0 <= k < output@.len() ==> #[trigger] output@[k] == if base <= k < base + channel {
                    if k == base {
                        left
                    } else {
                        right
                    }
                } else {
                    old(output)@[k]
                },
        decreases channels - channel,
    {
        let value = if channel == 0 {
            left
        } else {
            right
        };
        if base + channel < output.len() {
            output[base + channel] = value;
        }
        channel += 1;
    }
}

/// Sample-accurate automation: from `cursor`, the run of scheduled events
/// that fall on `frame`. Returns where the run ends; the events from
/// `cursor` up to it apply before the frame is processed. An event for any
/// other frame stops the run.
pub fn due_events(event_frames: &[u32], cursor: usize, frame: usize) -> (end: usize)
    requires
        cursor <= event_frames@.len(),
    ensures
        cursor <= end <= event_frames@.len(),
        forall|e: int| cursor <= e < end ==> #[trigger] event_frames@[e] == frame,
        end == event_frames@.len() || event_frames@[end as int] != frame,
{
    let mut end = cursor;
    while end < event_frames.len()
        invariant
            cursor <= end <= event_frames@.len(),
            forall|e: int| cursor <= e < end ==> #[trigger] event_frames@[e] == frame,
        ensures
            cursor <= end <= event_frames@.len(),
            forall|e: int| cursor <= e < end ==> #[trigger] event_frames@[e] == frame,
            end == event_frames@.len() || event_frames@[end as int] != frame,
        decreases event_frames@.len() - end,
    {
        if event_frames[end] as usize != frame {
            break;
        }
        end += 1;
    }
    end
}

} // verus!

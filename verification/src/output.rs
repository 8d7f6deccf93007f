//! From the registry to the buffer of the output device, one frame at a time.

use crate::concurrency::guarded;
use crate::concurrency::lock_for_writing;
use crate::dispatch::ManagerHandle;
use crate::sampler::within_mix_limit;
use crate::sampler::MixView;
use crate::sampler::MixedSample;
use crate::sampler::Sampler;
use vstd::prelude::*;

verus! {

/// What was agreed with the output device.
#[derive(Clone, Copy, Debug, PartialEq, Eq, Structural)]
pub struct OutputFormat {
    pub channels: u16,
    pub sample_rate: u32,
}

/// The values written to the device for one frame.
#[derive(Clone, Copy, Debug, PartialEq, Eq, Structural)]
pub enum Frame {
    /// One channel: the mean of left and right.
    Mono(i128),
    /// Two channels: left, then right.
    Stereo(i128, i128),
}

/// Why nothing, or not everything, was written to the device's buffer.
#[derive(Clone, Copy, Debug, PartialEq, Eq, Structural)]
pub enum OutputError {
    /// The device has a number of channels other than one or two.
    UnsupportedChannels(u16),
    /// The registry's lock is poisoned.
    Poisoned,
}

/// The mean of the two channels, rounded towards zero.
pub open spec fn average(left: int, right: int) -> int {
    if left + right >= 0 {
        (left + right) / 2
    } else {
        -((-(left + right)) / 2)
    }
}

/// The frame that a mixed sample becomes on a device with `channels` channels, if the
/// device is supported.
pub open spec fn frame_of(mixed: MixView, channels: u16) -> Option<Frame> {
    if channels == 1 {
        Some(Frame::Mono(average(mixed.left, mixed.right) as i128))
    } else if channels == 2 {
        Some(Frame::Stereo(mixed.left as i128, mixed.right as i128))
    } else {
        None
    }
}

/// Lays a mixed sample out for the device: one channel gets the mean of left and right,
/// two channels get left and right as they are, any other number of channels is refused.
pub fn frame_for(mixed: &MixedSample, channels: u16) -> (frame: Result<Frame, OutputError>)
    ensures
        frame == match frame_of(mixed@, channels) {
            Some(laid_out) => Ok::<Frame, OutputError>(laid_out),
            None => Err(OutputError::UnsupportedChannels(channels)),
        },
        channels == 1 ==> i128::MIN <= average(mixed@.left, mixed@.right) <= i128::MAX,
{
    if channels == 1 {
        let left: i128 = mixed.left();
        let right: i128 = mixed.right();
        let sum: i128 = left + right;
        if sum >= 0 {
            Ok(Frame::Mono(sum / 2))
        } else {
            Ok(Frame::Mono(-((-sum) / 2)))
        }
    } else if channels == 2 {
        Ok(Frame::Stereo(mixed.left(), mixed.right()))
    } else {
        Err(OutputError::UnsupportedChannels(channels))
    }
}

/// The buffer with `frame` written as its frame number `index`.
pub open spec fn with_frame(buffer: Seq<i128>, index: int, frame: Frame) -> Seq<i128> {
    match frame {
        Frame::Mono(value) => buffer.update(index, value),
        Frame::Stereo(left, right) => buffer.update(2 * index, left).update(2 * index + 1, right),
    }
}

/// Whether a buffer of `length` values has room for `frame` as its frame number `index`.
pub open spec fn has_room(length: int, index: int, frame: Frame) -> bool {
    match frame {
        Frame::Mono(_) => 0 <= index < length,
        Frame::Stereo(_, _) => 0 <= index && 2 * index + 1 < length,
    }
}

/// Writes `frame` into `buffer` as its frame number `index`; the rest of the buffer stays.
pub fn write_frame(buffer: &mut Vec<i128>, index: usize, frame: Frame)
    requires
        has_room(old(buffer)@.len() as int, index as int, frame),
    ensures
        final(buffer)@ == with_frame(old(buffer)@, index as int, frame),
{
    let length: usize = buffer.len();
    match frame {
        Frame::Mono(value) => {
            buffer[index] = value;
        },
        Frame::Stereo(left, right) => {
            assert(2 * index + 1 < length);
            buffer[2 * index] = left;
            buffer[2 * index + 1] = right;
        },
    }
}

/// Where the whole frames of a buffer of `length` values end, for one or two channels.
pub open spec fn whole_frames_end(length: int, channels: u16) -> int {
    if channels == 2 {
        2 * (length / 2)
    } else {
        length
    }
}

/// The buffer after the frames of `mixes` were written from its start, one after the
/// other, each laid out for `channels` channels.
pub open spec fn laid_out(buffer: Seq<i128>, mixes: Seq<MixView>, channels: u16) -> Seq<i128>
    decreases mixes.len(),
{
    if mixes.len() == 0 {
        buffer
    } else {
        with_frame(
            laid_out(buffer, mixes.drop_last(), channels),
            mixes.len() - 1,
            frame_of(mixes.last(), channels)->0,
        )
    }
}

/// Takes the next mixed sample from the registry: locks it, samples every voice once
/// by `Manager::sample_voices`, and releases it.
///
/// The calling thread must not hold the registry's lock.
pub fn next_sample<S: Sampler>(manager: &ManagerHandle<S>, format: &OutputFormat) -> (mixed: Result<
    MixedSample,
    OutputError,
>)
    ensures
        mixed matches Err(error) ==> error == OutputError::Poisoned,
        mixed matches Ok(sample) ==> within_mix_limit(sample@),
{
    match lock_for_writing(&**manager) {
        Ok(mut guard) => {
            let sample = guarded(&mut guard).sample_voices(format.sample_rate);
            proof {
                use_type_invariant(&sample);
            }
            Ok(sample)
        },
        Err(_) => Err(OutputError::Poisoned),
    }
}

/// Fills the device's buffer: for every whole frame that fits in it, takes the next
/// sample from the registry by `next_sample` and writes it by `frame_for` and
/// `write_frame`. The registry is locked once per frame, never across frames. A device
/// with an unsupported number of channels is refused before anything is written.
///
/// What the buffer holds afterwards is `laid_out` of the mixes that were taken, each
/// within `mix_limit`: one for every whole frame if all went well, and those taken
/// before the registry's lock was found poisoned if not. Whatever follows the frames
/// written is left as it was.
///
/// The calling thread must not hold the registry's lock.
pub fn copy_samples<S: Sampler>(
    manager: &ManagerHandle<S>,
    buffer: &mut Vec<i128>,
    format: &OutputFormat,
) -> (copied: Result<(), OutputError>)
    ensures
        final(buffer)@.len() == old(buffer)@.len(),
        format.channels != 1 && format.channels != 2 ==> copied == Err::<(), OutputError>(
            OutputError::UnsupportedChannels(format.channels),
        ) && final(buffer)@ == old(buffer)@,
        format.channels == 1 || format.channels == 2 ==> copied == Ok::<(), OutputError>(())
            || copied == Err::<(), OutputError>(OutputError::Poisoned),
        (format.channels == 1 || format.channels == 2) && old(buffer)@.len() < format.channels
            ==> copied == Ok::<(), OutputError>(()),
        format.channels == 1 || format.channels == 2 ==> exists|mixes: Seq<MixView>|
            {
                &&& #[trigger] laid_out(old(buffer)@, mixes, format.channels) == final(buffer)@
                &&& forall|i: int| 0 <= i < mixes.len() ==> within_mix_limit(#[trigger] mixes[i])
                &&& mixes.len() * format.channels <= old(buffer)@.len()
                &&& copied is Ok ==> mixes.len() * format.channels == whole_frames_end(
                    old(buffer)@.len() as int,
                    format.channels,
                )
            },
        forall|i: int|
            whole_frames_end(old(buffer)@.len() as int, format.channels) <= i < old(buffer)@.len()
                ==> final(buffer)@[i] == old(buffer)@[i],
{
    let channels: u16 = format.channels;
    if channels != 1 && channels != 2 {
        return Err(OutputError::UnsupportedChannels(channels));
    }
    let frames: usize = if channels == 1 {
        buffer.len()
    } else {
        buffer.len() / 2
    };
    let ghost mut mixes: Seq<MixView> = Seq::empty();
    let mut index: usize = 0;
    while index < frames
        invariant
            channels == format.channels,
            channels == 1 || channels == 2,
            buffer@.len() == old(buffer)@.len(),
            channels == 1 ==> frames == buffer@.len(),
            channels == 2 ==> frames == buffer@.len() as int / 2,
            index <= frames,
            mixes.len() == index,
            buffer@ == laid_out(old(buffer)@, mixes, channels),
            forall|i: int| 0 <= i < mixes.len() ==> within_mix_limit(#[trigger] mixes[i]),
            forall|i: int|
                whole_frames_end(buffer@.len() as int, channels) <= i < buffer@.len()
                    ==> buffer@[i] == old(buffer)@[i],
        decreases frames - index,
    {
        let mixed = match next_sample(manager, format) {
            Ok(mixed) => mixed,
            Err(_) => {
                proof {
                    assert(mixes.len() * channels == if channels == 1 {
                        mixes.len() as int
                    } else {
                        (2 * mixes.len()) as int
                    }) by (nonlinear_arith)
                        requires
                            channels == 1 || channels == 2,
                    ;
                }
                return Err(OutputError::Poisoned);
            },
        };
        match frame_for(&mixed, channels) {
            Ok(frame) => {
                write_frame(buffer, index, frame);
            },
            Err(error) => {
                return Err(error);
            },
        }
        proof {
            let ghost longer = mixes.push(mixed@);
            assert(longer.drop_last() =~= mixes);
            mixes = longer;
        }
        index = index + 1;
    }
    proof {
        assert(mixes.len() * channels == if channels == 1 {
            mixes.len() as int
        } else {
            (2 * mixes.len()) as int
        }) by (nonlinear_arith)
            requires
                channels == 1 || channels == 2,
        ;
    }
    Ok(())
}

} // verus!

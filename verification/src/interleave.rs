//! The frame-major layout of a sample buffer, and the way out of it.
//!
//! A buffer holds its frames one after the other, and each frame holds one
//! sample per channel: `LRLRLR..` for two channels. A native interface that
//! wants each channel in a buffer of its own is handed the samples of one
//! channel at a time.

use vstd::arithmetic::div_mod::lemma_fundamental_div_mod;
use vstd::prelude::*;

verus! {

/// The number of frames in an interleaved buffer.
pub open spec fn frame_count<T>(interleaved: Seq<T>, channels: int) -> int {
    interleaved.len() as int / channels
}

/// The samples of one channel of an interleaved buffer, in the order of the
/// frames.
pub open spec fn channel_of<T>(interleaved: Seq<T>, channels: int, channel: int) -> Seq<T> {
    Seq::new(
        frame_count(interleaved, channels) as nat,
        |frame: int| interleaved[frame * channels + channel],
    )
}

/// The place of a sample in an interleaved buffer lies within the buffer.
pub proof fn lemma_sample_in_buffer(len: int, channels: int, frame: int, channel: int)
    requires
        channels > 0,
        len >= 0,
        len % channels == 0,
        0 <= frame < len / channels,
        0 <= channel < channels,
    ensures
        0 <= frame * channels + channel < len,
{
    lemma_fundamental_div_mod(len, channels);
    let frames = len / channels;
    assert(frame * channels + channels <= frames * channels) by (nonlinear_arith)
        requires
            frame + 1 <= frames,
            channels > 0,
    ;
    assert(frames * channels == channels * frames) by (nonlinear_arith);
    assert(0 <= frame * channels) by (nonlinear_arith)
        requires
            0 <= frame,
            channels > 0,
    ;
}

/// Copies the samples of one channel out of an interleaved buffer into
/// `samples`, which takes the length of one channel.
pub fn channel_samples<T: Copy>(
    interleaved: &[T],
    channels_count: usize,
    channel_index: usize,
    samples: &mut Vec<T>,
)
    requires
        channels_count > 0,
        channel_index < channels_count,
        interleaved@.len() as int % channels_count as int == 0,
    ensures
        final(samples)@ == channel_of(interleaved@, channels_count as int, channel_index as int),
        final(samples)@.len() * channels_count == interleaved@.len(),
{
    samples.clear();
    let frames = interleaved.len() / channels_count;
    proof {
        lemma_fundamental_div_mod(interleaved@.len() as int, channels_count as int);
        assert(frames * channels_count == channels_count * frames) by (nonlinear_arith);
    }
    let mut frame: usize = 0;
    while frame < frames
        invariant
            channels_count > 0,
            channel_index < channels_count,
            interleaved@.len() as int % channels_count as int == 0,
            interleaved@.len() <= usize::MAX,
            frames as int == interleaved@.len() as int / channels_count as int,
            frame <= frames,
            samples@.len() == frame,
            forall|i: int|
                0 <= i < frame ==> samples@[i] == interleaved@[i * channels_count
                    + channel_index],
        decreases frames - frame,
    {
        proof {
            lemma_sample_in_buffer(
                interleaved@.len() as int,
                channels_count as int,
                frame as int,
                channel_index as int,
            );
        }
        samples.push(interleaved[frame * channels_count + channel_index]);
        frame += 1;
    }
    assert(samples@ =~= channel_of(interleaved@, channels_count as int, channel_index as int));
}

} // verus!

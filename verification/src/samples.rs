//! The sample buffer adapter: interleaved fixed-point samples in, one plane
//! of samples per channel out.
//!
//! The codec takes each channel as a run of its own, scaled to the unit
//! interval. Scaling is a division by [`FULL_SCALE`] in floating point and is
//! left to the driver; which sample goes where is decided here.

use crate::error::EncoderError;
use vstd::prelude::*;

verus! {

/// The divisor that takes a fixed-point sample to the unit interval: a sample
/// `s` stands for the value `s / FULL_SCALE`, which lies in `[-1, 1)`.
pub const FULL_SCALE: u16 = 32768;

/// The most frames the codec takes in one batch: its interface counts them in
/// a signed 32-bit integer.
pub const MAX_FRAMES: usize = 0x7fff_ffff;

/// Number of whole frames in `len` interleaved samples. A trailing frame that
/// lacks a sample for some channel does not count.
pub open spec fn frame_count(len: nat, channels: nat) -> nat {
    if channels == 0 {
        0
    } else {
        len / channels
    }
}

/// The samples of channel `c`, one per whole frame, in order of time.
pub open spec fn channel_plane(samples: Seq<i16>, channels: nat, c: nat) -> Seq<i16> {
    Seq::new(frame_count(samples.len(), channels), |i: int| samples[i * channels + c])
}

/// All planes of an interleaved batch, channel by channel.
pub open spec fn deinterleave(samples: Seq<i16>, channels: nat) -> Seq<Seq<i16>> {
    Seq::new(channels, |c: int| channel_plane(samples, channels, c as nat))
}

/// What a vector of planes holds.
pub open spec fn planes_view(planes: Vec<Vec<i16>>) -> Seq<Seq<i16>> {
    Seq::new(planes@.len(), |c: int| planes@[c]@)
}

/// Sample `c` of frame `i` lies within the batch.
pub proof fn lemma_frame_in_bounds(len: nat, channels: nat, i: nat, c: nat)
    requires
        c < channels,
        i < frame_count(len, channels),
    ensures
        i * channels + c < len,
        (i + 1) * channels <= len,
{
    let frames = len / channels;
    assert(frames * channels <= len) by (nonlinear_arith)
        requires
            frames == len / channels,
            channels > 0,
    ;
    assert((i + 1) * channels <= frames * channels) by (nonlinear_arith)
        requires
            i + 1 <= frames,
            channels > 0,
    ;
    assert((i + 1) * channels == i * channels + channels) by (nonlinear_arith);
}

/// Number of whole frames in a batch.
pub fn frames_in(len: usize, channels: usize) -> (frames: usize)
    ensures
        frames == frame_count(len as nat, channels as nat),
{
    if channels == 0 {
        0
    } else {
        len / channels
    }
}

/// Number of whole frames in a batch, where the codec can take that many at
/// once.
pub fn batch_frames(len: usize, channels: usize) -> (frames: Result<usize, EncoderError>)
    ensures
        frame_count(len as nat, channels as nat) <= MAX_FRAMES ==> frames == Ok::<
            usize,
            EncoderError,
        >(frame_count(len as nat, channels as nat) as usize),
        frame_count(len as nat, channels as nat) > MAX_FRAMES ==> frames == Err::<
            usize,
            EncoderError,
        >(EncoderError::BatchTooLarge),
{
    let frames: usize = frames_in(len, channels);
    if frames > MAX_FRAMES {
        Err(EncoderError::BatchTooLarge)
    } else {
        Ok(frames)
    }
}

/// Splits an interleaved batch into one plane per channel. Each plane holds
/// one sample per whole frame; samples of a trailing partial frame are left
/// out. With no channels there are no planes.
pub fn split_channels(samples: &[i16], channels: usize) -> (planes: Vec<Vec<i16>>)
    ensures
        planes_view(planes) == deinterleave(samples@, channels as nat),
{
    let len: usize = samples.len();
    let frames: usize = frames_in(len, channels);
    let mut planes: Vec<Vec<i16>> = Vec::new();
    let mut c: usize = 0;
    while c < channels
        invariant
            c <= channels,
            len == samples@.len(),
            frames == frame_count(len as nat, channels as nat),
            planes@.len() == c,
            forall|k: int|
                0 <= k < c ==> (#[trigger] planes@[k])@ == channel_plane(
                    samples@,
                    channels as nat,
                    k as nat,
                ),
        decreases channels - c,
    {
        let mut plane: Vec<i16> = Vec::new();
        let mut i: usize = 0;
        while i < frames
            invariant
                c < channels,
                i <= frames,
                len == samples@.len(),
                frames == frame_count(len as nat, channels as nat),
                plane@.len() == i,
                forall|j: int| 0 <= j < i ==> #[trigger] plane@[j] == samples@[j * channels + c],
            decreases frames - i,
        {
            proof {
                lemma_frame_in_bounds(len as nat, channels as nat, i as nat, c as nat);
            }
            let at: usize = i * channels + c;
            plane.push(samples[at]);
            i = i + 1;
        }
        assert(plane@ =~= channel_plane(samples@, channels as nat, c as nat));
        planes.push(plane);
        c = c + 1;
    }
    assert(planes_view(planes) =~= deinterleave(samples@, channels as nat));
    planes
}

/// Every sample lies within the full scale: divided by it, a sample is at
/// least -1 and less than 1.
pub proof fn lemma_sample_within_full_scale(sample: i16)
    ensures
        -(FULL_SCALE as int) <= sample < FULL_SCALE,
{
}

/// With one channel the only plane is the batch itself.
pub proof fn lemma_mono_plane_is_input(samples: Seq<i16>)
    ensures
        channel_plane(samples, 1, 0) == samples,
        deinterleave(samples, 1) == seq![samples],
{
    assert(channel_plane(samples, 1, 0) =~= samples);
    assert(deinterleave(samples, 1) =~= seq![samples]);
}

/// With two channels the first plane holds the samples at even positions and
/// the second plane those at odd positions.
pub proof fn lemma_stereo_planes(samples: Seq<i16>, i: int)
    requires
        0 <= i < samples.len() / 2,
    ensures
        channel_plane(samples, 2, 0).len() == samples.len() / 2,
        channel_plane(samples, 2, 1).len() == samples.len() / 2,
        channel_plane(samples, 2, 0)[i] == samples[2 * i],
        channel_plane(samples, 2, 1)[i] == samples[2 * i + 1],
{
}

/// A stereo batch whose samples at odd positions are all zero has a silent
/// second plane, and its first plane is the signal at the even positions.
pub proof fn lemma_stereo_silent_right(samples: Seq<i16>)
    requires
        forall|k: int| 0 <= k < samples.len() && k % 2 == 1 ==> samples[k] == 0,
    ensures
        forall|i: int|
            0 <= i < samples.len() / 2 ==> #[trigger] channel_plane(samples, 2, 1)[i] == 0,
        forall|i: int|
            0 <= i < samples.len() / 2 ==> #[trigger] channel_plane(samples, 2, 0)[i]
                == samples[2 * i],
{
    assert forall|i: int| 0 <= i < samples.len() / 2 implies #[trigger] channel_plane(
        samples,
        2,
        1,
    )[i] == 0 by {
        assert((2 * i + 1) % 2 == 1);
        assert(samples[i * 2 + 1] == 0);
    }
}

/// Splitting loses nothing but a trailing partial frame: every sample of a
/// whole frame is found in the plane of its channel, at the index of its
/// frame.
pub proof fn lemma_deinterleave_keeps_whole_frames(samples: Seq<i16>, channels: nat, k: int)
    requires
        channels > 0,
        0 <= k < frame_count(samples.len(), channels) * channels,
    ensures
        0 <= k % (channels as int) < channels,
        0 <= k / (channels as int) < frame_count(samples.len(), channels),
        deinterleave(samples, channels)[k % (channels as int)][k / (channels as int)]
            == samples[k],
{
    let n = channels as int;
    let frames = frame_count(samples.len(), channels) as int;
    assert(0 <= k % n < n && k == (k / n) * n + k % n && 0 <= k / n) by (nonlinear_arith)
        requires
            n > 0,
            k >= 0,
    ;
    assert(k / n < frames) by (nonlinear_arith)
        requires
            n > 0,
            0 <= k < frames * n,
    ;
}

} // verus!

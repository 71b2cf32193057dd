//! What the codec is asked to set itself up with.

use vstd::prelude::*;

verus! {

/// The bitrate bound that stands for "no bound".
pub const UNCONSTRAINED: i64 = -1;

/// Key of the comment that names the encoder in the stream's comment header.
pub const COMMENT_TAG: &'static str = "ENCODER";

/// Value of the comment that names the encoder.
pub const COMMENT_VALUE: &'static str = "vorbis_enc.rs";

/// A quality target for variable bitrate encoding, held as the bit pattern of
/// a single-precision floating point scalar. The codec documents the range
/// from 0.0 to 1.0; other values are handed on as they are.
#[derive(Clone, Copy, Debug, PartialEq, Eq, Structural)]
pub struct Quality {
    pub bits: u32,
}

/// One of the two ways to configure the codec.
#[derive(Clone, Copy, Debug, PartialEq, Eq, Structural)]
pub enum CodecSetup {
    /// A nominal bitrate with optional bounds; a missing bound is
    /// [`UNCONSTRAINED`].
    Managed {
        channels: i64,
        sample_rate: i64,
        max_bitrate: i64,
        nominal_bitrate: i64,
        min_bitrate: i64,
    },
    /// Variable bitrate at a quality target.
    Vbr { channels: i64, sample_rate: i64, quality: Quality },
}

/// The channel counts an encoder takes: mono and stereo.
pub open spec fn supported_channels(channels: usize) -> bool {
    channels == 1 || channels == 2
}

/// A bound as the codec takes it.
pub open spec fn bound_value(bound: Option<u32>) -> i64 {
    match bound {
        Some(rate) => rate as i64,
        None => UNCONSTRAINED,
    }
}

/// A bound as the codec takes it: the rate itself, or [`UNCONSTRAINED`] where
/// there is none.
pub fn bitrate_bound(bound: Option<u32>) -> (value: i64)
    ensures
        value == bound_value(bound),
        bound matches Some(rate) ==> value == rate,
        bound is None ==> value == -1,
{
    match bound {
        Some(rate) => rate as i64,
        None => UNCONSTRAINED,
    }
}

impl CodecSetup {
    /// The setup for a nominal bitrate, or nothing where the channel count is
    /// not supported.
    pub open spec fn managed_spec(
        channels: usize,
        sample_rate: u32,
        nominal_bitrate: u32,
        min_bitrate: Option<u32>,
        max_bitrate: Option<u32>,
    ) -> Option<CodecSetup> {
        if supported_channels(channels) {
            Some(
                CodecSetup::Managed {
                    channels: channels as i64,
                    sample_rate: sample_rate as i64,
                    max_bitrate: bound_value(max_bitrate),
                    nominal_bitrate: nominal_bitrate as i64,
                    min_bitrate: bound_value(min_bitrate),
                },
            )
        } else {
            None
        }
    }

    /// The setup for a quality target, or nothing where the channel count is
    /// not supported.
    pub open spec fn vbr_spec(channels: usize, sample_rate: u32, quality: Quality) -> Option<
        CodecSetup,
    > {
        if supported_channels(channels) {
            Some(
                CodecSetup::Vbr {
                    channels: channels as i64,
                    sample_rate: sample_rate as i64,
                    quality,
                },
            )
        } else {
            None
        }
    }

    /// The channel count of a setup.
    pub open spec fn channel_count(self) -> i64 {
        match self {
            CodecSetup::Managed { channels, .. } => channels,
            CodecSetup::Vbr { channels, .. } => channels,
        }
    }

    /// Builds the setup for a nominal bitrate with optional bounds.
    pub fn managed(
        channels: usize,
        sample_rate: u32,
        nominal_bitrate: u32,
        min_bitrate: Option<u32>,
        max_bitrate: Option<u32>,
    ) -> (setup: Option<CodecSetup>)
        ensures
            setup == Self::managed_spec(
                channels,
                sample_rate,
                nominal_bitrate,
                min_bitrate,
                max_bitrate,
            ),
    {
        if channels == 1 || channels == 2 {
            Some(
                CodecSetup::Managed {
                    channels: channels as i64,
                    sample_rate: sample_rate as i64,
                    max_bitrate: bitrate_bound(max_bitrate),
                    nominal_bitrate: nominal_bitrate as i64,
                    min_bitrate: bitrate_bound(min_bitrate),
                },
            )
        } else {
            None
        }
    }

    /// Builds the setup for variable bitrate encoding at a quality target.
    pub fn vbr(channels: usize, sample_rate: u32, quality: Quality) -> (setup: Option<CodecSetup>)
        ensures
            setup == Self::vbr_spec(channels, sample_rate, quality),
    {
        if channels == 1 || channels == 2 {
            Some(
                CodecSetup::Vbr {
                    channels: channels as i64,
                    sample_rate: sample_rate as i64,
                    quality,
                },
            )
        } else {
            None
        }
    }
}

} // verus!

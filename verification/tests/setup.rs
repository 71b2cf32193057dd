use vorbis_enc::setup::{
    bitrate_bound, CodecSetup, Quality, COMMENT_TAG, COMMENT_VALUE, UNCONSTRAINED,
};

#[test]
fn missing_bound_is_unconstrained() {
    assert_eq!(UNCONSTRAINED, -1);
    assert_eq!(bitrate_bound(None), -1);
}

#[test]
fn bound_is_the_rate_itself() {
    assert_eq!(bitrate_bound(Some(0)), 0);
    assert_eq!(bitrate_bound(Some(128000)), 128000);
    assert_eq!(bitrate_bound(Some(u32::MAX)), 4294967295);
}

#[test]
fn managed_setup_holds_the_arguments() {
    assert_eq!(
        CodecSetup::managed(2, 44100, 128000, Some(64000), Some(192000)),
        Some(CodecSetup::Managed {
            channels: 2,
            sample_rate: 44100,
            max_bitrate: 192000,
            nominal_bitrate: 128000,
            min_bitrate: 64000,
        })
    );
    assert_eq!(
        CodecSetup::managed(1, u32::MAX, u32::MAX, None, None),
        Some(CodecSetup::Managed {
            channels: 1,
            sample_rate: 4294967295,
            max_bitrate: -1,
            nominal_bitrate: 4294967295,
            min_bitrate: -1,
        })
    );
}

#[test]
fn vbr_setup_holds_the_arguments() {
    let quality = Quality { bits: 0.2f32.to_bits() };
    assert_eq!(
        CodecSetup::vbr(1, 48000, quality),
        Some(CodecSetup::Vbr { channels: 1, sample_rate: 48000, quality })
    );
    let odd = Quality { bits: (-3.5f32).to_bits() };
    assert_eq!(
        CodecSetup::vbr(2, 22050, odd),
        Some(CodecSetup::Vbr { channels: 2, sample_rate: 22050, quality: odd })
    );
}

#[test]
fn no_setup_for_other_channel_counts() {
    assert_eq!(CodecSetup::managed(0, 44100, 128000, None, None), None);
    assert_eq!(CodecSetup::managed(3, 44100, 128000, None, None), None);
    assert_eq!(CodecSetup::vbr(0, 44100, Quality { bits: 0 }), None);
    assert_eq!(CodecSetup::vbr(usize::MAX, 44100, Quality { bits: 0 }), None);
}

#[test]
fn encoder_comment() {
    assert_eq!(COMMENT_TAG, "ENCODER");
    assert_eq!(COMMENT_VALUE, "vorbis_enc.rs");
}

use vorbis_enc::encoder::OggVorbisEncoder;
use vorbis_enc::error::EncoderError;
use vorbis_enc::model::{EncoderState, Phase};
use vorbis_enc::protocol::{Reply, Request};
use vorbis_enc::setup::{CodecSetup, Quality};

fn initialized(serial: u32, channels: usize) -> OggVorbisEncoder {
    let mut encoder = OggVorbisEncoder::with_serial(serial);
    assert!(matches!(
        encoder.initialize(channels, 44100, 128000, None, None),
        Ok(Request::Configure(_))
    ));
    assert!(matches!(
        encoder.resume(Reply::Configured { code: 0 }),
        Ok(Request::OpenStream { .. })
    ));
    assert!(matches!(
        encoder.resume(Reply::Completed),
        Ok(Request::NextPage { forced: true })
    ));
    assert!(matches!(encoder.resume(Reply::Page(None)), Ok(Request::Finished)));
    encoder
}

fn closed(serial: u32) -> OggVorbisEncoder {
    let mut encoder = initialized(serial, 1);
    assert!(matches!(encoder.close(), Ok(Request::EndOfInput)));
    assert!(matches!(encoder.resume(Reply::Completed), Ok(Request::NextBlock)));
    assert!(matches!(
        encoder.resume(Reply::Block { code: 0 }),
        Ok(Request::Finished)
    ));
    encoder
}

#[test]
fn new_encoder_is_created_and_empty() {
    let encoder = OggVorbisEncoder::with_serial(42);
    assert_eq!(encoder.state(), EncoderState::Created);
    assert_eq!(encoder.phase(), Phase::Idle);
    assert_eq!(encoder.serial(), 42);
    assert_eq!(encoder.len(), 0);
}

#[test]
fn write_before_initialize_is_refused() {
    let mut encoder = OggVorbisEncoder::with_serial(7);
    let answer = encoder.write_samples(&[1, 2, 3]);
    assert!(matches!(answer, Err(EncoderError::NotInitialized)));
    assert_eq!(encoder.len(), 0);
    assert_eq!(encoder.state(), EncoderState::Created);
    assert_eq!(encoder.phase(), Phase::Idle);
}

#[test]
fn close_before_initialize_is_refused() {
    let mut encoder = OggVorbisEncoder::with_serial(7);
    assert!(matches!(encoder.close(), Err(EncoderError::NotInitialized)));
    assert_eq!(encoder.state(), EncoderState::Created);
    assert_eq!(encoder.len(), 0);
}

#[test]
fn initialize_asks_for_the_managed_setup() {
    let mut encoder = OggVorbisEncoder::with_serial(7);
    match encoder.initialize(2, 44100, 128000, Some(96000), None) {
        Ok(Request::Configure(setup)) => assert_eq!(
            setup,
            CodecSetup::Managed {
                channels: 2,
                sample_rate: 44100,
                max_bitrate: -1,
                nominal_bitrate: 128000,
                min_bitrate: 96000,
            }
        ),
        other => panic!("unexpected answer {:?}", other),
    }
    assert_eq!(encoder.state(), EncoderState::Created);
    assert_eq!(encoder.phase(), Phase::Configuring { channels: 2 });
}

#[test]
fn initialize_with_vbr_asks_for_the_quality_setup() {
    let quality = Quality { bits: 0.2f32.to_bits() };
    let mut encoder = OggVorbisEncoder::with_serial(7);
    match encoder.initialize_with_vbr(1, 48000, quality) {
        Ok(Request::Configure(setup)) => assert_eq!(
            setup,
            CodecSetup::Vbr { channels: 1, sample_rate: 48000, quality }
        ),
        other => panic!("unexpected answer {:?}", other),
    }
    assert_eq!(f32::from_bits(quality.bits), 0.2f32);
}

#[test]
fn initialize_refuses_other_channel_counts() {
    for channels in [0usize, 3, 6, 255, usize::MAX] {
        let mut encoder = OggVorbisEncoder::with_serial(7);
        assert!(matches!(
            encoder.initialize(channels, 44100, 128000, None, None),
            Err(EncoderError::UnsupportedChannels)
        ));
        assert!(matches!(
            encoder.initialize_with_vbr(channels, 44100, Quality { bits: 0 }),
            Err(EncoderError::UnsupportedChannels)
        ));
        assert_eq!(encoder.state(), EncoderState::Created);
        assert_eq!(encoder.phase(), Phase::Idle);
    }
}

#[test]
fn stream_is_initialized_once_the_codec_accepts() {
    let mut encoder = OggVorbisEncoder::with_serial(99);
    assert!(encoder.initialize(1, 8000, 32000, None, None).is_ok());
    assert_eq!(encoder.state(), EncoderState::Created);
    match encoder.resume(Reply::Configured { code: 0 }) {
        Ok(Request::OpenStream { serial }) => assert_eq!(serial, 99),
        other => panic!("unexpected answer {:?}", other),
    }
    assert_eq!(encoder.state(), EncoderState::Initialized);
    assert_eq!(encoder.phase(), Phase::Opening);
}

#[test]
fn codec_rejection_is_reported_and_leaves_the_stream_created() {
    let mut encoder = OggVorbisEncoder::with_serial(7);
    assert!(encoder.initialize(2, 1, 1, None, None).is_ok());
    assert!(matches!(
        encoder.resume(Reply::Configured { code: -131 }),
        Err(EncoderError::CodecRejected(-131))
    ));
    assert_eq!(encoder.state(), EncoderState::Created);
    assert_eq!(encoder.phase(), Phase::Idle);
    assert_eq!(encoder.len(), 0);
    assert!(matches!(
        encoder.write_samples(&[0, 0]),
        Err(EncoderError::NotInitialized)
    ));
    assert!(matches!(
        encoder.initialize(2, 44100, 128000, None, None),
        Ok(Request::Configure(_))
    ));
}

#[test]
fn second_initialize_is_refused() {
    let mut encoder = initialized(7, 2);
    assert!(matches!(
        encoder.initialize(2, 44100, 128000, None, None),
        Err(EncoderError::AlreadyInitialized)
    ));
    assert!(matches!(
        encoder.initialize_with_vbr(2, 44100, Quality { bits: 0 }),
        Err(EncoderError::AlreadyInitialized)
    ));
    assert_eq!(encoder.state(), EncoderState::Initialized);
    assert_eq!(encoder.phase(), Phase::Idle);
}

#[test]
fn close_moves_to_closed() {
    let mut encoder = initialized(7, 2);
    assert!(matches!(encoder.close(), Ok(Request::EndOfInput)));
    assert_eq!(encoder.state(), EncoderState::Closed);
    assert_eq!(encoder.phase(), Phase::Submitting);
}

#[test]
fn second_close_is_refused() {
    let mut encoder = closed(7);
    assert_eq!(encoder.state(), EncoderState::Closed);
    assert!(matches!(encoder.close(), Err(EncoderError::AlreadyClosed)));
    assert_eq!(encoder.state(), EncoderState::Closed);
}

#[test]
fn every_operation_after_close_is_refused() {
    let mut encoder = closed(7);
    let before = encoder.len();
    assert!(matches!(
        encoder.initialize(1, 44100, 128000, None, None),
        Err(EncoderError::AlreadyClosed)
    ));
    assert!(matches!(
        encoder.initialize_with_vbr(1, 44100, Quality { bits: 0 }),
        Err(EncoderError::AlreadyClosed)
    ));
    assert!(matches!(
        encoder.write_samples(&[5, 6, 7]),
        Err(EncoderError::AlreadyClosed)
    ));
    assert!(matches!(encoder.close(), Err(EncoderError::AlreadyClosed)));
    assert!(matches!(
        encoder.resume(Reply::Completed),
        Err(EncoderError::OutOfTurn)
    ));
    assert_eq!(encoder.state(), EncoderState::Closed);
    assert_eq!(encoder.phase(), Phase::Idle);
    assert_eq!(encoder.len(), before);
}

#[test]
fn operations_are_refused_while_closing() {
    let mut encoder = initialized(7, 1);
    assert!(encoder.close().is_ok());
    assert!(matches!(
        encoder.write_samples(&[1]),
        Err(EncoderError::AlreadyClosed)
    ));
    assert!(matches!(encoder.close(), Err(EncoderError::AlreadyClosed)));
    assert_eq!(encoder.phase(), Phase::Submitting);
}

#[test]
fn calls_out_of_turn_change_nothing() {
    let mut encoder = OggVorbisEncoder::with_serial(7);
    assert!(matches!(
        encoder.resume(Reply::Completed),
        Err(EncoderError::OutOfTurn)
    ));
    assert!(encoder.initialize(1, 44100, 128000, None, None).is_ok());
    assert!(matches!(
        encoder.initialize(1, 44100, 128000, None, None),
        Err(EncoderError::OutOfTurn)
    ));
    assert!(matches!(
        encoder.resume(Reply::Block { code: 1 }),
        Err(EncoderError::OutOfTurn)
    ));
    assert_eq!(encoder.phase(), Phase::Configuring { channels: 1 });

    let mut encoder = initialized(7, 1);
    assert!(matches!(
        encoder.write_samples(&[1, 2]),
        Ok(Request::Submit { .. })
    ));
    assert!(matches!(
        encoder.write_samples(&[1, 2]),
        Err(EncoderError::OutOfTurn)
    ));
    assert!(matches!(encoder.close(), Err(EncoderError::OutOfTurn)));
    assert!(matches!(
        encoder.resume(Reply::Written { ok: true }),
        Err(EncoderError::OutOfTurn)
    ));
    assert_eq!(encoder.state(), EncoderState::Initialized);
    assert_eq!(encoder.phase(), Phase::Submitting);
}

#[test]
fn lifecycle_errors_are_told_apart() {
    assert!(EncoderError::NotInitialized.lifecycle());
    assert!(EncoderError::AlreadyInitialized.lifecycle());
    assert!(EncoderError::AlreadyClosed.lifecycle());
    assert!(!EncoderError::UnsupportedChannels.lifecycle());
    assert!(!EncoderError::CodecRejected(-1).lifecycle());
    assert!(!EncoderError::BatchTooLarge.lifecycle());
    assert!(!EncoderError::Io.lifecycle());
    assert!(!EncoderError::ByteCountOverflow.lifecycle());
    assert!(!EncoderError::OutOfTurn.lifecycle());
}

#[test]
fn messages_name_the_violation() {
    assert_eq!(
        EncoderError::NotInitialized.message(),
        "Audio stream not initialized."
    );
    assert_eq!(
        EncoderError::AlreadyInitialized.message(),
        "Audio stream already initialized."
    );
    assert_eq!(
        EncoderError::AlreadyClosed.message(),
        "Audio stream already closed."
    );
    assert_eq!(
        EncoderError::UnsupportedChannels.message(),
        "Unsupported channel count."
    );
    assert_eq!(
        EncoderError::CodecRejected(-130).message(),
        "Codec rejected the configuration."
    );
    assert_eq!(EncoderError::BatchTooLarge.message(), "Audio batch too large.");
    assert_eq!(EncoderError::Io.message(), "Audio stream could not be written.");
    assert_eq!(
        EncoderError::ByteCountOverflow.message(),
        "Audio stream too large."
    );
    assert_eq!(
        EncoderError::OutOfTurn.message(),
        "Audio stream operation out of turn."
    );
}

#[test]
fn random_identities_differ() {
    let a = OggVorbisEncoder::new();
    let b = OggVorbisEncoder::new();
    let c = OggVorbisEncoder::new();
    assert_eq!(a.state(), EncoderState::Created);
    assert_eq!(a.len(), 0);
    assert!(a.serial() != b.serial() || b.serial() != c.serial());
}

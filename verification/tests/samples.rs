use vorbis_enc::error::EncoderError;
use vorbis_enc::samples::{batch_frames, frames_in, split_channels, FULL_SCALE, MAX_FRAMES};

#[test]
fn mono_copies_the_batch() {
    let samples: Vec<i16> = vec![0, 1, -1, 32767, -32768, 12345];
    assert_eq!(split_channels(&samples, 1), vec![samples.clone()]);
}

#[test]
fn stereo_splits_even_and_odd() {
    let samples: Vec<i16> = vec![10, -10, 20, -20, 30, -30];
    assert_eq!(
        split_channels(&samples, 2),
        vec![vec![10, 20, 30], vec![-10, -20, -30]]
    );
}

#[test]
fn stereo_drops_a_trailing_half_frame() {
    let samples: Vec<i16> = vec![1, 2, 3, 4, 5];
    assert_eq!(split_channels(&samples, 2), vec![vec![1, 3], vec![2, 4]]);
    assert_eq!(frames_in(5, 2), 2);
}

#[test]
fn stereo_with_silent_right_channel() {
    let mut samples: Vec<i16> = Vec::new();
    for i in 0..100i16 {
        samples.push(i * 300 - 15000);
        samples.push(0);
    }
    let planes = split_channels(&samples, 2);
    assert_eq!(planes.len(), 2);
    assert_eq!(planes[1], vec![0i16; 100]);
    for i in 0..100usize {
        assert_eq!(planes[0][i], samples[2 * i]);
    }
}

#[test]
fn three_channels_split_by_position() {
    let samples: Vec<i16> = vec![1, 2, 3, 4, 5, 6, 7];
    assert_eq!(
        split_channels(&samples, 3),
        vec![vec![1, 4], vec![2, 5], vec![3, 6]]
    );
}

#[test]
fn no_channels_no_planes() {
    let samples: Vec<i16> = vec![1, 2, 3];
    assert_eq!(split_channels(&samples, 0), Vec::<Vec<i16>>::new());
    assert_eq!(frames_in(3, 0), 0);
}

#[test]
fn empty_batch_gives_empty_planes() {
    let samples: Vec<i16> = Vec::new();
    assert_eq!(split_channels(&samples, 1), vec![Vec::<i16>::new()]);
    assert_eq!(
        split_channels(&samples, 2),
        vec![Vec::<i16>::new(), Vec::<i16>::new()]
    );
}

#[test]
fn fewer_samples_than_channels() {
    let samples: Vec<i16> = vec![9];
    assert_eq!(
        split_channels(&samples, 2),
        vec![Vec::<i16>::new(), Vec::<i16>::new()]
    );
}

#[test]
fn frame_counts() {
    assert_eq!(frames_in(32559, 1), 32559);
    assert_eq!(frames_in(32559, 2), 16279);
    assert_eq!(frames_in(0, 2), 0);
    assert_eq!(frames_in(usize::MAX, 1), usize::MAX);
}

#[test]
fn most_frames_is_the_largest_signed_count() {
    assert_eq!(MAX_FRAMES, 2147483647);
    assert_eq!(MAX_FRAMES, i32::MAX as usize);
}

#[test]
fn batch_within_the_codec_limit() {
    assert_eq!(batch_frames(0, 1), Ok(0));
    assert_eq!(batch_frames(32559, 1), Ok(32559));
    assert_eq!(batch_frames(32559, 2), Ok(16279));
    assert_eq!(batch_frames(2147483647, 1), Ok(2147483647));
    assert_eq!(batch_frames(4294967295, 2), Ok(2147483647));
    assert_eq!(batch_frames(usize::MAX, 0), Ok(0));
}

#[test]
fn batch_beyond_the_codec_limit_is_refused() {
    assert_eq!(batch_frames(2147483648, 1), Err(EncoderError::BatchTooLarge));
    assert_eq!(batch_frames(4294967296, 2), Err(EncoderError::BatchTooLarge));
    assert_eq!(batch_frames(usize::MAX, 1), Err(EncoderError::BatchTooLarge));
    assert_eq!(batch_frames(usize::MAX, 2), Err(EncoderError::BatchTooLarge));
}

#[test]
fn full_scale_takes_samples_to_the_unit_interval() {
    assert_eq!(FULL_SCALE, 32768);
    assert_eq!(i16::MIN as f32 / FULL_SCALE as f32, -1.0);
    assert_eq!(0i16 as f32 / FULL_SCALE as f32, 0.0);
    assert_eq!(16384i16 as f32 / FULL_SCALE as f32, 0.5);
    assert!((i16::MAX as f32 / FULL_SCALE as f32) < 1.0);
}

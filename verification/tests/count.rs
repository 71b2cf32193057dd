use vorbis_enc::error::EncoderError;
use vorbis_enc::model::count_after;

#[test]
fn count_grows_by_the_page() {
    assert_eq!(count_after(0, 0), Ok(0));
    assert_eq!(count_after(58, 269), Ok(327));
    assert_eq!(count_after(usize::MAX - 30, 30), Ok(usize::MAX));
    assert_eq!(count_after(0, usize::MAX), Ok(usize::MAX));
}

#[test]
fn count_beyond_the_largest_is_refused() {
    assert_eq!(count_after(usize::MAX, 1), Err(EncoderError::ByteCountOverflow));
    assert_eq!(count_after(usize::MAX - 29, 30), Err(EncoderError::ByteCountOverflow));
    assert_eq!(count_after(usize::MAX, usize::MAX), Err(EncoderError::ByteCountOverflow));
}

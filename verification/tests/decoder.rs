use music_player::decoder::{judge, Attempt, Verdict};
use music_player::error::DecodeError;

#[test]
fn block_is_served_at_any_time() {
    assert_eq!(judge(true, Attempt::Block), Verdict::Serve);
    assert_eq!(judge(false, Attempt::Block), Verdict::Serve);
}

#[test]
fn leading_data_that_is_no_audio_is_skipped() {
    assert_eq!(judge(true, Attempt::Malformed), Verdict::Retry);
}

#[test]
fn malformed_data_in_mid_stream_is_corrupt() {
    assert_eq!(
        judge(false, Attempt::Malformed),
        Verdict::Fail(DecodeError::Corrupt)
    );
}

#[test]
fn file_without_audio_is_unsupported() {
    assert_eq!(
        judge(true, Attempt::Exhausted),
        Verdict::Fail(DecodeError::UnsupportedFormat)
    );
}

#[test]
fn end_of_file_after_audio_ends_the_stream() {
    assert_eq!(judge(false, Attempt::Exhausted), Verdict::End);
}

#[test]
fn unreadable_file_is_not_found_while_opening() {
    assert_eq!(
        judge(true, Attempt::ReadFailed),
        Verdict::Fail(DecodeError::NotFound)
    );
}

#[test]
fn read_failure_in_mid_stream_is_corrupt() {
    assert_eq!(
        judge(false, Attempt::ReadFailed),
        Verdict::Fail(DecodeError::Corrupt)
    );
}

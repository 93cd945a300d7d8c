use micwav::format::CaptureError;
use micwav::transcript::should_delete_recording;
use micwav::transcript::transcript_text;

#[test]
fn successful_transcription_yields_exactly_the_service_text() {
    let r = transcript_text(Ok(String::from("hello world")));
    assert_eq!(r, Ok(String::from("hello world")));
    // Only on this success path is the temporary recording deleted.
    assert!(should_delete_recording(&r));
}

#[test]
fn failed_transcription_is_fatal_and_leaves_the_file_behind() {
    let r = transcript_text(Err(String::from("connection refused")));
    assert_eq!(r, Err(CaptureError::TranscriptionFailed));
    // The known leak: the temporary file is not deleted on failure.
    assert!(!should_delete_recording(&r));
}

#[test]
fn empty_transcript_is_still_a_success() {
    let r = transcript_text(Ok(String::new()));
    assert_eq!(r, Ok(String::new()));
    assert!(should_delete_recording(&r));
}

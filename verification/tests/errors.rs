use video_transcriber::error::{Error, ErrorKind, Stage, StageError};

#[test]
fn download_error_message_has_prefix_and_detail() {
    let e = Error::DownloadError("Download timed out".to_string());
    assert_eq!(e.message(), "Error Downlaoding Audio: Download timed out");
    assert_eq!(e.detail(), "Download timed out");
}

#[test]
fn transcribe_error_message_has_prefix_and_detail() {
    let e = Error::TranscribeError("bad audio".to_string());
    assert_eq!(e.message(), "Error Trascribing Audio: bad audio");
    assert_eq!(e.detail(), "bad audio");
}

#[test]
fn error_with_empty_detail_is_its_prefix() {
    assert_eq!(Error::DownloadError(String::new()).message(), "Error Downlaoding Audio: ");
}

#[test]
fn duplicates_are_equal() {
    let e = Error::TranscribeError("bad audio".to_string());
    assert_eq!(e.duplicate(), e);
    let failure = StageError { stage: Stage::Transcription, kind: ErrorKind::JobFailed, error: e };
    assert_eq!(failure.duplicate(), failure);
}

#[test]
fn stages_have_names() {
    assert_eq!(Stage::Lookup.name(), "lookup");
    assert_eq!(Stage::Conversion.name(), "conversion");
    assert_eq!(Stage::Transcription.name(), "transcription");
}

use video_transcriber::downloader::YoutubeVideo;
use video_transcriber::error::{Error, ErrorKind, Stage, StageError};
use video_transcriber::job::JobAction;
use video_transcriber::pipeline::{Config, Pipeline, PipelineAction};
use video_transcriber::transcriber::{
    AssemblyAiTranscriber, SubmitReply, TranscribeResponse, Transcriber,
};

fn config() -> Config {
    Config {
        google_api_key: "g-key".to_string(),
        rapid_api_key: "r-key".to_string(),
        channel: "UC123".to_string(),
        assembly_ai_key: "a-key".to_string(),
        max_timeout: 1200,
    }
}

fn found() -> Result<String, String> {
    Ok(r#"{"items":[{"id":{"videoId":"abc123"}}]}"#.to_string())
}

fn transcript(status: &str, text: Option<&str>, error: Option<&str>) -> TranscribeResponse {
    TranscribeResponse {
        id: "tr-1".to_string(),
        status: Some(status.to_string()),
        text: text.map(str::to_string),
        error: error.map(str::to_string),
    }
}

#[test]
fn pipeline_starts_with_the_lookup() {
    match Pipeline::new(&config()).next() {
        PipelineAction::Locate(request) => assert_eq!(
            request.url,
            "https://www.googleapis.com/youtube/v3/search?key=g-key&channelId=UC123&part=snippet%2Cid&order=date&maxResults=1"
        ),
        other => panic!("expected the lookup, got {:?}", other),
    }
}

#[test]
fn empty_lookup_fails_the_pipeline_before_any_other_call() {
    let pipeline = Pipeline::new(&config()).located(Ok(r#"{"items":[]}"#.to_string()));
    let expected = || StageError {
        stage: Stage::Lookup,
        kind: ErrorKind::Lookup,
        error: Error::DownloadError("No video id found".to_string()),
    };
    assert_eq!(pipeline.next(), PipelineAction::Finish(Err(expected())));
    let later = pipeline
        .located(found())
        .converted(Ok("https://cdn.example/a.mp3".to_string()))
        .transcribed(Ok("hello".to_string()));
    match later.next() {
        PipelineAction::Finish(Err(failure)) => {
            assert_eq!(failure.stage.name(), "lookup");
            assert_eq!(failure, expected());
        }
        other => panic!("expected the lookup's failure, got {:?}", other),
    }
}

#[test]
fn pipeline_runs_its_stages_in_order() {
    let pipeline = Pipeline::new(&config()).located(found());
    assert_eq!(
        pipeline.next(),
        PipelineAction::Convert(YoutubeVideo::new("abc123", "r-key").create_download_link())
    );
    let pipeline = pipeline.transcribed(Ok("too early".to_string()));
    assert_eq!(
        pipeline.next(),
        PipelineAction::Convert(YoutubeVideo::new("abc123", "r-key").create_download_link())
    );
    let pipeline = pipeline.converted(Ok("https://cdn.example/a.mp3".to_string()));
    assert_eq!(
        pipeline.next(),
        PipelineAction::Transcribe(
            AssemblyAiTranscriber::new("a-key", 1200).transcribe("https://cdn.example/a.mp3")
        )
    );
    let pipeline = pipeline.located(found()).converted(Ok("another link".to_string()));
    assert_eq!(
        pipeline.next(),
        PipelineAction::Transcribe(
            AssemblyAiTranscriber::new("a-key", 1200).transcribe("https://cdn.example/a.mp3")
        )
    );
    let pipeline = pipeline.transcribed(Ok("hello world".to_string()));
    assert_eq!(pipeline.next(), PipelineAction::Finish(Ok("hello world".to_string())));
    let pipeline = pipeline.transcribed(Ok("something else".to_string()));
    assert_eq!(pipeline.next(), PipelineAction::Finish(Ok("hello world".to_string())));
}

#[test]
fn failed_conversion_ends_the_pipeline() {
    let failure = || StageError {
        stage: Stage::Conversion,
        kind: ErrorKind::Timeout,
        error: Error::DownloadError("Download timed out".to_string()),
    };
    let pipeline = Pipeline::new(&config()).located(found()).converted(Err(failure()));
    assert_eq!(pipeline.next(), PipelineAction::Finish(Err(failure())));
    let pipeline = pipeline.transcribed(Ok("hello".to_string()));
    assert_eq!(pipeline.next(), PipelineAction::Finish(Err(failure())));
}

/// Runs the whole pipeline against replies made up on the spot and counts
/// the requests that it asks for.
fn run(
    lookup: &str,
    conversion_statuses: &[&str],
    transcription_statuses: &[TranscribeResponse],
) -> (Result<String, StageError>, [usize; 5]) {
    let mut calls = [0usize; 5];
    let mut pipeline = Pipeline::new(&config());
    loop {
        match pipeline.next() {
            PipelineAction::Locate(_) => {
                calls[0] += 1;
                pipeline = pipeline.located(Ok(lookup.to_string()));
            }
            PipelineAction::Convert(mut job) => {
                let mut now = 0u64;
                let result = loop {
                    match job.next(now) {
                        JobAction::Submit(_) => {
                            calls[1] += 1;
                            job = job.on_submit(Ok(r#"{"guid":"job-1"}"#.to_string()), now);
                        }
                        JobAction::Wait(time) => now += time,
                        JobAction::Poll(_) => {
                            let reply = conversion_statuses[calls[2]];
                            calls[2] += 1;
                            job = job.on_status(Ok(reply.to_string()), now);
                        }
                        JobAction::Finish(result) => break result,
                    }
                };
                pipeline = pipeline.converted(result);
            }
            PipelineAction::Transcribe(mut job) => {
                let mut now = 0u64;
                let result = loop {
                    match job.next(now) {
                        JobAction::Submit(_) => {
                            calls[3] += 1;
                            job = job.on_submit(
                                SubmitReply::Accepted(Ok(transcript("queued", None, None))),
                                now,
                            );
                        }
                        JobAction::Wait(time) => now += time,
                        JobAction::Poll(_) => {
                            let reply = &transcription_statuses[calls[4]];
                            calls[4] += 1;
                            let reply = TranscribeResponse {
                                id: reply.id.clone(),
                                status: reply.status.clone(),
                                text: reply.text.clone(),
                                error: reply.error.clone(),
                            };
                            job = job.on_status(Ok(reply), now);
                        }
                        JobAction::Finish(result) => break result,
                    }
                };
                pipeline = pipeline.transcribed(result);
            }
            PipelineAction::Finish(result) => return (result, calls),
        }
    }
}

#[test]
fn whole_pipeline_returns_the_transcript() {
    let (result, calls) = run(
        r#"{"items":[{"id":{"videoId":"abc123"}}]}"#,
        &[r#"{}"#, r#"{}"#, r#"{"file":"https://cdn.example/a.mp3"}"#],
        &[transcript("processing", None, None), transcript("completed", Some("hello world"), None)],
    );
    assert_eq!(result, Ok("hello world".to_string()));
    assert_eq!(calls, [1, 1, 3, 1, 2]);
}

#[test]
fn whole_pipeline_with_empty_lookup_issues_no_other_call() {
    let (result, calls) = run(r#"{"items":[]}"#, &[], &[]);
    let failure = result.unwrap_err();
    assert_eq!(failure.stage, Stage::Lookup);
    assert_eq!(failure.kind, ErrorKind::Lookup);
    assert_eq!(calls, [1, 0, 0, 0, 0]);
}

#[test]
fn whole_pipeline_fails_at_once_on_bad_audio() {
    let (result, calls) = run(
        r#"{"items":[{"id":{"videoId":"abc123"}}]}"#,
        &[r#"{"file":"https://cdn.example/a.mp3"}"#],
        &[transcript("error", None, Some("bad audio"))],
    );
    let failure = result.unwrap_err();
    assert_eq!(failure.stage, Stage::Transcription);
    assert_eq!(failure.kind, ErrorKind::JobFailed);
    assert!(failure.error.message().contains("bad audio"));
    assert_eq!(calls, [1, 1, 1, 1, 1]);
}

#[test]
fn found_video_is_converted_next() {
    let pipeline = Pipeline::new(&config()).found(Ok(YoutubeVideo::new("abc123", "r-key")));
    assert_eq!(
        pipeline.next(),
        PipelineAction::Convert(YoutubeVideo::new("abc123", "r-key").create_download_link())
    );
    let failure = || StageError {
        stage: Stage::Lookup,
        kind: ErrorKind::Lookup,
        error: Error::DownloadError("connection refused".to_string()),
    };
    let pipeline = Pipeline::new(&config()).found(Err(failure()));
    assert_eq!(pipeline.next(), PipelineAction::Finish(Err(failure())));
    assert_eq!(PipelineAction::locate(Err(failure())), PipelineAction::Finish(Err(failure())));
}

use video_transcriber::downloader::{YoutubeAudioDownloader, YoutubeVideo};
use video_transcriber::error::{Error, ErrorKind, Stage, StageError};
use video_transcriber::http::{HttpRequest, Method};
use video_transcriber::job::{JobAction, JobHandle};
use video_transcriber::poll::{JobStatus, PollBudget, PollError};

fn downloader() -> YoutubeAudioDownloader {
    YoutubeAudioDownloader::new("g-key", "r-key", "UC123")
}

fn body(text: &str) -> Result<String, String> {
    Ok(text.to_string())
}

fn download_error(stage: Stage, kind: ErrorKind, detail: &str) -> StageError {
    StageError { stage, kind, error: Error::DownloadError(detail.to_string()) }
}

#[test]
fn lookup_request_asks_for_the_newest_video() {
    let request = downloader().get_latest_video_request().unwrap();
    assert_eq!(
        request,
        HttpRequest {
            method: Method::Get,
            url: "https://www.googleapis.com/youtube/v3/search?key=g-key&channelId=UC123&part=snippet%2Cid&order=date&maxResults=1".to_string(),
            header: None,
            json: None,
        }
    );
}

#[test]
fn lookup_request_encodes_what_it_is_given() {
    let request = YoutubeAudioDownloader::new("a b&c", "r", "x=y").get_latest_video_request().unwrap();
    assert_eq!(
        request.url,
        "https://www.googleapis.com/youtube/v3/search?key=a+b%26c&channelId=x%3Dy&part=snippet%2Cid&order=date&maxResults=1"
    );
}

#[test]
fn lookup_finds_the_first_video() {
    let reply = body(r#"{"items":[{"id":{"kind":"youtube#video","videoId":"abc123"}},{"id":{"videoId":"older"}}]}"#);
    let video = downloader().get_latest_video(reply).unwrap();
    assert_eq!(video, YoutubeVideo::new("abc123", "r-key"));
    assert_eq!(video.url(), "https://www.youtube.com/watch?v=abc123");
}

#[test]
fn lookup_with_no_items_fails() {
    let failure = downloader().get_latest_video(body(r#"{"items":[]}"#)).unwrap_err();
    assert_eq!(failure, download_error(Stage::Lookup, ErrorKind::Lookup, "No video id found"));
    assert_eq!(failure.stage.name(), "lookup");
}

#[test]
fn lookup_with_other_shapes_fails() {
    for text in [
        r#"{}"#,
        r#"{"items":{"0":{"id":{"videoId":"abc"}}}}"#,
        r#"{"items":[{"id":{"videoId":7}}]}"#,
        r#"{"items":[{"id":"abc"}]}"#,
        r#"[{"id":{"videoId":"abc"}}]"#,
        r#"null"#,
    ] {
        let failure = downloader().get_latest_video(body(text)).unwrap_err();
        assert_eq!(failure, download_error(Stage::Lookup, ErrorKind::Lookup, "No video id found"));
    }
}

#[test]
fn lookup_with_unreadable_reply_fails() {
    let failure = downloader().get_latest_video(body("<html>")).unwrap_err();
    assert_eq!(
        failure,
        download_error(Stage::Lookup, ErrorKind::Lookup, "expected value at line 1 column 1")
    );
}

#[test]
fn lookup_without_reply_fails() {
    let failure = downloader().get_latest_video(Err("connection refused".to_string())).unwrap_err();
    assert_eq!(failure, download_error(Stage::Lookup, ErrorKind::Lookup, "connection refused"));
}

#[test]
fn start_download_request_names_the_video() {
    let video = YoutubeVideo::new("abc123", "r-key");
    let request = video.start_download_request().unwrap();
    assert_eq!(
        request,
        HttpRequest {
            method: Method::Get,
            url: "https://t-one-youtube-converter.p.rapidapi.com/api/v1/createProcess?url=https%3A%2F%2Fwww.youtube.com%2Fwatch%3Fv%3Dabc123&format=mp3&lang=en&response=json".to_string(),
            header: Some(("x-rapidapi-key".to_string(), "r-key".to_string())),
            json: None,
        }
    );
}

#[test]
fn start_download_reads_the_handle() {
    let video = YoutubeVideo::new("abc123", "r-key");
    let handle = video.start_download(body(r#"{"guid":"job-1","message":"ok"}"#)).unwrap();
    assert_eq!(handle, JobHandle { id: "job-1".to_string() });
}

#[test]
fn start_download_without_handle_fails() {
    let video = YoutubeVideo::new("abc123", "r-key");
    for text in [r#"{}"#, r#"{"guid":17}"#, r#"{"guid":null}"#, r#"["guid"]"#] {
        let failure = video.start_download(body(text)).unwrap_err();
        assert_eq!(failure, download_error(Stage::Conversion, ErrorKind::Submission, "No guid found"));
    }
    let failure = video.start_download(body("{")).unwrap_err();
    assert_eq!(
        failure,
        download_error(
            Stage::Conversion,
            ErrorKind::Submission,
            "EOF while parsing an object at line 1 column 1"
        )
    );
    let failure = video.start_download(Err("timed out".to_string())).unwrap_err();
    assert_eq!(failure, download_error(Stage::Conversion, ErrorKind::Submission, "timed out"));
}

#[test]
fn check_status_request_names_the_job() {
    let video = YoutubeVideo::new("abc123", "r-key");
    let request = video.check_status_request(&JobHandle { id: "job 1".to_string() }).unwrap();
    assert_eq!(
        request,
        HttpRequest {
            method: Method::Get,
            url: "https://t-one-youtube-converter.p.rapidapi.com/api/v1/statusProcess?guid=job+1&response=json".to_string(),
            header: Some(("x-rapidapi-key".to_string(), "r-key".to_string())),
            json: None,
        }
    );
}

#[test]
fn check_status_tells_done_from_pending() {
    let video = YoutubeVideo::new("abc123", "r-key");
    assert_eq!(
        video.check_status(body(r#"{"file":"https://cdn.example/a.mp3"}"#)),
        Ok(JobStatus::Completed("https://cdn.example/a.mp3".to_string()))
    );
    assert_eq!(video.check_status(body(r#"{"file":""}"#)), Ok(JobStatus::Completed(String::new())));
    for text in [r#"{}"#, r#"{"file":null}"#, r#"{"status":"error"}"#, r#"{"file":3}"#, r#"[]"#] {
        assert_eq!(video.check_status(body(text)), Ok(JobStatus::Pending));
    }
}

#[test]
fn check_status_of_a_failed_request_fails() {
    let video = YoutubeVideo::new("abc123", "r-key");
    assert_eq!(
        video.check_status(Err("connection reset".to_string())),
        Err(download_error(Stage::Conversion, ErrorKind::Status, "connection reset"))
    );
    assert_eq!(
        video.check_status(body("")),
        Err(download_error(
            Stage::Conversion,
            ErrorKind::Status,
            "EOF while parsing a value at line 1 column 0"
        ))
    );
}

#[test]
fn conversion_budget_is_ten_requests_half_a_minute_apart() {
    assert_eq!(YoutubeVideo::poll_budget(), PollBudget { interval: 30, max_attempts: Some(10), deadline: None });
}

#[test]
fn conversion_poll_failures() {
    assert_eq!(
        YoutubeVideo::poll_failure(PollError::Timeout),
        download_error(Stage::Conversion, ErrorKind::Timeout, "Download timed out")
    );
    assert_eq!(
        YoutubeVideo::poll_failure(PollError::Failed("gone".to_string())),
        download_error(Stage::Conversion, ErrorKind::JobFailed, "gone")
    );
}

#[test]
fn conversion_returns_the_link_after_exactly_three_polls() {
    let video = YoutubeVideo::new("abc123", "r-key");
    let mut job = video.create_download_link();
    let mut now = 0u64;
    let mut polls = 0;
    let mut waited = 0u64;
    let status_replies =
        [r#"{}"#, r#"{"status":"working"}"#, r#"{"file":"https://cdn.example/a.mp3"}"#];
    let result = loop {
        match job.next(now) {
            JobAction::Submit(request) => {
                assert_eq!(request, video.start_download_request().unwrap());
                job = job.on_submit(body(r#"{"guid":"job-1"}"#), now);
            }
            JobAction::Wait(time) => {
                now += time;
                waited += time;
            }
            JobAction::Poll(request) => {
                assert_eq!(
                    request,
                    video.check_status_request(&JobHandle { id: "job-1".to_string() }).unwrap()
                );
                job = job.on_status(body(status_replies[polls]), now);
                polls += 1;
            }
            JobAction::Finish(result) => break result,
        }
    };
    assert_eq!(result, Ok("https://cdn.example/a.mp3".to_string()));
    assert_eq!(polls, 3);
    assert_eq!(waited, 90);
}

#[test]
fn conversion_times_out_after_ten_pending_polls() {
    let video = YoutubeVideo::new("abc123", "r-key");
    let mut job = video.create_download_link().on_submit(body(r#"{"guid":"job-1"}"#), 7);
    let mut now = 7u64;
    let mut polls = 0;
    let result = loop {
        match job.next(now) {
            JobAction::Submit(_) => panic!("the job is submitted once"),
            JobAction::Wait(time) => now += time,
            JobAction::Poll(_) => {
                job = job.on_status(body(r#"{}"#), now);
                polls += 1;
            }
            JobAction::Finish(result) => break result,
        }
    };
    assert_eq!(result, Err(download_error(Stage::Conversion, ErrorKind::Timeout, "Download timed out")));
    assert_eq!(polls, 10);
    assert_eq!(now, 307);
}

#[test]
fn conversion_ends_when_it_cannot_be_submitted() {
    let video = YoutubeVideo::new("abc123", "r-key");
    let job = video.create_download_link().on_submit(body(r#"{"error":"quota"}"#), 0);
    let failure = download_error(Stage::Conversion, ErrorKind::Submission, "No guid found");
    assert_eq!(job.next(0), JobAction::Finish(Err(failure)));
    let later = job.on_status(body(r#"{"file":"x"}"#), 30).on_submit(body(r#"{"guid":"job-2"}"#), 30);
    assert_eq!(
        later.next(60),
        JobAction::Finish(Err(download_error(Stage::Conversion, ErrorKind::Submission, "No guid found")))
    );
}

#[test]
fn conversion_ends_when_a_status_request_fails() {
    let video = YoutubeVideo::new("abc123", "r-key");
    let job = video
        .create_download_link()
        .on_submit(body(r#"{"guid":"job-1"}"#), 0)
        .on_status(body(r#"{}"#), 30)
        .on_status(Err("connection reset".to_string()), 60);
    assert_eq!(
        job.next(60),
        JobAction::Finish(Err(download_error(Stage::Conversion, ErrorKind::Status, "connection reset")))
    );
}

#[test]
fn latest_video_from_what_was_found() {
    assert_eq!(
        downloader().latest_video(Ok(Some("abc123".to_string()))),
        Ok(YoutubeVideo::new("abc123", "r-key"))
    );
    assert_eq!(
        downloader().latest_video(Ok(None)),
        Err(download_error(Stage::Lookup, ErrorKind::Lookup, "No video id found"))
    );
    assert_eq!(
        downloader().latest_video(Err("key must be a string at line 1 column 2".to_string())),
        Err(download_error(Stage::Lookup, ErrorKind::Lookup, "key must be a string at line 1 column 2"))
    );
}

#[test]
fn lookup_request_from_an_address() {
    assert_eq!(
        YoutubeAudioDownloader::lookup_request(Ok("https://example.net/?a=b".to_string())),
        Ok(HttpRequest {
            method: Method::Get,
            url: "https://example.net/?a=b".to_string(),
            header: None,
            json: None,
        })
    );
    assert_eq!(
        YoutubeAudioDownloader::lookup_request(Err("empty host".to_string())),
        Err(download_error(Stage::Lookup, ErrorKind::Lookup, "empty host"))
    );
}

#[test]
fn keyed_request_from_an_address() {
    let video = YoutubeVideo::new("abc123", "r-key");
    assert_eq!(
        video.keyed_request(Ok("https://example.net/?a=b".to_string()), ErrorKind::Status),
        Ok(HttpRequest {
            method: Method::Get,
            url: "https://example.net/?a=b".to_string(),
            header: Some(("x-rapidapi-key".to_string(), "r-key".to_string())),
            json: None,
        })
    );
    assert_eq!(
        video.keyed_request(Err("empty host".to_string()), ErrorKind::Status),
        Err(download_error(Stage::Conversion, ErrorKind::Status, "empty host"))
    );
    assert_eq!(
        video.keyed_request(Err("empty host".to_string()), ErrorKind::Submission),
        Err(download_error(Stage::Conversion, ErrorKind::Submission, "empty host"))
    );
}

#[test]
fn download_handle_from_what_was_found() {
    assert_eq!(
        YoutubeVideo::download_handle(Ok(Some("job-1".to_string()))),
        Ok(JobHandle { id: "job-1".to_string() })
    );
    assert_eq!(
        YoutubeVideo::download_handle(Ok(None)),
        Err(download_error(Stage::Conversion, ErrorKind::Submission, "No guid found"))
    );
    assert_eq!(
        YoutubeVideo::download_handle(Err("timed out".to_string())),
        Err(download_error(Stage::Conversion, ErrorKind::Submission, "timed out"))
    );
}

#[test]
fn download_status_from_what_was_found() {
    assert_eq!(
        YoutubeVideo::download_status(Ok(Some("https://cdn.example/a.mp3".to_string()))),
        Ok(JobStatus::Completed("https://cdn.example/a.mp3".to_string()))
    );
    assert_eq!(YoutubeVideo::download_status(Ok(None)), Ok(JobStatus::Pending));
    assert_eq!(
        YoutubeVideo::download_status(Err("timed out".to_string())),
        Err(download_error(Stage::Conversion, ErrorKind::Status, "timed out"))
    );
}

#[test]
fn video_duplicates_are_equal() {
    let video = YoutubeVideo::new("abc123", "r-key");
    assert_eq!(video.duplicate(), video);
    assert_eq!(video.create_download_link().budget(), YoutubeVideo::poll_budget());
}

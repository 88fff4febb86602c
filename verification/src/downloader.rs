//! The channel lookup and the conversion job.

use vstd::prelude::*;
use vstd::string::StringExecFns;
use crate::error::{outcome_view, Error, ErrorKind, ErrorView, Stage, StageError, StageErrorView};
use crate::http::{
    pair, pairs_view, reply_view, url_with_params, with_params, HttpRequest,
    HttpRequestView, Method,
};
use crate::job::{JobAction, JobActionView, JobHandle, JobPhase, JobPhaseView, JobStep, JobStepView};
use crate::json::{
    document_text_member, element, found_view, json_document, json_tree, member, parse, text_member,
    value_text_member, Json,
};
use crate::poll::{JobStatus, JobStatusView, PollBudget, PollError, PollErrorView};

verus! {

/// The address of the search that names a channel's videos.
pub const GOOGLE_API_URL: &'static str = "https://www.googleapis.com/youtube/v3/search";

/// The address at which the conversion service creates a job.
pub const CREATE_PROCESS_URL: &'static str =
    "https://t-one-youtube-converter.p.rapidapi.com/api/v1/createProcess";

/// The address at which the conversion service tells a job's status.
pub const GET_STATUS_URL: &'static str =
    "https://t-one-youtube-converter.p.rapidapi.com/api/v1/statusProcess";

/// What stands before a video's id in its address.
pub const WATCH_URL: &'static str = "https://www.youtube.com/watch?v=";

/// The header that carries the conversion service's key.
pub const RAPID_API_KEY_HEADER: &'static str = "x-rapidapi-key";

/// The maximum number of times to check the status of the download.
pub const MAX_RETRIES: u64 = 10;

/// The time between two checks of the status of the download.
pub const RETRY_INTERVAL: u64 = 30;

/// A trait for downloading audio from a video.
pub trait AudioDownloader {
    /// Creates a download link for the audio
    fn create_download_link(&self, video_url: &str) -> Result<String, Error>;
}

/// A failure of the downloader.
pub open spec fn download_failure(stage: Stage, kind: ErrorKind, detail: Seq<char>) -> StageErrorView {
    StageErrorView { stage, kind, error: ErrorView::DownloadError(detail) }
}

fn download_error(stage: Stage, kind: ErrorKind, detail: String) -> (error: StageError)
    ensures
        error@ == download_failure(stage, kind, detail@),
{
    StageError { stage, kind, error: Error::DownloadError(detail) }
}

/// The request that fetches `url` and shows `key` to the conversion service.
pub open spec fn keyed_get(url: Seq<char>, key: Seq<char>) -> HttpRequestView {
    HttpRequestView {
        method: Method::Get,
        url,
        header: Some((RAPID_API_KEY_HEADER@, key)),
        json: None,
    }
}

/// An audio downloader for YouTube videos.
#[derive(Debug, PartialEq, Eq)]
pub struct YoutubeAudioDownloader {
    /// The google api key to use for making requests.
    google_api_key: String,
    /// The rapid api key to use for making requests.
    rapid_api_key: String,
    /// The YouTube channel to download the latest video from.
    channel: String,
}

/// A [`YoutubeAudioDownloader`] as text.
pub struct DownloaderView {
    pub google_api_key: Seq<char>,
    pub rapid_api_key: Seq<char>,
    pub channel: Seq<char>,
}

impl View for YoutubeAudioDownloader {
    type V = DownloaderView;

    closed spec fn view(&self) -> DownloaderView {
        DownloaderView {
            google_api_key: self.google_api_key@,
            rapid_api_key: self.rapid_api_key@,
            channel: self.channel@,
        }
    }
}

/// The id of the first video that a search result lists: the text at
/// `items[0].id.videoId`.
pub open spec fn first_video_id(document: Json) -> Option<Seq<char>> {
    match document.member("items"@) {
        Some(items) => match items.element(0) {
            Some(first) => match first.member("id"@) {
                Some(id) => id.text_member("videoId"@),
                None => None,
            },
            None => None,
        },
        None => None,
    }
}

/// The id of the first video that the search result in `text` lists.
pub open spec fn lookup_video_id(text: Seq<char>) -> Result<Option<Seq<char>>, Seq<char>> {
    match json_document(text) {
        Ok(document) => Ok(first_video_id(document)),
        Err(message) => Err(message),
    }
}

/// The request that looks the newest video up at the address `built`, or
/// the failure of the lookup where the address could not be written.
pub open spec fn lookup_request(built: Result<Seq<char>, Seq<char>>) -> Result<
    HttpRequestView,
    StageErrorView,
> {
    match built {
        Ok(url) => Ok(HttpRequestView { method: Method::Get, url, header: None, json: None }),
        Err(message) => Err(download_failure(Stage::Lookup, ErrorKind::Lookup, message)),
    }
}

impl DownloaderView {
    /// What the search for the channel's videos is asked: the newest one
    /// alone.
    pub open spec fn query(self) -> Seq<(Seq<char>, Seq<char>)> {
        seq![
            ("key"@, self.google_api_key),
            ("channelId"@, self.channel),
            ("part"@, "snippet,id"@),
            ("order"@, "date"@),
            ("maxResults"@, "1"@),
        ]
    }

    /// The request that looks the newest video up.
    pub open spec fn get_latest_video_request(self) -> Result<HttpRequestView, StageErrorView> {
        lookup_request(url_with_params(GOOGLE_API_URL@, self.query()))
    }

    /// The newest video, from the id that the reply to the lookup was found
    /// to hold. The lookup fails where no id was found, and where the reply
    /// did not arrive or could not be read.
    pub open spec fn latest_video(self, found: Result<Option<Seq<char>>, Seq<char>>) -> Result<
        VideoView,
        StageErrorView,
    > {
        match found {
            Ok(Some(id)) => Ok(VideoView { url: WATCH_URL@ + id, key: self.rapid_api_key }),
            Ok(None) => Err(
                download_failure(Stage::Lookup, ErrorKind::Lookup, "No video id found"@),
            ),
            Err(message) => Err(download_failure(Stage::Lookup, ErrorKind::Lookup, message)),
        }
    }

    /// The newest video according to the reply to the lookup.
    pub open spec fn get_latest_video(self, reply: Result<Seq<char>, Seq<char>>) -> Result<
        VideoView,
        StageErrorView,
    > {
        self.latest_video(
            match reply {
                Ok(body) => lookup_video_id(body),
                Err(message) => Err(message),
            },
        )
    }
}

/// The id of the first video that a search result lists.
fn first_id(document: &serde_json::Value) -> (id: Option<String>)
    ensures
        match id {
            Some(id) => first_video_id(json_tree(*document)) == Some(id@),
            None => first_video_id(json_tree(*document)) is None,
        },
{
    match member(document, "items") {
        Some(items) => match element(items, 0) {
            Some(first) => match member(first, "id") {
                Some(id) => value_text_member(id, "videoId"),
                None => None,
            },
            None => None,
        },
        None => None,
    }
}

/// Reads `text` as a search result and looks for the id of the first video
/// that it lists.
pub fn video_id(text: &str) -> (found: Result<Option<String>, String>)
    ensures
        found_view(found) == lookup_video_id(text@),
{
    match parse(text) {
        Ok(document) => Ok(first_id(&document)),
        Err(message) => Err(message),
    }
}

impl YoutubeAudioDownloader {
    /// Creates a new YouTube audio downloader.
    pub fn new(google_api_key: &str, rapid_api_key: &str, channel: &str) -> (made: Self)
        ensures
            made@ == (DownloaderView {
                google_api_key: google_api_key@,
                rapid_api_key: rapid_api_key@,
                channel: channel@,
            }),
    {
        Self {
            google_api_key: google_api_key.to_owned(),
            rapid_api_key: rapid_api_key.to_owned(),
            channel: channel.to_owned(),
        }
    }

    /// The request that looks the newest video up at the address `built`,
    /// or the failure of the lookup where the address could not be written
    /// and `built` is the reason.
    pub fn lookup_request(built: Result<String, String>) -> (request: Result<
        HttpRequest,
        StageError,
    >)
        ensures
            outcome_view(request) == lookup_request(reply_view(built)),
    {
        match built {
            Ok(url) => Ok(HttpRequest { method: Method::Get, url, header: None, json: None }),
            Err(message) => Err(download_error(Stage::Lookup, ErrorKind::Lookup, message)),
        }
    }

    /// The request that looks the channel's newest video up.
    pub fn get_latest_video_request(&self) -> (request: Result<HttpRequest, StageError>)
        ensures
            outcome_view(request) == self@.get_latest_video_request(),
    {
        let mut pairs: Vec<(String, String)> = Vec::new();
        pairs.push(pair("key", self.google_api_key.as_str()));
        pairs.push(pair("channelId", self.channel.as_str()));
        pairs.push(pair("part", "snippet,id"));
        pairs.push(pair("order", "date"));
        pairs.push(pair("maxResults", "1"));
        proof {
            reveal_strlit("https://www.googleapis.com/youtube/v3/search");
            assert(pairs_view(pairs@) == self@.query());
        }
        Self::lookup_request(with_params(GOOGLE_API_URL, &pairs))
    }

    /// The newest video, from the id that the reply to the lookup was found
    /// to hold: the id or its absence, or the message of the error that kept
    /// the reply from arriving or from being read.
    pub fn latest_video(&self, found: Result<Option<String>, String>) -> (video: Result<
        YoutubeVideo,
        StageError,
    >)
        ensures
            outcome_view(video) == self@.latest_video(found_view(found)),
    {
        match found {
            Ok(Some(id)) => Ok(YoutubeVideo::new(id.as_str(), self.rapid_api_key.as_str())),
            Ok(None) => Err(
                download_error(
                    Stage::Lookup,
                    ErrorKind::Lookup,
                    String::from_str("No video id found"),
                ),
            ),
            Err(message) => Err(download_error(Stage::Lookup, ErrorKind::Lookup, message)),
        }
    }

    /// Gets the latest video from the reply to the lookup: the body of the
    /// response, or the message of the error that kept it from arriving.
    pub fn get_latest_video(&self, reply: Result<String, String>) -> (video: Result<
        YoutubeVideo,
        StageError,
    >)
        ensures
            outcome_view(video) == self@.get_latest_video(reply_view(reply)),
    {
        let found = match reply {
            Ok(body) => video_id(body.as_str()),
            Err(message) => Err(message),
        };
        self.latest_video(found)
    }
}

/// A YouTube video.
#[derive(Debug, PartialEq, Eq)]
pub struct YoutubeVideo {
    /// The url of the video.
    url: String,
    /// The API key used to make requests.
    key: String,
}

/// A [`YoutubeVideo`] as text.
pub struct VideoView {
    pub url: Seq<char>,
    pub key: Seq<char>,
}

impl View for YoutubeVideo {
    type V = VideoView;

    closed spec fn view(&self) -> VideoView {
        VideoView { url: self.url@, key: self.key@ }
    }
}

/// The handle of a conversion job, from the text named `guid` that the
/// reply to its submission was found to hold. The submission fails where no
/// such text was found, and where the reply did not arrive or could not be
/// read.
pub open spec fn download_handle(found: Result<Option<Seq<char>>, Seq<char>>) -> Result<
    Seq<char>,
    StageErrorView,
> {
    match found {
        Ok(Some(guid)) => Ok(guid),
        Ok(None) => Err(
            download_failure(Stage::Conversion, ErrorKind::Submission, "No guid found"@),
        ),
        Err(message) => Err(download_failure(Stage::Conversion, ErrorKind::Submission, message)),
    }
}

/// The handle in the reply to the request that creates a conversion job.
pub open spec fn start_download(reply: Result<Seq<char>, Seq<char>>) -> Result<
    Seq<char>,
    StageErrorView,
> {
    download_handle(
        match reply {
            Ok(body) => document_text_member(body, "guid"@),
            Err(message) => Err(message),
        },
    )
}

/// The status of a conversion job, from the text named `file` that the
/// reply to a status request was found to hold: done with that text as the
/// link, and pending without it. The service has no way to say that a job
/// failed. The request fails where the reply did not arrive or could not be
/// read.
pub open spec fn download_status(found: Result<Option<Seq<char>>, Seq<char>>) -> Result<
    JobStatusView,
    StageErrorView,
> {
    match found {
        Ok(Some(file)) => Ok(JobStatusView::Completed(file)),
        Ok(None) => Ok(JobStatusView::Pending),
        Err(message) => Err(download_failure(Stage::Conversion, ErrorKind::Status, message)),
    }
}

/// The status in the reply to a status request of a conversion job.
pub open spec fn check_status(reply: Result<Seq<char>, Seq<char>>) -> Result<
    JobStatusView,
    StageErrorView,
> {
    download_status(
        match reply {
            Ok(body) => document_text_member(body, "file"@),
            Err(message) => Err(message),
        },
    )
}

/// The request that fetches the address `built` and shows `key` to the
/// conversion service, or a failure of the kind `kind` where the address
/// could not be written.
pub open spec fn keyed_request(
    built: Result<Seq<char>, Seq<char>>,
    key: Seq<char>,
    kind: ErrorKind,
) -> Result<HttpRequestView, StageErrorView> {
    match built {
        Ok(url) => Ok(keyed_get(url, key)),
        Err(message) => Err(download_failure(Stage::Conversion, kind, message)),
    }
}

/// The conversion service never says that a job failed: a reply tells a
/// job done or pending, or is no answer at all.
pub proof fn conversion_never_reports_failure(reply: Result<Seq<char>, Seq<char>>)
    ensures
        check_status(reply) matches Ok(status) ==> status is Completed || status is Pending,
        check_status(reply) matches Err(error) ==> error.stage == Stage::Conversion && error.kind
            == ErrorKind::Status,
        reply is Err ==> check_status(reply) is Err,
{
}

/// The failure of a conversion job whose poll loop gave up.
pub open spec fn conversion_failure(error: PollErrorView) -> StageErrorView {
    match error {
        PollErrorView::Timeout => download_failure(
            Stage::Conversion,
            ErrorKind::Timeout,
            "Download timed out"@,
        ),
        PollErrorView::Failed(detail) => download_failure(
            Stage::Conversion,
            ErrorKind::JobFailed,
            detail,
        ),
    }
}

/// The budget of a conversion job.
pub open spec fn conversion_budget() -> PollBudget {
    PollBudget { interval: RETRY_INTERVAL, max_attempts: Some(MAX_RETRIES), deadline: None }
}

impl VideoView {
    /// What the conversion service is asked to make of the video.
    pub open spec fn order(self) -> Seq<(Seq<char>, Seq<char>)> {
        seq![("url"@, self.url), ("format"@, "mp3"@), ("lang"@, "en"@), ("response"@, "json"@)]
    }

    /// The request that creates the conversion job.
    pub open spec fn start_download_request(self) -> Result<HttpRequestView, StageErrorView> {
        keyed_request(
            url_with_params(CREATE_PROCESS_URL@, self.order()),
            self.key,
            ErrorKind::Submission,
        )
    }

    /// The request that asks for the status of the job with the handle
    /// `guid`.
    pub open spec fn check_status_request(self, guid: Seq<char>) -> Result<
        HttpRequestView,
        StageErrorView,
    > {
        keyed_request(
            url_with_params(GET_STATUS_URL@, seq![("guid"@, guid), ("response"@, "json"@)]),
            self.key,
            ErrorKind::Status,
        )
    }
}

impl YoutubeVideo {
    /// Creates a new YouTube video by converting the id to a url.
    pub fn new(id: &str, key: &str) -> (made: Self)
        ensures
            made@ == (VideoView { url: WATCH_URL@ + id@, key: key@ }),
    {
        Self { url: String::from_str(WATCH_URL).concat(id), key: key.to_owned() }
    }

    /// The url of the video.
    pub fn url(&self) -> (url: &str)
        ensures
            url@ == self@.url,
    {
        self.url.as_str()
    }

    /// A copy of the video.
    pub fn duplicate(&self) -> (copy: YoutubeVideo)
        ensures
            copy@ == self@,
    {
        YoutubeVideo { url: self.url.clone(), key: self.key.clone() }
    }

    /// The request that fetches the address `built` and shows the video's
    /// key to the conversion service, or a failure of the kind `kind` where
    /// the address could not be written and `built` is the reason.
    pub fn keyed_request(&self, built: Result<String, String>, kind: ErrorKind) -> (request: Result<
        HttpRequest,
        StageError,
    >)
        ensures
            outcome_view(request) == keyed_request(reply_view(built), self@.key, kind),
    {
        match built {
            Ok(url) => Ok(
                HttpRequest {
                    method: Method::Get,
                    url,
                    header: Some(pair(RAPID_API_KEY_HEADER, self.key.as_str())),
                    json: None,
                },
            ),
            Err(message) => Err(download_error(Stage::Conversion, kind, message)),
        }
    }

    /// The request that creates the conversion job.
    pub fn start_download_request(&self) -> (request: Result<HttpRequest, StageError>)
        ensures
            outcome_view(request) == self@.start_download_request(),
    {
        let mut pairs: Vec<(String, String)> = Vec::new();
        pairs.push(pair("url", self.url.as_str()));
        pairs.push(pair("format", "mp3"));
        pairs.push(pair("lang", "en"));
        pairs.push(pair("response", "json"));
        proof {
            reveal_strlit("https://t-one-youtube-converter.p.rapidapi.com/api/v1/createProcess");
            assert(pairs_view(pairs@) == self@.order());
        }
        self.keyed_request(with_params(CREATE_PROCESS_URL, &pairs), ErrorKind::Submission)
    }

    /// The handle of a conversion job, from the text named `guid` that the
    /// reply to its submission was found to hold: the text or its absence,
    /// or the message of the error that kept the reply from arriving or from
    /// being read.
    pub fn download_handle(found: Result<Option<String>, String>) -> (handle: Result<
        JobHandle,
        StageError,
    >)
        ensures
            outcome_view(handle) == download_handle(found_view(found)),
    {
        let stage = Stage::Conversion;
        match found {
            Ok(Some(guid)) => Ok(JobHandle { id: guid }),
            Ok(None) => Err(
                download_error(stage, ErrorKind::Submission, String::from_str("No guid found")),
            ),
            Err(message) => Err(download_error(stage, ErrorKind::Submission, message)),
        }
    }

    /// The handle of the conversion job, from the reply to the request that
    /// creates it.
    pub fn start_download(&self, reply: Result<String, String>) -> (handle: Result<
        JobHandle,
        StageError,
    >)
        ensures
            outcome_view(handle) == start_download(reply_view(reply)),
    {
        let found = match reply {
            Ok(body) => text_member(body.as_str(), "guid"),
            Err(message) => Err(message),
        };
        Self::download_handle(found)
    }

    /// The request that asks for the status of the conversion job.
    pub fn check_status_request(&self, handle: &JobHandle) -> (request: Result<
        HttpRequest,
        StageError,
    >)
        ensures
            outcome_view(request) == self@.check_status_request(handle@),
    {
        let mut pairs: Vec<(String, String)> = Vec::new();
        pairs.push(pair("guid", handle.id.as_str()));
        pairs.push(pair("response", "json"));
        proof {
            reveal_strlit("https://t-one-youtube-converter.p.rapidapi.com/api/v1/statusProcess");
            assert(pairs_view(pairs@) == seq![("guid"@, handle@), ("response"@, "json"@)]);
        }
        self.keyed_request(with_params(GET_STATUS_URL, &pairs), ErrorKind::Status)
    }

    /// The status of a conversion job, from the text named `file` that the
    /// reply to a status request was found to hold: the text or its absence,
    /// or the message of the error that kept the reply from arriving or from
    /// being read.
    pub fn download_status(found: Result<Option<String>, String>) -> (status: Result<
        JobStatus,
        StageError,
    >)
        ensures
            outcome_view(status) == download_status(found_view(found)),
    {
        match found {
            Ok(Some(file)) => Ok(JobStatus::Completed(file)),
            Ok(None) => Ok(JobStatus::Pending),
            Err(message) => Err(download_error(Stage::Conversion, ErrorKind::Status, message)),
        }
    }

    /// The status of the conversion job, from the reply to a status request.
    pub fn check_status(&self, reply: Result<String, String>) -> (status: Result<
        JobStatus,
        StageError,
    >)
        ensures
            outcome_view(status) == check_status(reply_view(reply)),
    {
        let found = match reply {
            Ok(body) => text_member(body.as_str(), "file"),
            Err(message) => Err(message),
        };
        Self::download_status(found)
    }

    /// The failure of a conversion job whose poll loop gave up.
    pub fn poll_failure(error: PollError) -> (failure: StageError)
        ensures
            failure@ == conversion_failure(error@),
    {
        match error {
            PollError::Timeout => download_error(
                Stage::Conversion,
                ErrorKind::Timeout,
                String::from_str("Download timed out"),
            ),
            PollError::Failed(detail) => download_error(
                Stage::Conversion,
                ErrorKind::JobFailed,
                detail,
            ),
        }
    }

    /// The budget of a conversion job: [`MAX_RETRIES`] status requests,
    /// [`RETRY_INTERVAL`] apart.
    pub fn poll_budget() -> (budget: PollBudget)
        ensures
            budget == conversion_budget(),
    {
        PollBudget::attempts(RETRY_INTERVAL, MAX_RETRIES)
    }

    /// Creates a downloadable mp3 link from the video: the job that does so,
    /// for the caller to run.
    pub fn create_download_link(&self) -> (job: ConversionJob)
        ensures
            job@ == (ConversionJobView {
                video: self@,
                budget: conversion_budget(),
                phase: JobPhaseView::Submitting,
            }),
    {
        ConversionJob::new(self.duplicate(), YoutubeVideo::poll_budget())
    }
}

/// The job that turns a video into an audio link.
#[derive(Debug, PartialEq, Eq)]
pub struct ConversionJob {
    video: YoutubeVideo,
    budget: PollBudget,
    phase: JobPhase,
}

/// A [`ConversionJob`] as a mathematical value.
pub struct ConversionJobView {
    pub video: VideoView,
    pub budget: PollBudget,
    pub phase: JobPhaseView,
}

impl View for ConversionJob {
    type V = ConversionJobView;

    closed spec fn view(&self) -> ConversionJobView {
        ConversionJobView { video: self.video@, budget: self.budget, phase: self.phase@ }
    }
}

impl ConversionJobView {
    /// What to do at time `now`: what the job's phase asks for, with its
    /// requests written out. A request whose address cannot be written ends
    /// the job.
    pub open spec fn next(self, now: nat) -> JobActionView {
        match self.phase.step(now) {
            JobStepView::Submit => JobActionView::submit(self.video.start_download_request()),
            JobStepView::Wait(time) => JobActionView::Wait(time),
            JobStepView::Poll(handle) => JobActionView::poll(
                self.video.check_status_request(handle),
            ),
            JobStepView::Return(link) => JobActionView::Finish(Ok(link)),
            JobStepView::GiveUp(error) => JobActionView::Finish(Err(conversion_failure(error))),
            JobStepView::Fail(error) => JobActionView::Finish(Err(error)),
        }
    }

    /// The job after the reply to the request that creates it.
    pub open spec fn on_submit(self, reply: Result<Seq<char>, Seq<char>>, now: nat) -> Self {
        ConversionJobView {
            phase: self.phase.submitted(start_download(reply), self.budget, now),
            ..self
        }
    }

    /// The job after the reply to a status request.
    pub open spec fn on_status(self, reply: Result<Seq<char>, Seq<char>>, now: nat) -> Self {
        ConversionJobView { phase: self.phase.answered(check_status(reply), now), ..self }
    }
}

impl ConversionJob {
    /// A job that is polled is polled under the job's budget, and one that
    /// has failed holds a failure of the conversion stage.
    #[verifier::type_invariant]
    spec fn consistent(self) -> bool {
        &&& self.phase@ matches JobPhaseView::Polling { poll, .. } ==> poll.budget == self.budget
        &&& self.phase@ matches JobPhaseView::Failed(error) ==> error.stage == Stage::Conversion
    }

    /// The job that converts `video`, polled under `budget`.
    pub fn new(video: YoutubeVideo, budget: PollBudget) -> (job: ConversionJob)
        ensures
            job@ == (ConversionJobView { video: video@, budget, phase: JobPhaseView::Submitting }),
    {
        ConversionJob { video, budget, phase: JobPhase::Submitting }
    }

    /// The budget under which the job is polled.
    pub fn budget(&self) -> (budget: PollBudget)
        ensures
            budget == self@.budget,
    {
        self.budget
    }

    /// What to do at time `now`.
    pub fn next(&self, now: u64) -> (action: JobAction)
        ensures
            action@ == self@.next(now as nat),
            action@ matches JobActionView::Finish(Err(error)) ==> error.stage == Stage::Conversion,
    {
        proof {
            use_type_invariant(self);
        }
        match self.phase.step(now) {
            JobStep::Submit => JobAction::submit(self.video.start_download_request()),
            JobStep::Wait(time) => JobAction::Wait(time),
            JobStep::Poll(handle) => JobAction::poll(self.video.check_status_request(&handle)),
            JobStep::Return(link) => JobAction::Finish(Ok(link)),
            JobStep::GiveUp(error) => JobAction::Finish(Err(YoutubeVideo::poll_failure(error))),
            JobStep::Fail(error) => JobAction::Finish(Err(error)),
        }
    }

    /// Takes the reply to the request that creates the job, which arrived at
    /// time `now`.
    pub fn on_submit(self, reply: Result<String, String>, now: u64) -> (next: ConversionJob)
        ensures
            next@ == self@.on_submit(reply_view(reply), now as nat),
    {
        proof {
            use_type_invariant(&self);
        }
        let handle = self.video.start_download(reply);
        ConversionJob {
            video: self.video,
            budget: self.budget,
            phase: self.phase.submitted(handle, self.budget, now),
        }
    }

    /// Takes the reply to a status request, which arrived at time `now`.
    pub fn on_status(self, reply: Result<String, String>, now: u64) -> (next: ConversionJob)
        requires
            now + self@.budget.interval <= u64::MAX,
        ensures
            next@ == self@.on_status(reply_view(reply), now as nat),
    {
        proof {
            use_type_invariant(&self);
        }
        let status = self.video.check_status(reply);
        ConversionJob {
            video: self.video,
            budget: self.budget,
            phase: self.phase.answered(status, now),
        }
    }
}

} // verus!

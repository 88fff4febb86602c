//! The pipeline: look the newest video up, convert it, transcribe it.
//!
//! The stages run one after another, each on what the one before produced.
//! The first failure ends the pipeline.

use vstd::prelude::*;
use crate::downloader::{
    conversion_budget, ConversionJob, ConversionJobView, DownloaderView, VideoView,
    YoutubeAudioDownloader, YoutubeVideo,
};
use crate::error::{outcome_view, StageError, StageErrorView};
use crate::http::{reply_view, HttpRequest, HttpRequestView};
use crate::job::JobPhaseView;
use crate::poll::PollBudget;
use crate::transcriber::{
    AssemblyAiTranscriber, Transcriber, TranscriberView, TranscriptionJob, TranscriptionJobView,
    POLL_INTERVAL,
};

verus! {

/// What a pipeline needs to know.
#[derive(Debug, PartialEq, Eq)]
pub struct Config {
    /// The key for the channel lookup.
    pub google_api_key: String,
    /// The key for the conversion service.
    pub rapid_api_key: String,
    /// The channel whose newest video is wanted.
    pub channel: String,
    /// The key for the transcription service.
    pub assembly_ai_key: String,
    /// How long the transcription may be polled.
    pub max_timeout: u64,
}

/// What the caller who runs a pipeline is to do next.
#[derive(Debug, PartialEq, Eq)]
pub enum PipelineAction {
    /// Send this request, which looks the newest video up, and hand back the
    /// reply.
    Locate(HttpRequest),
    /// Run this job, which converts the video, and hand back how it ended.
    Convert(ConversionJob),
    /// Run this job, which transcribes the audio, and hand back how it
    /// ended.
    Transcribe(TranscriptionJob),
    /// Stop: the pipeline has ended, with the transcript or with the failure
    /// of the stage that failed.
    Finish(Result<String, StageError>),
}

/// A [`PipelineAction`] as a mathematical value.
pub enum PipelineActionView {
    Locate(HttpRequestView),
    Convert(ConversionJobView),
    Transcribe(TranscriptionJobView),
    Finish(Result<Seq<char>, StageErrorView>),
}

impl PipelineActionView {
    /// To send the request that looks the newest video up, or to stop where
    /// it could not be written.
    pub open spec fn locate(request: Result<HttpRequestView, StageErrorView>) -> PipelineActionView {
        match request {
            Ok(request) => PipelineActionView::Locate(request),
            Err(error) => PipelineActionView::Finish(Err(error)),
        }
    }
}

impl View for PipelineAction {
    type V = PipelineActionView;

    open spec fn view(&self) -> PipelineActionView {
        match self {
            PipelineAction::Locate(request) => PipelineActionView::Locate(request@),
            PipelineAction::Convert(job) => PipelineActionView::Convert(job@),
            PipelineAction::Transcribe(job) => PipelineActionView::Transcribe(job@),
            PipelineAction::Finish(Ok(text)) => PipelineActionView::Finish(Ok(text@)),
            PipelineAction::Finish(Err(error)) => PipelineActionView::Finish(Err(error@)),
        }
    }
}

impl PipelineAction {
    /// To send the request that looks the newest video up, or to stop where
    /// it could not be written.
    pub fn locate(request: Result<HttpRequest, StageError>) -> (action: PipelineAction)
        ensures
            action@ == PipelineActionView::locate(outcome_view(request)),
    {
        match request {
            Ok(request) => PipelineAction::Locate(request),
            Err(error) => PipelineAction::Finish(Err(error)),
        }
    }
}

/// How far a pipeline has come.
#[derive(Debug, PartialEq, Eq)]
enum Phase {
    Lookup,
    Conversion(YoutubeVideo),
    Transcription(String),
    Finished(Result<String, StageError>),
}

/// How far a pipeline has come, as a mathematical value.
pub enum PhaseView {
    /// The newest video has yet to be found.
    Lookup,
    /// The video was found and has yet to be converted.
    Conversion(VideoView),
    /// The audio link is there and has yet to be transcribed.
    Transcription(Seq<char>),
    /// The pipeline has ended.
    Finished(Result<Seq<char>, StageErrorView>),
}

impl View for Phase {
    type V = PhaseView;

    closed spec fn view(&self) -> PhaseView {
        match self {
            Phase::Lookup => PhaseView::Lookup,
            Phase::Conversion(video) => PhaseView::Conversion(video@),
            Phase::Transcription(link) => PhaseView::Transcription(link@),
            Phase::Finished(Ok(text)) => PhaseView::Finished(Ok(text@)),
            Phase::Finished(Err(error)) => PhaseView::Finished(Err(error@)),
        }
    }
}

/// One run of the three stages.
#[derive(Debug, PartialEq, Eq)]
pub struct Pipeline {
    downloader: YoutubeAudioDownloader,
    transcriber: AssemblyAiTranscriber,
    phase: Phase,
}

/// A [`Pipeline`] as a mathematical value.
pub struct PipelineView {
    pub downloader: DownloaderView,
    pub transcriber: TranscriberView,
    pub phase: PhaseView,
}

impl View for Pipeline {
    type V = PipelineView;

    closed spec fn view(&self) -> PipelineView {
        PipelineView {
            downloader: self.downloader@,
            transcriber: self.transcriber@,
            phase: self.phase@,
        }
    }
}

/// What a pipeline hears from its caller.
pub enum PipelineEvent {
    /// The reply to the lookup.
    Located(Result<Seq<char>, Seq<char>>),
    /// How the conversion job ended.
    Converted(Result<Seq<char>, StageErrorView>),
    /// How the transcription job ended.
    Transcribed(Result<Seq<char>, StageErrorView>),
}

impl PipelineView {
    /// The pipeline that `config` describes, before its first stage.
    pub open spec fn start(
        google_api_key: Seq<char>,
        rapid_api_key: Seq<char>,
        channel: Seq<char>,
        assembly_ai_key: Seq<char>,
        max_timeout: u64,
    ) -> PipelineView {
        PipelineView {
            downloader: DownloaderView { google_api_key, rapid_api_key, channel },
            transcriber: TranscriberView {
                assemblyai_api_key: assembly_ai_key,
                budget: PollBudget {
                    interval: POLL_INTERVAL,
                    max_attempts: None,
                    deadline: Some(max_timeout),
                },
            },
            phase: PhaseView::Lookup,
        }
    }

    /// What to do next: the work of the stage that the pipeline is in, or
    /// to stop where it has ended. A lookup whose request cannot be written
    /// ends the pipeline.
    pub open spec fn next(self) -> PipelineActionView {
        match self.phase {
            PhaseView::Lookup => PipelineActionView::locate(
                self.downloader.get_latest_video_request(),
            ),
            PhaseView::Conversion(video) => PipelineActionView::Convert(
                ConversionJobView {
                    video,
                    budget: conversion_budget(),
                    phase: JobPhaseView::Submitting,
                },
            ),
            PhaseView::Transcription(link) => PipelineActionView::Transcribe(
                TranscriptionJobView {
                    transcriber: self.transcriber,
                    audio_url: link,
                    phase: JobPhaseView::Submitting,
                },
            ),
            PhaseView::Finished(result) => PipelineActionView::Finish(result),
        }
    }

    /// The pipeline after the lookup ended: it goes on to convert the video
    /// that was found, or ends with the lookup's failure. A pipeline that is
    /// not looking a video up stays as it is.
    pub open spec fn found(self, video: Result<VideoView, StageErrorView>) -> PipelineView {
        match self.phase {
            PhaseView::Lookup => match video {
                Ok(video) => PipelineView { phase: PhaseView::Conversion(video), ..self },
                Err(error) => PipelineView { phase: PhaseView::Finished(Err(error)), ..self },
            },
            _ => self,
        }
    }

    /// The pipeline after the reply to the lookup.
    pub open spec fn located(self, reply: Result<Seq<char>, Seq<char>>) -> PipelineView {
        self.found(self.downloader.get_latest_video(reply))
    }

    /// The pipeline after the conversion job ended: it goes on to transcribe
    /// the audio at the job's link, or ends with the job's failure. A
    /// pipeline that is not converting stays as it is.
    pub open spec fn converted(self, result: Result<Seq<char>, StageErrorView>) -> PipelineView {
        match self.phase {
            PhaseView::Conversion(_) => match result {
                Ok(link) => PipelineView { phase: PhaseView::Transcription(link), ..self },
                Err(error) => PipelineView { phase: PhaseView::Finished(Err(error)), ..self },
            },
            _ => self,
        }
    }

    /// The pipeline after the transcription job ended: it ends with the
    /// job's transcript or failure. A pipeline that is not transcribing
    /// stays as it is.
    pub open spec fn transcribed(self, result: Result<Seq<char>, StageErrorView>) -> PipelineView {
        match self.phase {
            PhaseView::Transcription(_) => PipelineView {
                phase: PhaseView::Finished(result),
                ..self
            },
            _ => self,
        }
    }

    /// The pipeline after one event.
    pub open spec fn after(self, event: PipelineEvent) -> PipelineView {
        match event {
            PipelineEvent::Located(reply) => self.located(reply),
            PipelineEvent::Converted(result) => self.converted(result),
            PipelineEvent::Transcribed(result) => self.transcribed(result),
        }
    }

    /// The pipeline after a series of events.
    pub open spec fn after_all(self, events: Seq<PipelineEvent>) -> PipelineView
        decreases events.len(),
    {
        if events.len() == 0 {
            self
        } else {
            self.after(events[0]).after_all(events.drop_first())
        }
    }
}

/// A pipeline that has ended stays as it is, whatever it hears afterwards,
/// and asks for nothing but to stop: after a stage has failed no other stage
/// runs.
pub proof fn ended_pipeline_stays_ended(pipeline: PipelineView, events: Seq<PipelineEvent>)
    requires
        pipeline.phase is Finished,
    ensures
        pipeline.after_all(events) == pipeline,
        pipeline.after_all(events).next() == PipelineActionView::Finish(pipeline.phase->Finished_0),
    decreases events.len(),
{
    if events.len() > 0 {
        ended_pipeline_stays_ended(pipeline, events.drop_first());
    }
}

/// A lookup that fails ends the pipeline with a failure of the lookup
/// stage, whatever the pipeline hears afterwards.
pub proof fn failed_lookup_ends_the_pipeline(
    pipeline: PipelineView,
    reply: Result<Seq<char>, Seq<char>>,
    events: Seq<PipelineEvent>,
)
    requires
        pipeline.phase is Lookup,
        pipeline.downloader.get_latest_video(reply) is Err,
    ensures
        pipeline.located(reply).after_all(events).next() == PipelineActionView::Finish(
            Err(pipeline.downloader.get_latest_video(reply)->Err_0),
        ),
        pipeline.downloader.get_latest_video(reply)->Err_0.stage == crate::error::Stage::Lookup,
        pipeline.downloader.get_latest_video(reply)->Err_0.kind == crate::error::ErrorKind::Lookup,
{
    ended_pipeline_stays_ended(pipeline.located(reply), events);
}

impl Pipeline {
    /// The pipeline that `config` describes, before its first stage.
    pub fn new(config: &Config) -> (made: Pipeline)
        ensures
            made@ == PipelineView::start(
                config.google_api_key@,
                config.rapid_api_key@,
                config.channel@,
                config.assembly_ai_key@,
                config.max_timeout,
            ),
    {
        Pipeline {
            downloader: YoutubeAudioDownloader::new(
                config.google_api_key.as_str(),
                config.rapid_api_key.as_str(),
                config.channel.as_str(),
            ),
            transcriber: AssemblyAiTranscriber::new(
                config.assembly_ai_key.as_str(),
                config.max_timeout,
            ),
            phase: Phase::Lookup,
        }
    }

    /// What to do next.
    pub fn next(&self) -> (action: PipelineAction)
        ensures
            action@ == self@.next(),
    {
        match &self.phase {
            Phase::Lookup => PipelineAction::locate(self.downloader.get_latest_video_request()),
            Phase::Conversion(video) => PipelineAction::Convert(video.create_download_link()),
            Phase::Transcription(link) => PipelineAction::Transcribe(
                self.transcriber.transcribe(link.as_str()),
            ),
            Phase::Finished(Ok(text)) => PipelineAction::Finish(Ok(text.clone())),
            Phase::Finished(Err(error)) => PipelineAction::Finish(Err(error.duplicate())),
        }
    }

    /// Takes the end of the lookup: the video that was found, or the
    /// lookup's failure.
    pub fn found(self, video: Result<YoutubeVideo, StageError>) -> (next: Pipeline)
        ensures
            next@ == self@.found(outcome_view(video)),
    {
        match self.phase {
            Phase::Lookup => {
                let phase = match video {
                    Ok(video) => Phase::Conversion(video),
                    Err(error) => Phase::Finished(Err(error)),
                };
                Pipeline { downloader: self.downloader, transcriber: self.transcriber, phase }
            },
            _ => self,
        }
    }

    /// Takes the reply to the lookup: the body of the response, or the
    /// message of the error that kept it from arriving.
    pub fn located(self, reply: Result<String, String>) -> (next: Pipeline)
        ensures
            next@ == self@.located(reply_view(reply)),
    {
        let video = self.downloader.get_latest_video(reply);
        self.found(video)
    }

    /// Takes the end of the conversion job.
    pub fn converted(self, result: Result<String, StageError>) -> (next: Pipeline)
        ensures
            next@ == self@.converted(outcome_view(result)),
    {
        match self.phase {
            Phase::Conversion(_) => {
                let phase = match result {
                    Ok(link) => Phase::Transcription(link),
                    Err(error) => Phase::Finished(Err(error)),
                };
                Pipeline { downloader: self.downloader, transcriber: self.transcriber, phase }
            },
            _ => self,
        }
    }

    /// Takes the end of the transcription job.
    pub fn transcribed(self, result: Result<String, StageError>) -> (next: Pipeline)
        ensures
            next@ == self@.transcribed(outcome_view(result)),
    {
        match self.phase {
            Phase::Transcription(_) => Pipeline {
                downloader: self.downloader,
                transcriber: self.transcriber,
                phase: Phase::Finished(result),
            },
            _ => self,
        }
    }
}

} // verus!

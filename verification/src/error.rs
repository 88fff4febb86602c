//! Errors, and where in the pipeline they arose.

use vstd::prelude::*;
use vstd::string::StringExecFns;

verus! {

/// What went wrong, by the component that reports it.
#[derive(Debug, PartialEq, Eq)]
pub enum Error {
    /// An error from the downloader.
    DownloadError(String),
    /// An error from the transcriber service.
    TranscribeError(String),
}

/// An [`Error`] as text.
pub enum ErrorView {
    DownloadError(Seq<char>),
    TranscribeError(Seq<char>),
}

impl View for Error {
    type V = ErrorView;

    open spec fn view(&self) -> ErrorView {
        match self {
            Error::DownloadError(detail) => ErrorView::DownloadError(detail@),
            Error::TranscribeError(detail) => ErrorView::TranscribeError(detail@),
        }
    }
}

impl ErrorView {
    /// The detail that the error carries.
    pub open spec fn detail(self) -> Seq<char> {
        match self {
            ErrorView::DownloadError(detail) => detail,
            ErrorView::TranscribeError(detail) => detail,
        }
    }

    /// The text shown for the error: a prefix that names the component, then
    /// the detail.
    pub open spec fn message(self) -> Seq<char> {
        match self {
            ErrorView::DownloadError(detail) => "Error Downlaoding Audio: "@ + detail,
            ErrorView::TranscribeError(detail) => "Error Trascribing Audio: "@ + detail,
        }
    }
}

impl Error {
    /// The detail that the error carries.
    pub fn detail(&self) -> (text: &str)
        ensures
            text@ == self@.detail(),
    {
        match self {
            Error::DownloadError(detail) => detail.as_str(),
            Error::TranscribeError(detail) => detail.as_str(),
        }
    }

    /// The text shown for the error.
    pub fn message(&self) -> (text: String)
        ensures
            text@ == self@.message(),
    {
        match self {
            Error::DownloadError(detail) => String::from_str("Error Downlaoding Audio: ").concat(
                detail.as_str(),
            ),
            Error::TranscribeError(detail) => String::from_str("Error Trascribing Audio: ").concat(
                detail.as_str(),
            ),
        }
    }

    /// A copy of the error.
    pub fn duplicate(&self) -> (copy: Error)
        ensures
            copy@ == self@,
    {
        match self {
            Error::DownloadError(detail) => Error::DownloadError(detail.clone()),
            Error::TranscribeError(detail) => Error::TranscribeError(detail.clone()),
        }
    }
}

/// The three stages of the pipeline, in the order in which they run.
#[derive(Clone, Copy, Debug, PartialEq, Eq, Structural)]
pub enum Stage {
    /// Finding the channel's newest video.
    Lookup,
    /// Turning the video into an audio link.
    Conversion,
    /// Turning the audio link into text.
    Transcription,
}

impl Stage {
    /// The stage's name in lower case.
    pub open spec fn spec_name(self) -> Seq<char> {
        match self {
            Stage::Lookup => "lookup"@,
            Stage::Conversion => "conversion"@,
            Stage::Transcription => "transcription"@,
        }
    }

    /// The stage's name in lower case.
    pub fn name(&self) -> (text: &'static str)
        ensures
            text@ == self.spec_name(),
    {
        match self {
            Stage::Lookup => "lookup",
            Stage::Conversion => "conversion",
            Stage::Transcription => "transcription",
        }
    }
}

/// The kinds of failure.
#[derive(Clone, Copy, Debug, PartialEq, Eq, Structural)]
pub enum ErrorKind {
    /// The channel lookup failed, its response could not be read, or it
    /// named no video.
    Lookup,
    /// A job could not be created: the request failed or was turned down,
    /// or its response could not be read or named no job.
    Submission,
    /// A status request failed, or its response could not be read.
    Status,
    /// The remote service reported that the job failed.
    JobFailed,
    /// The poll budget ran out while the job was still pending.
    Timeout,
}

/// A failure together with the stage that produced it.
#[derive(Debug, PartialEq, Eq)]
pub struct StageError {
    /// The stage in which the failure arose.
    pub stage: Stage,
    /// What kind of failure it is.
    pub kind: ErrorKind,
    /// The error itself.
    pub error: Error,
}

/// A [`StageError`] as text.
pub struct StageErrorView {
    pub stage: Stage,
    pub kind: ErrorKind,
    pub error: ErrorView,
}

impl View for StageError {
    type V = StageErrorView;

    open spec fn view(&self) -> StageErrorView {
        StageErrorView { stage: self.stage, kind: self.kind, error: self.error@ }
    }
}

impl StageError {
    /// A copy of the failure.
    pub fn duplicate(&self) -> (copy: StageError)
        ensures
            copy@ == self@,
    {
        StageError { stage: self.stage, kind: self.kind, error: self.error.duplicate() }
    }
}

/// A result whose error is a [`StageError`], as mathematical values.
pub open spec fn outcome_view<T: View>(outcome: Result<T, StageError>) -> Result<
    T::V,
    StageErrorView,
> {
    match outcome {
        Ok(value) => Ok(value@),
        Err(error) => Err(error@),
    }
}

} // verus!

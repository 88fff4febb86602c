//! The transcription job.

use vstd::prelude::*;
use vstd::string::StringExecFns;
use crate::error::{outcome_view, Error, ErrorKind, ErrorView, Stage, StageError, StageErrorView};
use crate::http::{pair, HttpRequest, HttpRequestView, Method};
use crate::job::{JobAction, JobActionView, JobHandle, JobPhase, JobPhaseView, JobStep, JobStepView};
use crate::poll::{JobStatus, JobStatusView, PollBudget, PollError, PollErrorView};

verus! {

/// The url to the assembly ai api for transcribing the audio.
pub const ASSEMBLYAI_API_URL: &'static str = "https://api.assemblyai.com/v2/transcript";

/// The header that carries the transcription service's key.
pub const AUTHORIZATION_HEADER: &'static str = "authorization";

/// The member of a submission's body that names the audio.
pub const AUDIO_URL_FIELD: &'static str = "audio_url";

/// The time between two checks of the status of the transcription.
pub const POLL_INTERVAL: u64 = 10;

/// The status with which the service reports a transcript as done.
pub const STATUS_COMPLETED: &'static str = "completed";

/// The status with which the service reports a job as failed.
pub const STATUS_ERROR: &'static str = "error";

/// A trait for transcribing audio.
pub trait Transcriber {
    /// The job that a transcription is, for the caller to run.
    type Job;

    /// Transcribes the audio.
    fn transcribe(&self, audio_url: &str) -> Self::Job;
}

/// An optional string as text.
pub open spec fn optional_text(text: Option<String>) -> Option<Seq<char>> {
    match text {
        Some(text) => Some(text@),
        None => None,
    }
}

/// The text of an optional text, and no text where there is none.
pub open spec fn text_or_empty(text: Option<Seq<char>>) -> Seq<char> {
    match text {
        Some(text) => text,
        None => Seq::empty(),
    }
}

/// Response from assembly ai.
#[derive(Debug, PartialEq, Eq)]
pub struct TranscribeResponse {
    /// The job's handle.
    pub id: String,
    /// The job's status in the service's words, where it gives one.
    pub status: Option<String>,
    /// The transcript, where there is one.
    pub text: Option<String>,
    /// Why the job failed, where it did.
    pub error: Option<String>,
}

/// A [`TranscribeResponse`] as text.
pub struct TranscribeResponseView {
    pub id: Seq<char>,
    pub status: Option<Seq<char>>,
    pub text: Option<Seq<char>>,
    pub error: Option<Seq<char>>,
}

impl View for TranscribeResponse {
    type V = TranscribeResponseView;

    open spec fn view(&self) -> TranscribeResponseView {
        TranscribeResponseView {
            id: self.id@,
            status: optional_text(self.status),
            text: optional_text(self.text),
            error: optional_text(self.error),
        }
    }
}

impl TranscribeResponseView {
    /// What the response says of the job. The status [`STATUS_ERROR`], or a
    /// reason for failure that is not empty, says that it failed. Else the
    /// status [`STATUS_COMPLETED`] says that it is done, and any other
    /// status that it is pending. A response without a status says that the
    /// job is done by holding a transcript that is not empty.
    pub open spec fn job_status(self) -> JobStatusView {
        if self.status == Some(STATUS_ERROR@) || text_or_empty(self.error).len() > 0 {
            JobStatusView::Failed(text_or_empty(self.error))
        } else if self.status == Some(STATUS_COMPLETED@) {
            JobStatusView::Completed(text_or_empty(self.text))
        } else if self.status is Some {
            JobStatusView::Pending
        } else if text_or_empty(self.text).len() > 0 {
            JobStatusView::Completed(text_or_empty(self.text))
        } else {
            JobStatusView::Pending
        }
    }
}

/// Whether an optional string is the text `word`.
fn is_word(text: &Option<String>, word: &str) -> (same: bool)
    ensures
        same == (optional_text(*text) == Some(word@)),
{
    match text {
        Some(text) => *text == word.to_owned(),
        None => false,
    }
}

/// The text of an optional string, and no text where there is none.
fn owned_or_empty(text: &Option<String>) -> (owned: String)
    ensures
        owned@ == text_or_empty(optional_text(*text)),
{
    match text {
        Some(text) => text.clone(),
        None => String::new(),
    }
}

impl TranscribeResponse {
    /// What the response says of the job.
    pub fn job_status(&self) -> (status: JobStatus)
        ensures
            status@ == self@.job_status(),
    {
        let reason = owned_or_empty(&self.error);
        if is_word(&self.status, STATUS_ERROR) || !reason.as_str().is_empty() {
            JobStatus::Failed(reason)
        } else if is_word(&self.status, STATUS_COMPLETED) {
            JobStatus::Completed(owned_or_empty(&self.text))
        } else if self.status.is_some() {
            JobStatus::Pending
        } else {
            let text = owned_or_empty(&self.text);
            if text.as_str().is_empty() {
                JobStatus::Pending
            } else {
                JobStatus::Completed(text)
            }
        }
    }
}

/// What came back for the request that creates a transcription job.
#[derive(Debug, PartialEq, Eq)]
pub enum SubmitReply {
    /// No response arrived; the message of the error.
    Unreachable(String),
    /// The service accepted the request. The response as it was read, or
    /// the message of the error that kept it from being read.
    Accepted(Result<TranscribeResponse, String>),
    /// The service turned the request down. The body of the response, or
    /// the message of the error that kept it from being read.
    Rejected(Result<String, String>),
}

/// A [`SubmitReply`] as text.
pub enum SubmitReplyView {
    Unreachable(Seq<char>),
    Accepted(Result<TranscribeResponseView, Seq<char>>),
    Rejected(Result<Seq<char>, Seq<char>>),
}

impl View for SubmitReply {
    type V = SubmitReplyView;

    open spec fn view(&self) -> SubmitReplyView {
        match self {
            SubmitReply::Unreachable(message) => SubmitReplyView::Unreachable(message@),
            SubmitReply::Accepted(Ok(response)) => SubmitReplyView::Accepted(Ok(response@)),
            SubmitReply::Accepted(Err(message)) => SubmitReplyView::Accepted(Err(message@)),
            SubmitReply::Rejected(Ok(body)) => SubmitReplyView::Rejected(Ok(body@)),
            SubmitReply::Rejected(Err(message)) => SubmitReplyView::Rejected(Err(message@)),
        }
    }
}

/// What came back for a status request of a transcription job, as text: the
/// response as it was read, or the message of the error that kept it from
/// arriving or from being read.
pub open spec fn status_reply_view(reply: Result<TranscribeResponse, String>) -> Result<
    TranscribeResponseView,
    Seq<char>,
> {
    match reply {
        Ok(response) => Ok(response@),
        Err(message) => Err(message@),
    }
}

/// A failure of the transcriber.
pub open spec fn transcribe_failure(kind: ErrorKind, detail: Seq<char>) -> StageErrorView {
    StageErrorView { stage: Stage::Transcription, kind, error: ErrorView::TranscribeError(detail) }
}

fn transcribe_error(kind: ErrorKind, detail: String) -> (error: StageError)
    ensures
        error@ == transcribe_failure(kind, detail@),
{
    StageError { stage: Stage::Transcription, kind, error: Error::TranscribeError(detail) }
}

/// The response to the request that creates a transcription job. The
/// submission fails where no response arrived or it could not be read, and
/// where the service turned the request down. What the service then said is
/// handed on as the detail of a download error.
pub open spec fn start_transcription(reply: SubmitReplyView) -> Result<
    TranscribeResponseView,
    StageErrorView,
> {
    match reply {
        SubmitReplyView::Unreachable(message) => Err(
            transcribe_failure(ErrorKind::Submission, message),
        ),
        SubmitReplyView::Accepted(Ok(response)) => Ok(response),
        SubmitReplyView::Accepted(Err(message)) => Err(
            transcribe_failure(ErrorKind::Submission, message),
        ),
        SubmitReplyView::Rejected(Ok(body)) => Err(
            StageErrorView {
                stage: Stage::Transcription,
                kind: ErrorKind::Submission,
                error: ErrorView::DownloadError(body),
            },
        ),
        SubmitReplyView::Rejected(Err(message)) => Err(
            transcribe_failure(ErrorKind::Submission, message),
        ),
    }
}

/// The response to a status request of a transcription job. The request
/// fails where no response arrived or it could not be read.
pub open spec fn get_transcription_result(reply: Result<TranscribeResponseView, Seq<char>>) -> Result<
    TranscribeResponseView,
    StageErrorView,
> {
    match reply {
        Ok(response) => Ok(response),
        Err(message) => Err(transcribe_failure(ErrorKind::Status, message)),
    }
}

/// The failure of a transcription job whose poll loop gave up.
pub open spec fn transcription_failure(error: PollErrorView) -> StageErrorView {
    match error {
        PollErrorView::Timeout => transcribe_failure(
            ErrorKind::Timeout,
            "Transcription failed. Maximum timeout reached."@,
        ),
        PollErrorView::Failed(detail) => transcribe_failure(ErrorKind::JobFailed, detail),
    }
}

/// The handle that a job gets from the response to its submission.
pub open spec fn submitted_handle(
    response: Result<TranscribeResponseView, StageErrorView>,
) -> Result<Seq<char>, StageErrorView> {
    match response {
        Ok(response) => Ok(response.id),
        Err(error) => Err(error),
    }
}

/// The status that a job gets from the response to a status request.
pub open spec fn reported_status(
    response: Result<TranscribeResponseView, StageErrorView>,
) -> Result<JobStatusView, StageErrorView> {
    match response {
        Ok(response) => Ok(response.job_status()),
        Err(error) => Err(error),
    }
}

/// A Transcriber for latest youtube video.
#[derive(Debug, PartialEq, Eq)]
pub struct AssemblyAiTranscriber {
    /// Api key for assembly ai.
    assemblyai_api_key: String,
    /// The budget under which a transcription is polled.
    budget: PollBudget,
}

/// An [`AssemblyAiTranscriber`] as a mathematical value.
pub struct TranscriberView {
    pub assemblyai_api_key: Seq<char>,
    pub budget: PollBudget,
}

impl View for AssemblyAiTranscriber {
    type V = TranscriberView;

    closed spec fn view(&self) -> TranscriberView {
        TranscriberView { assemblyai_api_key: self.assemblyai_api_key@, budget: self.budget }
    }
}

impl TranscriberView {
    /// The request that creates the job that transcribes the audio at
    /// `audio_url`.
    pub open spec fn start_transcription_request(self, audio_url: Seq<char>) -> HttpRequestView {
        HttpRequestView {
            method: Method::Post,
            url: ASSEMBLYAI_API_URL@,
            header: Some((AUTHORIZATION_HEADER@, self.assemblyai_api_key)),
            json: Some((AUDIO_URL_FIELD@, audio_url)),
        }
    }

    /// The request that asks for the status of the job with the handle `id`.
    pub open spec fn get_transcription_result_request(self, id: Seq<char>) -> HttpRequestView {
        HttpRequestView {
            method: Method::Get,
            url: ASSEMBLYAI_API_URL@ + "/"@ + id,
            header: Some((AUTHORIZATION_HEADER@, self.assemblyai_api_key)),
            json: None,
        }
    }
}

impl AssemblyAiTranscriber {
    /// Creates a new transcriber, whose jobs are polled every
    /// [`POLL_INTERVAL`] until `max_timeout` has passed.
    pub fn new(assemblyai_api_key: &str, max_timeout: u64) -> (made: Self)
        ensures
            made@ == (TranscriberView {
                assemblyai_api_key: assemblyai_api_key@,
                budget: PollBudget {
                    interval: POLL_INTERVAL,
                    max_attempts: None,
                    deadline: Some(max_timeout),
                },
            }),
    {
        Self {
            assemblyai_api_key: assemblyai_api_key.to_owned(),
            budget: PollBudget::until(POLL_INTERVAL, max_timeout),
        }
    }

    /// The same transcriber, whose jobs are polled under `budget`.
    pub fn with_budget(self, budget: PollBudget) -> (made: Self)
        ensures
            made@ == (TranscriberView { budget, ..self@ }),
    {
        Self { assemblyai_api_key: self.assemblyai_api_key, budget }
    }

    /// The budget under which a transcription is polled.
    pub fn poll_budget(&self) -> (budget: PollBudget)
        ensures
            budget == self@.budget,
    {
        self.budget
    }

    /// A copy of the transcriber.
    pub fn duplicate(&self) -> (copy: Self)
        ensures
            copy@ == self@,
    {
        Self { assemblyai_api_key: self.assemblyai_api_key.clone(), budget: self.budget }
    }

    /// The request that starts the transcription process.
    pub fn start_transcription_request(&self, audio_url: &str) -> (request: HttpRequest)
        ensures
            request@ == self@.start_transcription_request(audio_url@),
    {
        HttpRequest {
            method: Method::Post,
            url: ASSEMBLYAI_API_URL.to_owned(),
            header: Some(pair(AUTHORIZATION_HEADER, self.assemblyai_api_key.as_str())),
            json: Some(pair(AUDIO_URL_FIELD, audio_url)),
        }
    }

    /// Starts the transcription process: the response to the request that
    /// creates the job, from what came back for it.
    pub fn start_transcription(&self, reply: SubmitReply) -> (response: Result<
        TranscribeResponse,
        StageError,
    >)
        ensures
            outcome_view(response) == start_transcription(reply@),
    {
        match reply {
            SubmitReply::Unreachable(message) => Err(
                transcribe_error(ErrorKind::Submission, message),
            ),
            SubmitReply::Accepted(Ok(response)) => Ok(response),
            SubmitReply::Accepted(Err(message)) => Err(
                transcribe_error(ErrorKind::Submission, message),
            ),
            SubmitReply::Rejected(Ok(body)) => Err(
                StageError {
                    stage: Stage::Transcription,
                    kind: ErrorKind::Submission,
                    error: Error::DownloadError(body),
                },
            ),
            SubmitReply::Rejected(Err(message)) => Err(
                transcribe_error(ErrorKind::Submission, message),
            ),
        }
    }

    /// The request that gets the transcription result.
    pub fn get_transcription_result_request(&self, id: &str) -> (request: HttpRequest)
        ensures
            request@ == self@.get_transcription_result_request(id@),
    {
        HttpRequest {
            method: Method::Get,
            url: String::from_str(ASSEMBLYAI_API_URL).concat("/").concat(id),
            header: Some(pair(AUTHORIZATION_HEADER, self.assemblyai_api_key.as_str())),
            json: None,
        }
    }

    /// Gets the transcription result: the response to a status request, from
    /// what came back for it.
    pub fn get_transcription_result(&self, reply: Result<TranscribeResponse, String>) -> (response:
        Result<TranscribeResponse, StageError>)
        ensures
            outcome_view(response) == get_transcription_result(status_reply_view(reply)),
    {
        match reply {
            Ok(response) => Ok(response),
            Err(message) => Err(transcribe_error(ErrorKind::Status, message)),
        }
    }

    /// The failure of a transcription job whose poll loop gave up.
    pub fn poll_failure(error: PollError) -> (failure: StageError)
        ensures
            failure@ == transcription_failure(error@),
    {
        match error {
            PollError::Timeout => transcribe_error(
                ErrorKind::Timeout,
                String::from_str("Transcription failed. Maximum timeout reached."),
            ),
            PollError::Failed(detail) => transcribe_error(ErrorKind::JobFailed, detail),
        }
    }

}

impl Transcriber for AssemblyAiTranscriber {
    type Job = TranscriptionJob;

    /// Transcribes the audio: the job that does so, before its submission.
    fn transcribe(&self, audio_url: &str) -> (job: TranscriptionJob)
        ensures
            job@ == (TranscriptionJobView {
                transcriber: self@,
                audio_url: audio_url@,
                phase: JobPhaseView::Submitting,
            }),
    {
        TranscriptionJob {
            transcriber: self.duplicate(),
            audio_url: audio_url.to_owned(),
            phase: JobPhase::Submitting,
        }
    }
}

/// The job that turns an audio link into text.
#[derive(Debug, PartialEq, Eq)]
pub struct TranscriptionJob {
    transcriber: AssemblyAiTranscriber,
    audio_url: String,
    phase: JobPhase,
}

/// A [`TranscriptionJob`] as a mathematical value.
pub struct TranscriptionJobView {
    pub transcriber: TranscriberView,
    pub audio_url: Seq<char>,
    pub phase: JobPhaseView,
}

impl View for TranscriptionJob {
    type V = TranscriptionJobView;

    closed spec fn view(&self) -> TranscriptionJobView {
        TranscriptionJobView {
            transcriber: self.transcriber@,
            audio_url: self.audio_url@,
            phase: self.phase@,
        }
    }
}

impl TranscriptionJobView {
    /// What to do at time `now`: what the job's phase asks for, with its
    /// requests written out.
    pub open spec fn next(self, now: nat) -> JobActionView {
        match self.phase.step(now) {
            JobStepView::Submit => JobActionView::Submit(
                self.transcriber.start_transcription_request(self.audio_url),
            ),
            JobStepView::Wait(time) => JobActionView::Wait(time),
            JobStepView::Poll(handle) => JobActionView::Poll(
                self.transcriber.get_transcription_result_request(handle),
            ),
            JobStepView::Return(text) => JobActionView::Finish(Ok(text)),
            JobStepView::GiveUp(error) => JobActionView::Finish(Err(transcription_failure(error))),
            JobStepView::Fail(error) => JobActionView::Finish(Err(error)),
        }
    }

    /// The job after what came back for the request that creates it.
    pub open spec fn on_submit(self, reply: SubmitReplyView, now: nat) -> Self {
        TranscriptionJobView {
            phase: self.phase.submitted(
                submitted_handle(start_transcription(reply)),
                self.transcriber.budget,
                now,
            ),
            ..self
        }
    }

    /// The job after what came back for a status request.
    pub open spec fn on_status(self, reply: Result<TranscribeResponseView, Seq<char>>, now: nat) -> Self {
        TranscriptionJobView {
            phase: self.phase.answered(reported_status(get_transcription_result(reply)), now),
            ..self
        }
    }
}

impl TranscriptionJob {
    /// A job that is polled is polled under the transcriber's budget, and
    /// one that has failed holds a failure of the transcription stage.
    #[verifier::type_invariant]
    spec fn consistent(self) -> bool {
        &&& self.phase@ matches JobPhaseView::Polling { poll, .. } ==> poll.budget
            == self.transcriber@.budget
        &&& self.phase@ matches JobPhaseView::Failed(error) ==> error.stage
            == Stage::Transcription
    }

    /// The budget under which the job is polled.
    pub fn budget(&self) -> (budget: PollBudget)
        ensures
            budget == self@.transcriber.budget,
    {
        self.transcriber.poll_budget()
    }

    /// What to do at time `now`.
    pub fn next(&self, now: u64) -> (action: JobAction)
        ensures
            action@ == self@.next(now as nat),
            action@ matches JobActionView::Finish(Err(error)) ==> error.stage
                == Stage::Transcription,
    {
        proof {
            use_type_invariant(self);
        }
        match self.phase.step(now) {
            JobStep::Submit => JobAction::Submit(
                self.transcriber.start_transcription_request(self.audio_url.as_str()),
            ),
            JobStep::Wait(time) => JobAction::Wait(time),
            JobStep::Poll(handle) => JobAction::Poll(
                self.transcriber.get_transcription_result_request(handle.id.as_str()),
            ),
            JobStep::Return(text) => JobAction::Finish(Ok(text)),
            JobStep::GiveUp(error) => JobAction::Finish(
                Err(AssemblyAiTranscriber::poll_failure(error)),
            ),
            JobStep::Fail(error) => JobAction::Finish(Err(error)),
        }
    }

    /// Takes what came back for the request that creates the job, at time
    /// `now`.
    pub fn on_submit(self, reply: SubmitReply, now: u64) -> (next: TranscriptionJob)
        ensures
            next@ == self@.on_submit(reply@, now as nat),
    {
        proof {
            use_type_invariant(&self);
        }
        let handle = match self.transcriber.start_transcription(reply) {
            Ok(response) => Ok(JobHandle { id: response.id }),
            Err(error) => Err(error),
        };
        let budget = self.transcriber.poll_budget();
        TranscriptionJob {
            transcriber: self.transcriber,
            audio_url: self.audio_url,
            phase: self.phase.submitted(handle, budget, now),
        }
    }

    /// Takes what came back for a status request, at time `now`.
    pub fn on_status(self, reply: Result<TranscribeResponse, String>, now: u64) -> (next:
        TranscriptionJob)
        requires
            now + self@.transcriber.budget.interval <= u64::MAX,
        ensures
            next@ == self@.on_status(status_reply_view(reply), now as nat),
    {
        proof {
            use_type_invariant(&self);
        }
        let status = match self.transcriber.get_transcription_result(reply) {
            Ok(response) => Ok(response.job_status()),
            Err(error) => Err(error),
        };
        TranscriptionJob {
            transcriber: self.transcriber,
            audio_url: self.audio_url,
            phase: self.phase.answered(status, now),
        }
    }
}

} // verus!

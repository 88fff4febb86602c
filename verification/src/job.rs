//! What the two remote jobs have in common: a job is submitted once, and
//! then polled under a budget until it is done, has failed or has run out of
//! budget.

use vstd::prelude::*;
use crate::error::{StageError, StageErrorView};
use crate::http::{HttpRequest, HttpRequestView};
use crate::poll::{
    JobStatus, JobStatusView, PollAction, PollActionView, PollBudget, PollError, PollErrorView,
    PollLoop, PollState,
};

verus! {

/// The name under which a remote service knows a job.
#[derive(Debug, PartialEq, Eq)]
pub struct JobHandle {
    pub id: String,
}

impl View for JobHandle {
    type V = Seq<char>;

    open spec fn view(&self) -> Seq<char> {
        self.id@
    }
}

impl JobHandle {
    /// A copy of the handle.
    pub fn duplicate(&self) -> (copy: JobHandle)
        ensures
            copy@ == self@,
    {
        JobHandle { id: self.id.clone() }
    }
}

/// What the caller who runs a job is to do next.
#[derive(Debug, PartialEq, Eq)]
pub enum JobAction {
    /// Send this request, which creates the job, and hand back the reply.
    Submit(HttpRequest),
    /// Send this request, which asks for the job's status, and hand back the
    /// reply.
    Poll(HttpRequest),
    /// Let this much time pass, then ask the job again.
    Wait(u64),
    /// Stop: the job has ended, with its result or its failure.
    Finish(Result<String, StageError>),
}

/// A [`JobAction`] as text.
pub enum JobActionView {
    Submit(HttpRequestView),
    Poll(HttpRequestView),
    Wait(nat),
    Finish(Result<Seq<char>, StageErrorView>),
}

impl View for JobAction {
    type V = JobActionView;

    open spec fn view(&self) -> JobActionView {
        match self {
            JobAction::Submit(request) => JobActionView::Submit(request@),
            JobAction::Poll(request) => JobActionView::Poll(request@),
            JobAction::Wait(time) => JobActionView::Wait(*time as nat),
            JobAction::Finish(Ok(result)) => JobActionView::Finish(Ok(result@)),
            JobAction::Finish(Err(error)) => JobActionView::Finish(Err(error@)),
        }
    }
}

impl JobActionView {
    /// To send the request that creates the job, or to stop where it could
    /// not be written.
    pub open spec fn submit(request: Result<HttpRequestView, StageErrorView>) -> JobActionView {
        match request {
            Ok(request) => JobActionView::Submit(request),
            Err(error) => JobActionView::Finish(Err(error)),
        }
    }

    /// To send the request that asks for the job's status, or to stop where
    /// it could not be written.
    pub open spec fn poll(request: Result<HttpRequestView, StageErrorView>) -> JobActionView {
        match request {
            Ok(request) => JobActionView::Poll(request),
            Err(error) => JobActionView::Finish(Err(error)),
        }
    }
}

impl JobAction {
    /// To send the request that creates the job, or to stop where it could
    /// not be written.
    pub fn submit(request: Result<HttpRequest, StageError>) -> (action: JobAction)
        ensures
            action@ == JobActionView::submit(crate::error::outcome_view(request)),
    {
        match request {
            Ok(request) => JobAction::Submit(request),
            Err(error) => JobAction::Finish(Err(error)),
        }
    }

    /// To send the request that asks for the job's status, or to stop where
    /// it could not be written.
    pub fn poll(request: Result<HttpRequest, StageError>) -> (action: JobAction)
        ensures
            action@ == JobActionView::poll(crate::error::outcome_view(request)),
    {
        match request {
            Ok(request) => JobAction::Poll(request),
            Err(error) => JobAction::Finish(Err(error)),
        }
    }
}

/// What a job is to do next, before its requests are written out.
#[derive(Debug, PartialEq, Eq)]
pub enum JobStep {
    /// Create the job.
    Submit,
    /// Let this much time pass.
    Wait(u64),
    /// Ask for the status of the job with this handle.
    Poll(JobHandle),
    /// Stop: the job is done, with this result.
    Return(String),
    /// Stop: the poll loop gave up.
    GiveUp(PollError),
    /// Stop: a request failed.
    Fail(StageError),
}

/// A [`JobStep`] as text.
pub enum JobStepView {
    Submit,
    Wait(nat),
    Poll(Seq<char>),
    Return(Seq<char>),
    GiveUp(PollErrorView),
    Fail(StageErrorView),
}

impl View for JobStep {
    type V = JobStepView;

    open spec fn view(&self) -> JobStepView {
        match self {
            JobStep::Submit => JobStepView::Submit,
            JobStep::Wait(time) => JobStepView::Wait(*time as nat),
            JobStep::Poll(handle) => JobStepView::Poll(handle@),
            JobStep::Return(result) => JobStepView::Return(result@),
            JobStep::GiveUp(error) => JobStepView::GiveUp(error@),
            JobStep::Fail(error) => JobStepView::Fail(error@),
        }
    }
}

/// How far a job has come.
#[derive(Debug, PartialEq, Eq)]
pub enum JobPhase {
    /// The job has yet to be created.
    Submitting,
    /// The job was created at time `since` and is polled from then on.
    Polling { handle: JobHandle, since: u64, poll: PollLoop },
    /// A request of the job failed.
    Failed(StageError),
}

/// A [`JobPhase`] as a mathematical value.
pub enum JobPhaseView {
    Submitting,
    Polling { handle: Seq<char>, since: nat, poll: PollState },
    Failed(StageErrorView),
}

impl View for JobPhase {
    type V = JobPhaseView;

    open spec fn view(&self) -> JobPhaseView {
        match self {
            JobPhase::Submitting => JobPhaseView::Submitting,
            JobPhase::Polling { handle, since, poll } => JobPhaseView::Polling {
                handle: handle@,
                since: *since as nat,
                poll: poll@,
            },
            JobPhase::Failed(error) => JobPhaseView::Failed(error@),
        }
    }
}

/// The time that has passed at `now` since `since`, and none if the clock
/// reads less than it did then.
pub open spec fn elapsed(since: nat, now: nat) -> nat {
    if now >= since {
        (now - since) as nat
    } else {
        0
    }
}

impl JobPhaseView {
    /// What to do at time `now`. A job that is polled does what its poll
    /// loop asks for, on a clock that started when the job was created.
    pub open spec fn step(self, now: nat) -> JobStepView {
        match self {
            JobPhaseView::Submitting => JobStepView::Submit,
            JobPhaseView::Polling { handle, since, poll } => match poll.next(elapsed(since, now)) {
                PollActionView::Wait(time) => JobStepView::Wait(time),
                PollActionView::Request => JobStepView::Poll(handle),
                PollActionView::Return(result) => JobStepView::Return(result),
                PollActionView::Fail(error) => JobStepView::GiveUp(error),
            },
            JobPhaseView::Failed(error) => JobStepView::Fail(error),
        }
    }

    /// The job after the request to create it was answered at time `now`:
    /// with a handle it is polled under `budget` from then on, without one
    /// it has failed. A job that is past its creation stays as it is.
    pub open spec fn submitted(
        self,
        reply: Result<Seq<char>, StageErrorView>,
        budget: PollBudget,
        now: nat,
    ) -> JobPhaseView {
        match self {
            JobPhaseView::Submitting => match reply {
                Ok(handle) => JobPhaseView::Polling {
                    handle,
                    since: now,
                    poll: PollState::start(budget),
                },
                Err(error) => JobPhaseView::Failed(error),
            },
            _ => self,
        }
    }

    /// The job after a status request was answered at time `now`: a status
    /// is recorded by the poll loop, and a request that failed makes the job
    /// fail. A job that is not polled stays as it is.
    pub open spec fn answered(
        self,
        reply: Result<JobStatusView, StageErrorView>,
        now: nat,
    ) -> JobPhaseView {
        match self {
            JobPhaseView::Polling { handle, since, poll } => match reply {
                Ok(status) => JobPhaseView::Polling {
                    handle,
                    since,
                    poll: poll.record(status, elapsed(since, now)),
                },
                Err(error) => JobPhaseView::Failed(error),
            },
            _ => self,
        }
    }

    /// The interval of the budget under which the job is polled.
    pub open spec fn pace(self) -> nat {
        match self {
            JobPhaseView::Polling { poll, .. } => poll.budget.pace(),
            _ => 0,
        }
    }
}

/// The time that has passed at `now` since `since`.
fn time_since(since: u64, now: u64) -> (time: u64)
    ensures
        time == elapsed(since as nat, now as nat),
{
    if now >= since {
        now - since
    } else {
        0
    }
}

impl JobPhase {
    /// What to do at time `now`.
    pub fn step(&self, now: u64) -> (step: JobStep)
        ensures
            step@ == self@.step(now as nat),
    {
        match self {
            JobPhase::Submitting => JobStep::Submit,
            JobPhase::Polling { handle, since, poll } => match poll.next(time_since(*since, now)) {
                PollAction::Wait(time) => JobStep::Wait(time),
                PollAction::Request => JobStep::Poll(handle.duplicate()),
                PollAction::Return(result) => JobStep::Return(result),
                PollAction::Fail(error) => JobStep::GiveUp(error),
            },
            JobPhase::Failed(error) => JobStep::Fail(error.duplicate()),
        }
    }

    /// The job after the request to create it was answered at time `now`.
    pub fn submitted(self, reply: Result<JobHandle, StageError>, budget: PollBudget, now: u64) -> (next:
        JobPhase)
        ensures
            next@ == self@.submitted(crate::error::outcome_view(reply), budget, now as nat),
    {
        match self {
            JobPhase::Submitting => match reply {
                Ok(handle) => JobPhase::Polling { handle, since: now, poll: PollLoop::new(budget) },
                Err(error) => JobPhase::Failed(error),
            },
            other => other,
        }
    }

    /// The job after a status request was answered at time `now`.
    pub fn answered(self, reply: Result<JobStatus, StageError>, now: u64) -> (next: JobPhase)
        requires
            now + self@.pace() <= u64::MAX,
        ensures
            next@ == self@.answered(crate::error::outcome_view(reply), now as nat),
    {
        match self {
            JobPhase::Polling { handle, since, poll } => match reply {
                Ok(status) => {
                    let mut poll = poll;
                    poll.record(status, time_since(since, now));
                    JobPhase::Polling { handle, since, poll }
                },
                Err(error) => JobPhase::Failed(error),
            },
            other => other,
        }
    }
}

/// A job is submitted once: after the answer to its submission it never asks
/// to be created again, whatever it hears later.
pub proof fn job_is_submitted_once(
    phase: JobPhaseView,
    handle: Result<Seq<char>, StageErrorView>,
    status: Result<JobStatusView, StageErrorView>,
    budget: PollBudget,
    at: nat,
    now: nat,
)
    ensures
        !(phase.submitted(handle, budget, at).step(now) is Submit),
        !(phase is Submitting) ==> phase.submitted(handle, budget, at) == phase,
        !(phase is Submitting) ==> !(phase.answered(status, at).step(now) is Submit),
{
}

/// A job whose request failed has ended with that failure, whatever it hears
/// later.
pub proof fn failed_job_stays_failed(
    phase: JobPhaseView,
    handle: Result<Seq<char>, StageErrorView>,
    status: Result<JobStatusView, StageErrorView>,
    budget: PollBudget,
    at: nat,
    now: nat,
)
    requires
        phase is Failed,
    ensures
        phase.submitted(handle, budget, at) == phase,
        phase.answered(status, at) == phase,
        phase.step(now) == JobStepView::Fail(phase->Failed_0),
{
}

/// A pending status keeps the job as it is but for the count of attempts and
/// the time of the next request.
pub proof fn pending_status_keeps_the_job(phase: JobPhaseView, at: nat)
    requires
        phase is Polling,
    ensures
        phase.answered(Ok(JobStatusView::Pending), at) matches JobPhaseView::Polling {
            handle,
            since,
            poll,
        } && handle == phase->handle && since == phase->since && poll.budget == phase->poll.budget
            && poll.outcome == phase->poll.outcome && poll.attempts == phase->poll.attempts + (
        if phase->poll.open() {
            1nat
        } else {
            0nat
        }),
{
}

} // verus!

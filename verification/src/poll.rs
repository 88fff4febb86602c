//! The poll loop that both jobs share: when to wait, when to ask for the
//! job's status, and when to stop.
//!
//! Time is counted in whole units from the moment the loop is made. The
//! caller reads the clock and performs what the loop asks for.

use vstd::prelude::*;

verus! {

/// What one status request found.
#[derive(Debug, PartialEq, Eq)]
pub enum JobStatus {
    /// The job is still running.
    Pending,
    /// The job is done, with its result.
    Completed(String),
    /// The remote service reports that the job failed, with its reason.
    Failed(String),
}

/// A [`JobStatus`] as text.
pub enum JobStatusView {
    Pending,
    Completed(Seq<char>),
    Failed(Seq<char>),
}

impl View for JobStatus {
    type V = JobStatusView;

    open spec fn view(&self) -> JobStatusView {
        match self {
            JobStatus::Pending => JobStatusView::Pending,
            JobStatus::Completed(result) => JobStatusView::Completed(result@),
            JobStatus::Failed(detail) => JobStatusView::Failed(detail@),
        }
    }
}

impl JobStatus {
    /// A copy of the status.
    pub fn duplicate(&self) -> (copy: JobStatus)
        ensures
            copy@ == self@,
    {
        match self {
            JobStatus::Pending => JobStatus::Pending,
            JobStatus::Completed(result) => JobStatus::Completed(result.clone()),
            JobStatus::Failed(detail) => JobStatus::Failed(detail.clone()),
        }
    }
}

/// How long a job may be polled: the time between two status requests, and a
/// limit on their number, on the time that the whole loop may take, or on
/// both. Where both are set, the one that is reached first ends the loop.
#[derive(Clone, Copy, Debug, PartialEq, Eq)]
pub struct PollBudget {
    /// The time to let pass before each status request.
    pub interval: u64,
    /// The largest number of status requests.
    pub max_attempts: Option<u64>,
    /// The time, counted from the start of the loop, at which it gives up.
    pub deadline: Option<u64>,
}

impl PollBudget {
    /// The time between two status requests as a mathematical number.
    pub open spec fn pace(self) -> nat {
        self.interval as nat
    }

    /// The number of status requests that the budget allows. Without a limit
    /// of its own it is the largest number that the attempt counter holds.
    pub open spec fn attempt_cap(self) -> nat {
        match self.max_attempts {
            Some(limit) => limit as nat,
            None => u64::MAX as nat,
        }
    }

    /// Whether the deadline has been reached at time `now`.
    pub open spec fn expired(self, now: nat) -> bool {
        match self.deadline {
            Some(deadline) => now >= deadline,
            None => false,
        }
    }

    /// The earlier of `due` and the deadline.
    pub open spec fn wake(self, due: nat) -> nat {
        match self.deadline {
            Some(deadline) => if deadline < due {
                deadline as nat
            } else {
                due
            },
            None => due,
        }
    }

    /// Whether the budget lets request number `n` be made when every request
    /// before it found the job pending and no request takes any time.
    pub open spec fn admits(self, n: nat) -> bool {
        &&& n <= self.attempt_cap()
        &&& match self.deadline {
            Some(deadline) => n * self.pace() < deadline,
            None => true,
        }
    }

    /// A budget of `max_attempts` status requests, `interval` apart.
    pub fn attempts(interval: u64, max_attempts: u64) -> (budget: PollBudget)
        ensures
            budget == (PollBudget { interval, max_attempts: Some(max_attempts), deadline: None }),
    {
        PollBudget { interval, max_attempts: Some(max_attempts), deadline: None }
    }

    /// A budget of status requests `interval` apart until `deadline`.
    pub fn until(interval: u64, deadline: u64) -> (budget: PollBudget)
        ensures
            budget == (PollBudget { interval, max_attempts: None, deadline: Some(deadline) }),
    {
        PollBudget { interval, max_attempts: None, deadline: Some(deadline) }
    }

    /// The same budget, which also gives up at `deadline`.
    pub fn with_deadline(self, deadline: u64) -> (budget: PollBudget)
        ensures
            budget == (PollBudget { deadline: Some(deadline), ..self }),
    {
        PollBudget { interval: self.interval, max_attempts: self.max_attempts, deadline: Some(deadline) }
    }
}

/// Why a poll loop gave up.
#[derive(Debug, PartialEq, Eq)]
pub enum PollError {
    /// The budget ran out while the job was still pending.
    Timeout,
    /// The remote service reported that the job failed, with its reason.
    Failed(String),
}

/// A [`PollError`] as text.
pub enum PollErrorView {
    Timeout,
    Failed(Seq<char>),
}

impl View for PollError {
    type V = PollErrorView;

    open spec fn view(&self) -> PollErrorView {
        match self {
            PollError::Timeout => PollErrorView::Timeout,
            PollError::Failed(detail) => PollErrorView::Failed(detail@),
        }
    }
}

/// What the caller of a poll loop is to do next.
#[derive(Debug, PartialEq, Eq)]
pub enum PollAction {
    /// Let this much time pass, then ask the loop again.
    Wait(u64),
    /// Ask the remote service for the job's status and record the answer.
    Request,
    /// Stop: the job is done, with this result.
    Return(String),
    /// Stop: the loop gave up.
    Fail(PollError),
}

/// A [`PollAction`] as text.
pub enum PollActionView {
    Wait(nat),
    Request,
    Return(Seq<char>),
    Fail(PollErrorView),
}

impl View for PollAction {
    type V = PollActionView;

    open spec fn view(&self) -> PollActionView {
        match self {
            PollAction::Wait(time) => PollActionView::Wait(*time as nat),
            PollAction::Request => PollActionView::Request,
            PollAction::Return(result) => PollActionView::Return(result@),
            PollAction::Fail(error) => PollActionView::Fail(error@),
        }
    }
}

/// The state of a poll loop as a mathematical value.
pub struct PollState {
    pub budget: PollBudget,
    /// The number of status requests whose answers were recorded.
    pub attempts: nat,
    /// The time from which the next status request may be made.
    pub due: nat,
    /// The last answer recorded; pending before the first.
    pub outcome: JobStatusView,
}

impl PollState {
    /// The loop before its first request, which is due one interval after the
    /// start.
    pub open spec fn start(budget: PollBudget) -> PollState {
        PollState {
            budget,
            attempts: 0,
            due: budget.interval as nat,
            outcome: JobStatusView::Pending,
        }
    }

    /// Whether the loop still takes answers: nothing but pending was seen and
    /// the budget has attempts left.
    pub open spec fn open(self) -> bool {
        self.outcome is Pending && self.attempts < self.budget.attempt_cap()
    }

    /// What to do at time `now`. A job seen completed or failed ends the
    /// loop with that. A pending job ends it with a timeout once the attempts
    /// are used up or the deadline is reached; before that the loop waits,
    /// at most up to the deadline, until the next request is due, and then
    /// asks for it.
    pub open spec fn next(self, now: nat) -> PollActionView {
        match self.outcome {
            JobStatusView::Completed(result) => PollActionView::Return(result),
            JobStatusView::Failed(detail) => PollActionView::Fail(PollErrorView::Failed(detail)),
            JobStatusView::Pending => if self.attempts >= self.budget.attempt_cap()
                || self.budget.expired(now) {
                PollActionView::Fail(PollErrorView::Timeout)
            } else if now >= self.due {
                PollActionView::Request
            } else {
                PollActionView::Wait((self.budget.wake(self.due) - now) as nat)
            },
        }
    }

    /// The loop after the answer `status` arrived at time `now`. A loop that
    /// is still open counts the attempt, keeps the answer and puts the next
    /// request one interval later. An answer that arrives when the deadline
    /// is reached comes too late: the attempt counts, and the job stays
    /// pending. A loop that is not open stays as it is.
    pub open spec fn record(self, status: JobStatusView, now: nat) -> PollState {
        if self.open() {
            PollState {
                budget: self.budget,
                attempts: self.attempts + 1,
                due: (now + self.budget.interval) as nat,
                outcome: if self.budget.expired(now) {
                    JobStatusView::Pending
                } else {
                    status
                },
            }
        } else {
            self
        }
    }
}

/// A poll loop.
#[derive(Debug, PartialEq, Eq)]
pub struct PollLoop {
    budget: PollBudget,
    attempts: u64,
    due: u64,
    outcome: JobStatus,
}

impl View for PollLoop {
    type V = PollState;

    closed spec fn view(&self) -> PollState {
        PollState {
            budget: self.budget,
            attempts: self.attempts as nat,
            due: self.due as nat,
            outcome: self.outcome@,
        }
    }
}

impl PollLoop {
    /// A loop under `budget` that starts now, at time 0.
    pub fn new(budget: PollBudget) -> (made: PollLoop)
        ensures
            made@ == PollState::start(budget),
    {
        PollLoop { budget, attempts: 0, due: budget.interval, outcome: JobStatus::Pending }
    }

    /// The budget of the loop.
    pub fn budget(&self) -> (budget: PollBudget)
        ensures
            budget == self@.budget,
    {
        self.budget
    }

    /// The number of status requests whose answers were recorded.
    pub fn attempts(&self) -> (count: u64)
        ensures
            count == self@.attempts,
    {
        self.attempts
    }

    /// What to do at time `now`.
    pub fn next(&self, now: u64) -> (action: PollAction)
        ensures
            action@ == self@.next(now as nat),
    {
        match &self.outcome {
            JobStatus::Completed(result) => PollAction::Return(result.clone()),
            JobStatus::Failed(detail) => PollAction::Fail(PollError::Failed(detail.clone())),
            JobStatus::Pending => {
                let spent = match self.budget.max_attempts {
                    Some(limit) => self.attempts >= limit,
                    None => self.attempts == u64::MAX,
                };
                let expired = match self.budget.deadline {
                    Some(deadline) => now >= deadline,
                    None => false,
                };
                if spent || expired {
                    PollAction::Fail(PollError::Timeout)
                } else if now >= self.due {
                    PollAction::Request
                } else {
                    let wake = match self.budget.deadline {
                        Some(deadline) => if deadline < self.due {
                            deadline
                        } else {
                            self.due
                        },
                        None => self.due,
                    };
                    PollAction::Wait(wake - now)
                }
            },
        }
    }

    /// Records the answer `status` to a status request, which arrived at time
    /// `now`. The time has to leave room for one more interval.
    pub fn record(&mut self, status: JobStatus, now: u64)
        requires
            now + old(self)@.budget.interval <= u64::MAX,
        ensures
            final(self)@ == old(self)@.record(status@, now as nat),
    {
        let spent = match self.budget.max_attempts {
            Some(limit) => self.attempts >= limit,
            None => self.attempts == u64::MAX,
        };
        let pending = match &self.outcome {
            JobStatus::Pending => true,
            _ => false,
        };
        let expired = match self.budget.deadline {
            Some(deadline) => now >= deadline,
            None => false,
        };
        if pending && !spent {
            self.attempts = self.attempts + 1;
            self.due = now + self.budget.interval;
            if !expired {
                self.outcome = status;
            }
        }
    }
}

/// How a poll loop ran against a script of answers.
pub struct PollTrace {
    /// The loop where the run stopped.
    pub state: PollState,
    /// The time at which the run stopped.
    pub now: nat,
    /// The times at which the status requests were made, in order.
    pub times: Seq<nat>,
}

impl PollTrace {
    /// What the loop asked for when the run stopped: to return a result, to
    /// fail, or, where the script ran out first, one more request.
    pub open spec fn end(self) -> PollActionView {
        self.state.next(self.now)
    }
}

impl PollState {
    /// The run of the loop from time `now` on a clock that only waiting
    /// moves: each wait takes exactly as long as asked, and each request is
    /// answered at once by the next entry of `script`. The run stops when
    /// the loop does, or when it asks for a request that the script cannot
    /// answer. `times` holds the times of the requests made before.
    pub open spec fn run(self, script: Seq<JobStatusView>, now: nat, times: Seq<nat>) -> PollTrace
        decreases script.len(), (if self.next(now) is Wait { 1nat } else { 0nat }),
    {
        match self.next(now) {
            PollActionView::Wait(time) => self.run(script, now + time, times),
            PollActionView::Request => if script.len() == 0 {
                PollTrace { state: self, now, times }
            } else {
                self.record(script[0], now).run(script.drop_first(), now, times.push(now))
            },
            _ => PollTrace { state: self, now, times },
        }
    }
}

/// The run of a fresh loop under `budget` against `script`.
pub open spec fn replay(budget: PollBudget, script: Seq<JobStatusView>) -> PollTrace {
    PollState::start(budget).run(script, 0, Seq::empty())
}

/// A script of answers as text.
pub open spec fn statuses_view(script: Seq<JobStatus>) -> Seq<JobStatusView> {
    Seq::new(script.len(), |i: int| script[i]@)
}

/// Times as mathematical numbers.
pub open spec fn times_view(times: Seq<u64>) -> Seq<nat> {
    Seq::new(times.len(), |i: int| times[i] as nat)
}

/// How a poll loop ran against a script of answers.
#[derive(Debug, PartialEq, Eq)]
pub struct PollReport {
    /// The times at which the status requests were made, in order.
    pub request_times: Vec<u64>,
    /// The time at which the run stopped.
    pub elapsed: u64,
    /// What the loop asked for when the run stopped: to return a result, to
    /// fail, or, where the script ran out first, one more request.
    pub end: PollAction,
}

impl PollLoop {
    /// Runs a fresh loop under `budget` on a clock that only waiting moves,
    /// answering its status requests from `script` in order.
    pub fn replay(budget: PollBudget, script: &Vec<JobStatus>) -> (report: PollReport)
        requires
            (script.len() + 1) * budget.interval <= u64::MAX,
        ensures
            times_view(report.request_times@) == replay(budget, statuses_view(script@)).times,
            report.elapsed == replay(budget, statuses_view(script@)).now,
            report.end@ == replay(budget, statuses_view(script@)).end(),
    {
        let ghost answers = statuses_view(script@);
        let mut machine = PollLoop::new(budget);
        let mut now: u64 = 0;
        let mut times: Vec<u64> = Vec::new();
        let mut index: usize = 0;
        proof {
            assert(answers.skip(0) == answers);
            assert(times_view(times@) == Seq::<nat>::empty());
            assert((0 + 1) * budget.interval == budget.interval) by (nonlinear_arith);
        }
        loop
            invariant_except_break
                index <= script.len(),
                machine@.budget == budget,
                answers == statuses_view(script@),
                (script.len() + 1) * budget.interval <= u64::MAX,
                now <= (index + 1) * budget.interval,
                machine@.due <= (index + 1) * budget.interval,
                replay(budget, answers) == machine@.run(
                    answers.skip(index as int),
                    now as nat,
                    times_view(times@),
                ),
            ensures
                replay(budget, answers) == (PollTrace {
                    state: machine@,
                    now: now as nat,
                    times: times_view(times@),
                }),
            decreases script.len() - index,
        {
            let ghost rest = answers.skip(index as int);
            let ghost before = now as nat;
            let first = machine.next(now);
            let action = match first {
                PollAction::Wait(time) => {
                    now = now + time;
                    machine.next(now)
                },
                other => other,
            };
            // Waiting does not change the run, and after a wait the loop
            // asks for a request or stops.
            assert(machine@.run(rest, before, times_view(times@)) == machine@.run(
                rest,
                now as nat,
                times_view(times@),
            ));
            assert(!(action@ is Wait));
            match action {
                PollAction::Request => {
                    if index == script.len() {
                        break ;
                    }
                    proof {
                        assert((index + 2) * budget.interval == (index + 1) * budget.interval
                            + budget.interval) by (nonlinear_arith);
                        assert((index + 2) * budget.interval <= (script.len() + 1)
                            * budget.interval) by (nonlinear_arith)
                            requires
                                index + 2 <= script.len() + 1,
                        ;
                        assert(rest[0] == script[index as int]@);
                        assert(rest.drop_first() == answers.skip(index + 1));
                        assert(times_view(times@.push(now)) == times_view(times@).push(now as nat));
                    }
                    times.push(now);
                    machine.record(script[index].duplicate(), now);
                    index = index + 1;
                },
                _ => {
                    break ;
                },
            }
        }
        let end = machine.next(now);
        PollReport { request_times: times, elapsed: now, end }
    }
}

/// The times of the first `count` requests of a loop whose answers are all
/// pending, on a clock that only waiting moves: one interval after the start
/// and one interval after each other.
pub open spec fn ticks(interval: nat, count: nat) -> Seq<nat> {
    Seq::new(count, |k: int| ((k + 1) * interval) as nat)
}

/// A pending loop whose next request is due one interval from now, and which
/// the budget lets make it, makes it then and records the script's first
/// answer.
proof fn lemma_request(state: PollState, script: Seq<JobStatusView>, now: nat, times: Seq<nat>)
    requires
        state.outcome is Pending,
        state.due == now + state.budget.pace(),
        state.attempts < state.budget.attempt_cap(),
        !state.budget.expired(now + state.budget.pace()),
        script.len() > 0,
    ensures
        state.run(script, now, times) == state.record(
            script[0],
            now + state.budget.pace(),
        ).run(script.drop_first(), now + state.budget.pace(), times.push(now + state.budget.pace())),
{
    let due = now + state.budget.pace();
    if state.budget.pace() > 0 {
        // The loop waits until the request is due.
        assert(state.next(now) == PollActionView::Wait(state.budget.pace()));
        assert(state.run(script, now, times) == state.run(script, due, times));
    }
    assert(state.next(due) == PollActionView::Request);
}

/// A pending loop runs through `count` pending answers, an interval apart,
/// where the budget admits that many requests.
proof fn lemma_pending_run(
    state: PollState,
    script: Seq<JobStatusView>,
    now: nat,
    times: Seq<nat>,
    count: nat,
)
    requires
        state.outcome is Pending,
        state.due == now + state.budget.pace(),
        count <= script.len(),
        forall|i: int| 0 <= i < count ==> script[i] is Pending,
        state.attempts + count <= state.budget.attempt_cap(),
        !state.budget.expired(now + count * state.budget.pace()),
    ensures
        state.run(script, now, times) == (PollState {
            attempts: state.attempts + count,
            due: now + (count + 1) * state.budget.pace(),
            ..state
        }).run(
            script.skip(count as int),
            now + count * state.budget.pace(),
            times + Seq::new(count, |k: int| (now + (k + 1) * state.budget.pace()) as nat),
        ),
    decreases count,
{
    let interval = state.budget.pace();
    let added = Seq::new(count, |k: int| (now + (k + 1) * interval) as nat);
    if count == 0 {
        assert(script.skip(0) == script);
        assert(times + added == times);
        assert((0 + 1) * interval == interval) by (nonlinear_arith);
        assert(0 * interval == 0) by (nonlinear_arith);
    } else {
        let fewer = (count - 1) as nat;
        assert(fewer * interval + interval == count * interval) by (nonlinear_arith)
            requires
                fewer + 1 == count,
        ;
        assert(count * interval + interval == (count + 1) * interval) by (nonlinear_arith);
        assert(fewer * interval <= count * interval);
        lemma_pending_run(state, script, now, times, fewer);
        let before = PollState {
            attempts: state.attempts + fewer,
            due: now + count * interval,
            ..state
        };
        let earlier = now + fewer * interval;
        let rest = script.skip(fewer as int);
        let sooner = times + Seq::new(fewer, |k: int| (now + (k + 1) * interval) as nat);
        assert(state.run(script, now, times) == before.run(rest, earlier, sooner));
        lemma_request(before, rest, earlier, sooner);
        assert(rest[0] == script[fewer as int]);
        assert(rest.drop_first() == script.skip(count as int));
        assert(sooner.push(earlier + interval) == times + added);
    }
}

/// The run of a fresh loop through `count` pending answers.
proof fn lemma_pending_replay(budget: PollBudget, script: Seq<JobStatusView>, count: nat)
    requires
        count <= script.len(),
        forall|i: int| 0 <= i < count ==> script[i] is Pending,
        count <= budget.attempt_cap(),
        !budget.expired(count * budget.pace()),
    ensures
        replay(budget, script) == (PollState {
            budget,
            attempts: count,
            due: (count + 1) * budget.pace(),
            outcome: JobStatusView::Pending,
        }).run(script.skip(count as int), count * budget.pace(), ticks(budget.pace(), count)),
{
    let start = PollState::start(budget);
    lemma_pending_run(start, script, 0, Seq::empty(), count);
    assert(Seq::<nat>::empty() + Seq::new(count, |k: int| (0 + (k + 1) * budget.pace()) as nat)
        == ticks(budget.pace(), count));
}

/// The run of a fresh loop whose answer number `n` is the first that is not
/// pending, where the budget admits `n` requests.
proof fn lemma_final_answer(budget: PollBudget, script: Seq<JobStatusView>, n: nat)
    requires
        0 < n <= script.len(),
        forall|i: int| 0 <= i < n - 1 ==> script[i] is Pending,
        !(script[n - 1] is Pending),
        budget.admits(n),
    ensures
        replay(budget, script) == (PollTrace {
            state: PollState {
                budget,
                attempts: n,
                due: (n + 1) * budget.pace(),
                outcome: script[n - 1],
            },
            now: n * budget.pace(),
            times: ticks(budget.pace(), n),
        }),
{
    let interval = budget.pace();
    let fewer = (n - 1) as nat;
    assert(fewer * interval + interval == n * interval) by (nonlinear_arith)
        requires
            fewer + 1 == n,
    ;
    assert(n * interval + interval == (n + 1) * interval) by (nonlinear_arith);
    lemma_pending_replay(budget, script, fewer);
    let before = PollState {
        budget,
        attempts: fewer,
        due: n * interval,
        outcome: JobStatusView::Pending,
    };
    let rest = script.skip(fewer as int);
    let sooner = ticks(interval, fewer);
    lemma_request(before, rest, fewer * interval, sooner);
    assert(rest[0] == script[n - 1]);
    assert(sooner.push(n * interval) == ticks(interval, n));
}

/// A completed job ends the loop at once. Where the first `n - 1` answers are
/// pending, answer `n` brings a result and the budget admits `n` requests,
/// the loop makes exactly `n` requests, an interval apart, and returns that
/// result. What would have been answered later plays no part.
pub proof fn completed_answer_ends_the_loop(
    budget: PollBudget,
    script: Seq<JobStatusView>,
    n: nat,
    result: Seq<char>,
)
    requires
        0 < n <= script.len(),
        forall|i: int| 0 <= i < n - 1 ==> script[i] is Pending,
        script[n - 1] == JobStatusView::Completed(result),
        budget.admits(n),
    ensures
        replay(budget, script).times == ticks(budget.pace(), n),
        replay(budget, script).now == n * budget.pace(),
        replay(budget, script).end() == PollActionView::Return(result),
        replay(budget, script) == replay(budget, script.take(n as int)),
{
    lemma_final_answer(budget, script, n);
    lemma_final_answer(budget, script.take(n as int), n);
}

/// A loop that is limited by a number of attempts alone and hears nothing
/// but pending answers makes exactly that number of requests, the first an
/// interval after the start and each an interval after the one before, and
/// then fails with a timeout.
pub proof fn pending_answers_use_up_the_attempts(
    budget: PollBudget,
    script: Seq<JobStatusView>,
    limit: u64,
)
    requires
        budget.max_attempts == Some(limit),
        budget.deadline is None,
        limit <= script.len(),
        forall|i: int| 0 <= i < script.len() ==> script[i] is Pending,
    ensures
        replay(budget, script).times.len() == limit,
        forall|k: int|
            0 <= k < limit ==> #[trigger] replay(budget, script).times[k] == (k + 1)
                * budget.pace(),
        replay(budget, script).now == limit * budget.pace(),
        replay(budget, script).end() == PollActionView::Fail(PollErrorView::Timeout),
{
    lemma_pending_replay(budget, script, limit as nat);
}

/// A failed job ends the loop at once. Where the first `n - 1` answers are
/// pending, answer `n` reports a failure and the budget admits `n`
/// requests, the loop makes exactly `n` requests and fails with the reason
/// reported, not with a timeout.
pub proof fn failed_answer_ends_the_loop(
    budget: PollBudget,
    script: Seq<JobStatusView>,
    n: nat,
    detail: Seq<char>,
)
    requires
        0 < n <= script.len(),
        forall|i: int| 0 <= i < n - 1 ==> script[i] is Pending,
        script[n - 1] == JobStatusView::Failed(detail),
        budget.admits(n),
    ensures
        replay(budget, script).times == ticks(budget.pace(), n),
        replay(budget, script).now == n * budget.pace(),
        replay(budget, script).end() == PollActionView::Fail(PollErrorView::Failed(detail)),
        replay(budget, script) == replay(budget, script.take(n as int)),
{
    lemma_final_answer(budget, script, n);
    lemma_final_answer(budget, script.take(n as int), n);
}

/// A pending answer changes nothing but the count of attempts and the time
/// at which the next request is due, and so does the same answer once more.
pub proof fn pending_answer_only_counts(state: PollState, first: nat, second: nat)
    ensures
        ({
            let once = state.record(JobStatusView::Pending, first);
            let twice = once.record(JobStatusView::Pending, second);
            &&& once.budget == state.budget
            &&& once.outcome == state.outcome
            &&& once.attempts == state.attempts + (if state.open() { 1nat } else { 0nat })
            &&& twice.budget == state.budget
            &&& twice.outcome == state.outcome
            &&& twice.attempts == once.attempts + (if once.open() { 1nat } else { 0nat })
            &&& first == second ==> twice.due == once.due
        }),
{
}

/// Once a job was seen completed or failed, polling stops: the loop neither
/// waits nor asks again, and no later answer changes it.
pub proof fn settled_loop_stays_settled(state: PollState, status: JobStatusView, at: nat, now: nat)
    requires
        !(state.outcome is Pending),
    ensures
        state.record(status, at) == state,
        state.next(now) is Return || state.next(now) is Fail,
        state.next(now) == state.next(at),
{
}

/// A pending job is polled on for as long as the budget lasts, and no
/// longer: the loop waits or asks while attempts are left and the deadline
/// is ahead, and fails with a timeout otherwise.
pub proof fn pending_loop_goes_on_within_budget(state: PollState, now: nat)
    requires
        state.outcome is Pending,
    ensures
        state.attempts < state.budget.attempt_cap() && !state.budget.expired(now) ==> (state.next(
            now,
        ) is Wait || state.next(now) is Request),
        state.attempts >= state.budget.attempt_cap() || state.budget.expired(now) ==> state.next(
            now,
        ) == PollActionView::Fail(PollErrorView::Timeout),
{
}

/// On any clock, a request comes no sooner than one interval after the
/// answer before it, and a wait ends no later than then and no later than
/// the deadline.
pub proof fn requests_are_an_interval_apart(
    state: PollState,
    status: JobStatusView,
    at: nat,
    now: nat,
)
    requires
        state.open(),
    ensures
        state.record(status, at).next(now) is Request ==> now >= at + state.budget.pace(),
        state.record(status, at).next(now) matches PollActionView::Wait(time) ==> 0 < time && now
            + time <= at + state.budget.pace() && !state.budget.expired((now + time - 1) as nat),
        PollState::start(state.budget).next(now) is Request ==> now >= state.budget.pace(),
{
}

/// Whether the requests made at `times` keep to `budget`: there are no more
/// of them than the budget allows, none is made once the deadline is
/// reached, the first comes no sooner than an interval after the start, and
/// each other no sooner than an interval after the one before.
pub open spec fn within_budget(budget: PollBudget, times: Seq<nat>) -> bool {
    &&& times.len() <= budget.attempt_cap()
    &&& forall|k: int| 0 <= k < times.len() ==> !budget.expired(#[trigger] times[k])
    &&& forall|k: int| 0 <= k < times.len() ==> #[trigger] times[k] >= budget.pace() + (if k == 0 {
        0nat
    } else {
        times[k - 1]
    })
}

/// A run that starts within the budget stays within it.
proof fn lemma_run_within_budget(
    state: PollState,
    script: Seq<JobStatusView>,
    now: nat,
    times: Seq<nat>,
)
    requires
        within_budget(state.budget, times),
        state.attempts == times.len(),
        state.due >= state.budget.pace() + (if times.len() == 0 {
            0nat
        } else {
            times.last()
        }),
    ensures
        within_budget(state.budget, state.run(script, now, times).times),
        state.run(script, now, times).state.budget == state.budget,
        state.run(script, now, times).state.attempts == state.run(script, now, times).times.len(),
        state.run(script, now, times).times.len() <= times.len() + script.len(),
        !(state.run(script, now, times).end() is Wait),
        state.run(script, now, times).end() is Request ==> state.run(script, now, times).times.len()
            == times.len() + script.len(),
    decreases script.len(), (if state.next(now) is Wait { 1nat } else { 0nat }),
{
    match state.next(now) {
        PollActionView::Wait(time) => {
            lemma_run_within_budget(state, script, now + time, times);
        },
        PollActionView::Request => {
            if script.len() > 0 {
                let later = times.push(now);
                assert forall|k: int| 0 <= k < later.len() implies #[trigger] later[k]
                    >= state.budget.pace() + (if k == 0 {
                    0nat
                } else {
                    later[k - 1]
                }) by {
                    if k < times.len() {
                        assert(later[k] == times[k]);
                    }
                }
                assert(later.last() == now);
                lemma_run_within_budget(
                    state.record(script[0], now),
                    script.drop_first(),
                    now,
                    later,
                );
            }
        },
        _ => {},
    }
}

/// Whatever the answers are, a loop keeps to its budget: it makes no more
/// requests than the budget allows and none once the deadline is reached,
/// the first no sooner than an interval after the start and each other no
/// sooner than an interval after the one before. It makes no more requests
/// than there are answers, and counts each one that it makes.
pub proof fn replay_keeps_to_the_budget(budget: PollBudget, script: Seq<JobStatusView>)
    ensures
        within_budget(budget, replay(budget, script).times),
        replay(budget, script).times.len() <= script.len(),
        replay(budget, script).state.attempts == replay(budget, script).times.len(),
{
    lemma_run_within_budget(PollState::start(budget), script, 0, Seq::empty());
}

/// Requests that keep to a budget come no sooner than their number times
/// the interval.
proof fn lemma_spaced_times(budget: PollBudget, times: Seq<nat>, k: int)
    requires
        within_budget(budget, times),
        0 <= k < times.len(),
    ensures
        times[k] >= (k + 1) * budget.pace(),
    decreases k,
{
    let pace = budget.pace();
    assert(times[k] >= pace + (if k == 0 {
        0nat
    } else {
        times[k - 1]
    }));
    if k == 0 {
        assert((k + 1) * pace == pace) by (nonlinear_arith)
            requires
                k == 0,
        ;
    } else {
        lemma_spaced_times(budget, times, k - 1);
        assert((k + 1) * pace == (k - 1 + 1) * pace + pace) by (nonlinear_arith);
    }
}

/// A budget bounds the loop. With as many answers as the budget has
/// attempts, or with so many that their intervals fill the time up to the
/// deadline, the loop comes to its end: it returns a result or fails, and
/// asks for nothing more.
pub proof fn budget_ends_the_loop(budget: PollBudget, script: Seq<JobStatusView>)
    requires
        script.len() >= budget.attempt_cap() || (budget.deadline matches Some(deadline)
            && script.len() * budget.pace() >= deadline),
    ensures
        replay(budget, script).end() is Return || replay(budget, script).end() is Fail,
{
    let trace = replay(budget, script);
    lemma_run_within_budget(PollState::start(budget), script, 0, Seq::empty());
    if trace.end() is Request {
        // Every answer was used, and still the loop has attempts and time
        // left.
        assert(trace.times.len() == script.len());
        assert(trace.state.attempts < budget.attempt_cap());
        assert(!budget.expired(trace.now));
        if script.len() > 0 {
            let last = script.len() - 1;
            lemma_spaced_times(budget, trace.times, last);
            assert((last + 1) * budget.pace() == script.len() * budget.pace());
            assert(!budget.expired(trace.times[last]));
        } else {
            assert(script.len() * budget.pace() == 0) by (nonlinear_arith)
                requires
                    script.len() == 0,
            ;
        }
    }
}

} // verus!

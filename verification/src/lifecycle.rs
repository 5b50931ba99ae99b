//! The course of one job on the worker's side.
//!
//! A job is received when it is popped, dispatched once its name has been
//! resolved to a handler, ends as a success or as one of two kinds of
//! failure, and is reported once its result has been pushed. The driver that
//! pops, dispatches and pushes lives outside this crate; it can feed what
//! happens into [`JobState::step`] to know where each job stands.

use vstd::prelude::*;

use crate::models::{JobResult, JobResultView};
use crate::worker::refuses;

verus! {

/// Where a job stands.
#[derive(Debug, Clone, Copy, PartialEq, Eq, Structural)]
pub enum JobState {
    /// Popped from the global queue.
    Received,
    /// Handed to the handler registered under its name.
    Dispatched,
    /// Ended well.
    Succeeded,
    /// Failed in a way that another attempt may mend.
    FailedRetryable,
    /// Failed for good.
    FailedTerminal,
    /// The result is on the result queue. Nothing follows.
    Reported,
}

/// How an attempt ended.
#[derive(Debug, Clone, Copy, PartialEq, Eq, Structural)]
pub enum Outcome {
    Success,
    /// A failure; `should_retry` is what the result says of another attempt.
    Failure { should_retry: bool },
}

/// What happens to a job.
#[derive(Debug, Clone, Copy, PartialEq, Eq, Structural)]
pub enum JobEvent {
    /// A handler is registered under the job's name.
    Resolved,
    /// No handler is registered under the job's name, or the argument does
    /// not fit the handler.
    Refused,
    /// The handler returned.
    Returned(Outcome),
    /// The result was pushed onto the result queue.
    Pushed,
}

impl Outcome {
    /// The state in which an attempt with this outcome ends.
    pub open spec fn end(self) -> JobState {
        match self {
            Outcome::Success => JobState::Succeeded,
            Outcome::Failure { should_retry } => if should_retry {
                JobState::FailedRetryable
            } else {
                JobState::FailedTerminal
            },
        }
    }

    pub fn end_state(self) -> (state: JobState)
        ensures
            state == self.end(),
    {
        match self {
            Outcome::Success => JobState::Succeeded,
            Outcome::Failure { should_retry: true } => JobState::FailedRetryable,
            Outcome::Failure { should_retry: false } => JobState::FailedTerminal,
        }
    }
}

impl JobResultView {
    /// How the attempt that gave this result ended.
    pub open spec fn outcome(self) -> Outcome {
        match self {
            JobResultView::Success(_) => Outcome::Success,
            JobResultView::Failure(failure) => Outcome::Failure {
                should_retry: failure.should_retry,
            },
        }
    }
}

/// Reads off a result how the attempt ended.
pub fn outcome_of(result: &JobResult) -> (outcome: Outcome)
    ensures
        outcome == result@.outcome(),
{
    match result {
        JobResult::Success(_) => Outcome::Success,
        JobResult::Failure(failure) => Outcome::Failure { should_retry: *failure.should_retry() },
    }
}

impl JobState {
    /// The attempt is over and its result waits to be pushed.
    pub open spec fn ended(self) -> bool {
        self == JobState::Succeeded || self == JobState::FailedRetryable || self
            == JobState::FailedTerminal
    }

    /// The state that follows `self` on `event`, or `None` where the event
    /// cannot happen in this state.
    pub open spec fn next(self, event: JobEvent) -> Option<JobState> {
        match (self, event) {
            (JobState::Received, JobEvent::Resolved) => Some(JobState::Dispatched),
            (JobState::Received, JobEvent::Refused) => Some(JobState::FailedTerminal),
            (JobState::Dispatched, JobEvent::Refused) => Some(JobState::FailedTerminal),
            (JobState::Dispatched, JobEvent::Returned(outcome)) => Some(outcome.end()),
            (state, JobEvent::Pushed) => if state.ended() {
                Some(JobState::Reported)
            } else {
                None
            },
            _ => None,
        }
    }

    /// How many events a job in this state can still see at most.
    pub open spec fn distance(self) -> nat {
        match self {
            JobState::Received => 3,
            JobState::Dispatched => 2,
            JobState::Reported => 0,
            _ => 1,
        }
    }

    pub fn step(self, event: JobEvent) -> (following: Option<JobState>)
        ensures
            following == self.next(event),
    {
        match (self, event) {
            (JobState::Received, JobEvent::Resolved) => Some(JobState::Dispatched),
            (JobState::Received, JobEvent::Refused) => Some(JobState::FailedTerminal),
            (JobState::Dispatched, JobEvent::Refused) => Some(JobState::FailedTerminal),
            (JobState::Dispatched, JobEvent::Returned(outcome)) => Some(outcome.end_state()),
            (JobState::Succeeded, JobEvent::Pushed) => Some(JobState::Reported),
            (JobState::FailedRetryable, JobEvent::Pushed) => Some(JobState::Reported),
            (JobState::FailedTerminal, JobEvent::Pushed) => Some(JobState::Reported),
            _ => None,
        }
    }
}

/// Nothing happens to a job that has been reported.
pub proof fn reported_is_final(event: JobEvent)
    ensures
        JobState::Reported.next(event) is None,
{
}

/// Every event brings a job closer to its report: no job is dispatched twice,
/// and none goes back.
pub proof fn every_step_advances(state: JobState, event: JobEvent)
    requires
        state.next(event) is Some,
    ensures
        state.next(event)->0.distance() < state.distance(),
{
}

/// A job is reported only once its attempt is over.
pub proof fn report_follows_an_end(state: JobState, event: JobEvent)
    ensures
        state.next(event) == Some(JobState::Reported) <==> state.ended() && event
            == JobEvent::Pushed,
{
}

/// A refusal by the registry reads as a failure for good: the queue manager
/// is told not to try the job again.
pub proof fn refusal_is_terminal(result: JobResultView, id: Seq<char>, message: Seq<char>)
    requires
        refuses(result, id, message),
    ensures
        result.outcome().end() == JobState::FailedTerminal,
        JobState::Dispatched.next(JobEvent::Returned(result.outcome())) == JobState::Received.next(
            JobEvent::Refused,
        ),
{
}

} // verus!

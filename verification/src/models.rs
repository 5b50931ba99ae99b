//! The job model: what travels between producer, broker and worker.
//!
//! The codec of [`crate::codec`] and the builder of [`crate::builder`] belong
//! to the model and are reached through this module too.

use vstd::prelude::*;
use vstd::std_specs::convert::FromSpecImpl;
use vstd::string::{to_string_from_display_ensures, StringExecFns};

pub use crate::builder::{JobRequestBuilder, JobRequestBuilderDefault, JobRequestBuilderView};
pub use crate::codec::{decode_data, encode_data, FromValue};

verus! {

/// What can go wrong between a typed value and the broker.
#[derive(Debug)]
pub enum JQError {
    /// A value could not be written as MessagePack.
    SerializationError(rmp_serde::encode::Error),
    /// Bytes could not be read as MessagePack of the shape asked for.
    DeserializationError(rmp_serde::decode::Error),
    /// The broker, or the connection to it, failed.
    RedisError(redis::RedisError),
}

impl JQError {
    /// The words that open the message of each kind of error.
    pub open spec fn heading(self) -> Seq<char> {
        match self {
            JQError::SerializationError(_) => "Failed to encode data: "@,
            JQError::DeserializationError(_) => "Failed to decode data: "@,
            JQError::RedisError(_) => "Redis error: "@,
        }
    }

    /// Whether `detail` is what the error underneath says of itself.
    pub open spec fn detailed_by(self, detail: String) -> bool {
        match self {
            JQError::SerializationError(source) => to_string_from_display_ensures::<
                rmp_serde::encode::Error,
            >(&source, detail),
            JQError::DeserializationError(source) => to_string_from_display_ensures::<
                rmp_serde::decode::Error,
            >(&source, detail),
            JQError::RedisError(source) => to_string_from_display_ensures::<redis::RedisError>(
                &source,
                detail,
            ),
        }
    }

    /// The error in words: the heading of its kind, then what the error
    /// underneath says of itself.
    pub fn message(&self) -> (message: String)
        ensures
            exists|detail: String| #[trigger]
                self.detailed_by(detail) && message@ == self.heading() + detail@,
    {
        match self {
            JQError::SerializationError(source) => {
                let detail = source.to_string();
                assert(self.detailed_by(detail));
                String::from_str("Failed to encode data: ").concat(detail.as_str())
            },
            JQError::DeserializationError(source) => {
                let detail = source.to_string();
                assert(self.detailed_by(detail));
                String::from_str("Failed to decode data: ").concat(detail.as_str())
            },
            JQError::RedisError(source) => {
                let detail = source.to_string();
                assert(self.detailed_by(detail));
                String::from_str("Redis error: ").concat(detail.as_str())
            },
        }
    }
}

impl From<rmp_serde::encode::Error> for JQError {
    fn from(source: rmp_serde::encode::Error) -> (error: JQError) {
        JQError::SerializationError(source)
    }
}

impl FromSpecImpl<rmp_serde::encode::Error> for JQError {
    open spec fn obeys_from_spec() -> bool {
        true
    }

    open spec fn from_spec(source: rmp_serde::encode::Error) -> JQError {
        JQError::SerializationError(source)
    }
}

impl From<rmp_serde::decode::Error> for JQError {
    fn from(source: rmp_serde::decode::Error) -> (error: JQError) {
        JQError::DeserializationError(source)
    }
}

impl FromSpecImpl<rmp_serde::decode::Error> for JQError {
    open spec fn obeys_from_spec() -> bool {
        true
    }

    open spec fn from_spec(source: rmp_serde::decode::Error) -> JQError {
        JQError::DeserializationError(source)
    }
}

impl From<redis::RedisError> for JQError {
    fn from(source: redis::RedisError) -> (error: JQError) {
        JQError::RedisError(source)
    }
}

impl FromSpecImpl<redis::RedisError> for JQError {
    open spec fn obeys_from_spec() -> bool {
        true
    }

    open spec fn from_spec(source: redis::RedisError) -> JQError {
        JQError::RedisError(source)
    }
}

/// Why a job failed.
#[derive(Debug, Clone, Copy, PartialEq, Eq, Structural)]
pub enum FailureReason {
    /// The attempt ran out of its time budget.
    Timeout,
    /// Anything else.
    Other,
}

/// A worker's identity, as it is announced to the registrar once at startup.
#[derive(Debug)]
pub struct Worker {
    id: String,
    name: String,
    processes: i32,
}

/// What a [`Worker`] record says.
pub struct WorkerView {
    pub id: Seq<char>,
    pub name: Seq<char>,
    /// How many pollers the worker runs side by side.
    pub processes: int,
}

impl View for Worker {
    type V = WorkerView;

    closed spec fn view(&self) -> WorkerView {
        WorkerView { id: self.id@, name: self.name@, processes: self.processes as int }
    }
}

impl Worker {
    pub fn new(id: String, name: String, processes: i32) -> (worker: Worker)
        ensures
            worker@ == (WorkerView { id: id@, name: name@, processes: processes as int }),
    {
        Worker { id, name, processes }
    }

    pub fn id(&self) -> (id: &String)
        ensures
            id@ == self@.id,
    {
        &self.id
    }

    pub fn name(&self) -> (name: &String)
        ensures
            name@ == self@.name,
    {
        &self.name
    }

    pub fn processes(&self) -> (processes: &i32)
        ensures
            *processes == self@.processes,
    {
        &self.processes
    }
}

/// What a producer asks for: a job that has not been admitted yet.
#[derive(Debug)]
pub struct JobRequest<A> {
    id: String,
    name: String,
    argument: A,
    priority: i32,
    max_retry: i32,
    keep_result: bool,
    timeout: i64,
}

/// What a [`JobRequest`] says.
pub struct JobRequestView<A> {
    pub id: Seq<char>,
    /// The key under which a worker looks for a handler.
    pub name: Seq<char>,
    pub argument: A,
    /// A hint for the queue manager; this crate gives it no meaning.
    pub priority: int,
    pub max_retry: int,
    /// Whether the result has to be kept for later retrieval.
    pub keep_result: bool,
    /// The time budget of one attempt, in milliseconds.
    pub timeout: int,
}

impl<A> JobRequestView<A> {
    /// Neither the number of retries nor the time budget is negative.
    pub open spec fn well_formed(self) -> bool {
        self.max_retry >= 0 && self.timeout >= 0
    }
}

impl<A> View for JobRequest<A> {
    type V = JobRequestView<A>;

    closed spec fn view(&self) -> JobRequestView<A> {
        JobRequestView {
            id: self.id@,
            name: self.name@,
            argument: self.argument,
            priority: self.priority as int,
            max_retry: self.max_retry as int,
            keep_result: self.keep_result,
            timeout: self.timeout as int,
        }
    }
}

impl<A> JobRequest<A> {
    /// A request with every field given. Producers that want the defaults of
    /// a policy use [`JobRequestBuilder`] instead.
    pub fn new(
        id: String,
        name: String,
        argument: A,
        priority: i32,
        max_retry: i32,
        keep_result: bool,
        timeout: i64,
    ) -> (request: JobRequest<A>)
        ensures
            request@ == (JobRequestView {
                id: id@,
                name: name@,
                argument,
                priority: priority as int,
                max_retry: max_retry as int,
                keep_result,
                timeout: timeout as int,
            }),
    {
        JobRequest { id, name, argument, priority, max_retry, keep_result, timeout }
    }

    /// Whether the request keeps to the bounds of the model: no negative
    /// number of retries, no negative time budget. Neither the builder nor
    /// `new` refuses a request that does not; a producer that takes its
    /// numbers from elsewhere can ask here before it enqueues.
    pub fn is_well_formed(&self) -> (well_formed: bool)
        ensures
            well_formed == self@.well_formed(),
    {
        self.max_retry >= 0 && self.timeout >= 0
    }

    pub fn id(&self) -> (id: &String)
        ensures
            id@ == self@.id,
    {
        &self.id
    }

    pub fn name(&self) -> (name: &String)
        ensures
            name@ == self@.name,
    {
        &self.name
    }

    pub fn argument(&self) -> (argument: &A)
        ensures
            *argument == self@.argument,
    {
        &self.argument
    }

    pub fn priority(&self) -> (priority: &i32)
        ensures
            *priority == self@.priority,
    {
        &self.priority
    }

    pub fn max_retry(&self) -> (max_retry: &i32)
        ensures
            *max_retry == self@.max_retry,
    {
        &self.max_retry
    }

    pub fn keep_result(&self) -> (keep_result: &bool)
        ensures
            *keep_result == self@.keep_result,
    {
        &self.keep_result
    }

    pub fn timeout(&self) -> (timeout: &i64)
        ensures
            *timeout == self@.timeout,
    {
        &self.timeout
    }
}

/// A job that the registrar has admitted: a request with the time of its
/// admission.
#[derive(Debug)]
pub struct Job<A> {
    id: String,
    name: String,
    argument: A,
    priority: i32,
    max_retry: i32,
    keep_result: bool,
    timeout: i64,
    registered_at: chrono::NaiveDateTime,
}

/// What a [`Job`] says.
pub struct JobView<A> {
    pub id: Seq<char>,
    pub name: Seq<char>,
    pub argument: A,
    pub priority: int,
    pub max_retry: int,
    pub keep_result: bool,
    pub timeout: int,
    /// When the job entered the global queue, in UTC.
    pub registered_at: chrono::NaiveDateTime,
}

impl<A> JobView<A> {
    /// Neither the number of retries nor the time budget is negative.
    pub open spec fn well_formed(self) -> bool {
        self.max_retry >= 0 && self.timeout >= 0
    }

    /// The same job with `argument` in place of its own.
    pub open spec fn with_argument<B>(self, argument: B) -> JobView<B> {
        JobView {
            id: self.id,
            name: self.name,
            argument,
            priority: self.priority,
            max_retry: self.max_retry,
            keep_result: self.keep_result,
            timeout: self.timeout,
            registered_at: self.registered_at,
        }
    }
}

/// The job that comes of admitting `request` at `registered_at`.
pub open spec fn admitted<A>(
    request: JobRequestView<A>,
    registered_at: chrono::NaiveDateTime,
) -> JobView<A> {
    JobView {
        id: request.id,
        name: request.name,
        argument: request.argument,
        priority: request.priority,
        max_retry: request.max_retry,
        keep_result: request.keep_result,
        timeout: request.timeout,
        registered_at,
    }
}

/// What a producer asked for is what the worker gets: admission changes no
/// field of the request, and a request within the bounds of the model gives a
/// job within them.
pub proof fn admission_keeps_request<A>(
    request: JobRequestView<A>,
    registered_at: chrono::NaiveDateTime,
)
    ensures
        admitted(request, registered_at).id == request.id,
        admitted(request, registered_at).name == request.name,
        admitted(request, registered_at).argument == request.argument,
        admitted(request, registered_at).priority == request.priority,
        admitted(request, registered_at).max_retry == request.max_retry,
        admitted(request, registered_at).keep_result == request.keep_result,
        admitted(request, registered_at).timeout == request.timeout,
        admitted(request, registered_at).registered_at == registered_at,
        admitted(request, registered_at).well_formed() == request.well_formed(),
{
}

/// Putting another argument in a job's place touches nothing else: name,
/// identifier, priority, retries, `keep_result`, time budget and time of
/// admission stay, and with them the bounds of the model.
pub proof fn new_argument_keeps_the_rest<A, B>(job: JobView<A>, argument: B)
    ensures
        job.with_argument(argument).argument == argument,
        job.with_argument(argument).id == job.id,
        job.with_argument(argument).name == job.name,
        job.with_argument(argument).priority == job.priority,
        job.with_argument(argument).max_retry == job.max_retry,
        job.with_argument(argument).keep_result == job.keep_result,
        job.with_argument(argument).timeout == job.timeout,
        job.with_argument(argument).registered_at == job.registered_at,
        job.with_argument(argument).well_formed() == job.well_formed(),
        job.with_argument(argument).with_argument(job.argument) == job,
{
}

impl<A> View for Job<A> {
    type V = JobView<A>;

    closed spec fn view(&self) -> JobView<A> {
        JobView {
            id: self.id@,
            name: self.name@,
            argument: self.argument,
            priority: self.priority as int,
            max_retry: self.max_retry as int,
            keep_result: self.keep_result,
            timeout: self.timeout as int,
            registered_at: self.registered_at,
        }
    }
}

impl<A> Job<A> {
    /// Admits `request`: the job has every field of the request, and
    /// `registered_at` beside them.
    pub fn new(request: JobRequest<A>, registered_at: chrono::NaiveDateTime) -> (job: Job<A>)
        ensures
            job@ == admitted(request@, registered_at),
    {
        Job {
            id: request.id,
            name: request.name,
            argument: request.argument,
            priority: request.priority,
            max_retry: request.max_retry,
            keep_result: request.keep_result,
            timeout: request.timeout,
            registered_at,
        }
    }

    /// Puts `argument` in the argument's place and hands the old one out.
    pub fn replace_argument<B>(self, argument: B) -> (parts: (A, Job<B>))
        ensures
            parts.0 == self@.argument,
            parts.1@ == self@.with_argument(argument),
    {
        (
            self.argument,
            Job {
                id: self.id,
                name: self.name,
                argument,
                priority: self.priority,
                max_retry: self.max_retry,
                keep_result: self.keep_result,
                timeout: self.timeout,
                registered_at: self.registered_at,
            },
        )
    }

    /// Gives up the job for its argument.
    pub fn get_argument(self) -> (argument: A)
        ensures
            argument == self@.argument,
    {
        self.argument
    }

    /// Puts `f` of the argument in the argument's place. Every other field
    /// stays as it is.
    pub fn map_argument<B>(self, f: impl FnOnce(A) -> B) -> (job: Job<B>)
        requires
            call_requires(f, (self@.argument,)),
        ensures
            call_ensures(f, (self@.argument,), job@.argument),
            job@ == self@.with_argument(job@.argument),
    {
        Job {
            id: self.id,
            name: self.name,
            argument: f(self.argument),
            priority: self.priority,
            max_retry: self.max_retry,
            keep_result: self.keep_result,
            timeout: self.timeout,
            registered_at: self.registered_at,
        }
    }

    pub fn id(&self) -> (id: &String)
        ensures
            id@ == self@.id,
    {
        &self.id
    }

    pub fn name(&self) -> (name: &String)
        ensures
            name@ == self@.name,
    {
        &self.name
    }

    pub fn argument(&self) -> (argument: &A)
        ensures
            *argument == self@.argument,
    {
        &self.argument
    }

    pub fn priority(&self) -> (priority: &i32)
        ensures
            *priority == self@.priority,
    {
        &self.priority
    }

    pub fn max_retry(&self) -> (max_retry: &i32)
        ensures
            *max_retry == self@.max_retry,
    {
        &self.max_retry
    }

    pub fn keep_result(&self) -> (keep_result: &bool)
        ensures
            *keep_result == self@.keep_result,
    {
        &self.keep_result
    }

    pub fn timeout(&self) -> (timeout: &i64)
        ensures
            *timeout == self@.timeout,
    {
        &self.timeout
    }

    pub fn registered_at(&self) -> (registered_at: &chrono::NaiveDateTime)
        ensures
            *registered_at == self@.registered_at,
    {
        &self.registered_at
    }
}

/// How a job ended.
#[derive(Debug)]
pub enum JobResult {
    Success(JobResultSuccess),
    Failure(JobResultFailure),
}

/// What a [`JobResult`] says.
pub enum JobResultView {
    Success(JobResultSuccessView),
    Failure(JobResultFailureView),
}

impl JobResultView {
    /// The identifier of the job that the result belongs to.
    pub open spec fn id(self) -> Seq<char> {
        match self {
            JobResultView::Success(success) => success.id,
            JobResultView::Failure(failure) => failure.id,
        }
    }

    /// When the attempt ended, in UTC.
    pub open spec fn finished_at(self) -> chrono::NaiveDateTime {
        match self {
            JobResultView::Success(success) => success.finished_at,
            JobResultView::Failure(failure) => failure.finished_at,
        }
    }
}

impl View for JobResult {
    type V = JobResultView;

    open spec fn view(&self) -> JobResultView {
        match self {
            JobResult::Success(success) => JobResultView::Success(success@),
            JobResult::Failure(failure) => JobResultView::Failure(failure@),
        }
    }
}

impl JobResult {
    pub fn id(&self) -> (id: &String)
        ensures
            id@ == self@.id(),
    {
        match self {
            JobResult::Success(success) => success.id(),
            JobResult::Failure(failure) => failure.id(),
        }
    }

    pub fn finished_at(&self) -> (finished_at: &chrono::NaiveDateTime)
        ensures
            *finished_at == self@.finished_at(),
    {
        match self {
            JobResult::Success(success) => success.finished_at(),
            JobResult::Failure(failure) => failure.finished_at(),
        }
    }
}

/// A type that a handler may return: one that can be made into a
/// [`JobResult`], identifier and time of completion included.
pub trait IntoJobResult: Sized {
    /// Whether `result` is what `into_job_result` may return for `self`. An
    /// impl that says nothing promises nothing.
    open spec fn converts_into(self, result: JobResult) -> bool {
        true
    }

    fn into_job_result(self) -> (result: JobResult)
        ensures
            self.converts_into(result),
    ;
}

impl IntoJobResult for JobResult {
    open spec fn converts_into(self, result: JobResult) -> bool {
        result == self
    }

    fn into_job_result(self) -> (result: JobResult) {
        self
    }
}

impl IntoJobResult for JobResultSuccess {
    open spec fn converts_into(self, result: JobResult) -> bool {
        result == JobResult::Success(self)
    }

    fn into_job_result(self) -> (result: JobResult) {
        JobResult::Success(self)
    }
}

impl IntoJobResult for JobResultFailure {
    open spec fn converts_into(self, result: JobResult) -> bool {
        result == JobResult::Failure(self)
    }

    fn into_job_result(self) -> (result: JobResult) {
        JobResult::Failure(self)
    }
}

/// A job that ran to its end, with what it produced.
#[derive(Debug)]
pub struct JobResultSuccess {
    id: String,
    finished_at: chrono::NaiveDateTime,
    result: rmpv::Value,
}

/// What a [`JobResultSuccess`] says.
pub struct JobResultSuccessView {
    pub id: Seq<char>,
    pub finished_at: chrono::NaiveDateTime,
    pub result: rmpv::Value,
}

impl View for JobResultSuccess {
    type V = JobResultSuccessView;

    closed spec fn view(&self) -> JobResultSuccessView {
        JobResultSuccessView { id: self.id@, finished_at: self.finished_at, result: self.result }
    }
}

impl JobResultSuccess {
    pub fn new(id: String, finished_at: chrono::NaiveDateTime, result: rmpv::Value) -> (success:
        JobResultSuccess)
        ensures
            success@ == (JobResultSuccessView { id: id@, finished_at, result }),
    {
        JobResultSuccess { id, finished_at, result }
    }

    pub fn id(&self) -> (id: &String)
        ensures
            id@ == self@.id,
    {
        &self.id
    }

    pub fn finished_at(&self) -> (finished_at: &chrono::NaiveDateTime)
        ensures
            *finished_at == self@.finished_at,
    {
        &self.finished_at
    }

    pub fn result(&self) -> (result: &rmpv::Value)
        ensures
            *result == self@.result,
    {
        &self.result
    }
}

/// A job that did not run to its end, with the cause.
#[derive(Debug)]
pub struct JobResultFailure {
    id: String,
    finished_at: chrono::NaiveDateTime,
    message: String,
    reason: FailureReason,
    should_retry: bool,
    error: rmpv::Value,
}

/// What a [`JobResultFailure`] says.
pub struct JobResultFailureView {
    pub id: Seq<char>,
    pub finished_at: chrono::NaiveDateTime,
    pub message: Seq<char>,
    pub reason: FailureReason,
    /// Whether the queue manager may put the job back in the queue.
    pub should_retry: bool,
    pub error: rmpv::Value,
}

impl View for JobResultFailure {
    type V = JobResultFailureView;

    closed spec fn view(&self) -> JobResultFailureView {
        JobResultFailureView {
            id: self.id@,
            finished_at: self.finished_at,
            message: self.message@,
            reason: self.reason,
            should_retry: self.should_retry,
            error: self.error,
        }
    }
}

impl JobResultFailure {
    pub fn new(
        id: String,
        finished_at: chrono::NaiveDateTime,
        message: String,
        reason: FailureReason,
        should_retry: bool,
        error: rmpv::Value,
    ) -> (failure: JobResultFailure)
        ensures
            failure@ == (JobResultFailureView {
                id: id@,
                finished_at,
                message: message@,
                reason,
                should_retry,
                error,
            }),
    {
        JobResultFailure { id, finished_at, message, reason, should_retry, error }
    }

    pub fn id(&self) -> (id: &String)
        ensures
            id@ == self@.id,
    {
        &self.id
    }

    pub fn finished_at(&self) -> (finished_at: &chrono::NaiveDateTime)
        ensures
            *finished_at == self@.finished_at,
    {
        &self.finished_at
    }

    pub fn message(&self) -> (message: &String)
        ensures
            message@ == self@.message,
    {
        &self.message
    }

    pub fn reason(&self) -> (reason: &FailureReason)
        ensures
            *reason == self@.reason,
    {
        &self.reason
    }

    pub fn should_retry(&self) -> (should_retry: &bool)
        ensures
            *should_retry == self@.should_retry,
    {
        &self.should_retry
    }

    pub fn error(&self) -> (error: &rmpv::Value)
        ensures
            *error == self@.error,
    {
        &self.error
    }
}

} // verus!

//! The worker's side: a registry of handlers by job name, and dispatch.

use vstd::prelude::*;
use vstd::hash_map::StringHashMap;
use vstd::string::{to_string_from_display_ensures, StringExecFns};

use crate::external::{erase, handler_yields, invoke, nil_value, utc_now, value_is_nil, ErasedHandler};
use crate::models::{
    FailureReason, FromValue, IntoJobResult, Job, JobResult, JobResultFailure, JobResultView,
    JobView,
};

verus! {

/// The name of a job: the key under which its handler is registered.
pub type JobName = String;

/// `result` ends the job `id` for good: a failure with `message`, for no
/// reason in particular, not to be tried again, with no error value.
pub open spec fn refuses(result: JobResultView, id: Seq<char>, message: Seq<char>) -> bool {
    &&& result matches JobResultView::Failure(failure)
    &&& failure.id == id
    &&& failure.message == message
    &&& failure.reason == FailureReason::Other
    &&& !failure.should_retry
    &&& value_is_nil(failure.error)
}

fn refusal(id: String, message: String) -> (result: JobResult)
    ensures
        refuses(result@, id@, message@),
{
    JobResult::Failure(
        JobResultFailure::new(id, utc_now(), message, FailureReason::Other, false, nil_value()),
    )
}

/// What a handler of the raw form may give for `job`: what it returns, made
/// into a result.
pub open spec fn raw_yields<F: Fn(Job<rmpv::Value>) -> R, R: IntoJobResult>(
    handler: F,
    job: Job<rmpv::Value>,
    result: JobResult,
) -> bool {
    exists|returned: R| #[trigger]
        call_ensures(handler, (job,), returned) && returned.converts_into(result)
}

#[verifier::reject_recursive_types(R)]
struct RawHandler<F: Fn(Job<rmpv::Value>) -> R, R: IntoJobResult> {
    handler: F,
    marker: core::marker::PhantomData<R>,
}

impl<F: Fn(Job<rmpv::Value>) -> R, R: IntoJobResult> RawHandler<F, R> {
    #[verifier::type_invariant]
    spec fn total(self) -> bool {
        forall|job: Job<rmpv::Value>| call_requires(self.handler, (job,))
    }

    spec fn yields(&self, job: Job<rmpv::Value>, result: JobResult) -> bool {
        raw_yields(self.handler, job, result)
    }

    fn new(handler: F) -> (adapter: Self)
        requires
            forall|job: Job<rmpv::Value>| call_requires(handler, (job,)),
        ensures
            adapter.handler == handler,
    {
        RawHandler { handler, marker: core::marker::PhantomData }
    }

    fn handle(&self, job: Job<rmpv::Value>) -> (result: JobResult)
        ensures
            self.yields(job, result),
    {
        proof {
            use_type_invariant(self);
        }
        let returned = (self.handler)(job);
        returned.into_job_result()
    }
}

/// `result` refuses the job `id` because its argument did not fit: the message
/// ends in what `error` says of itself.
pub open spec fn unfit(result: JobResultView, id: Seq<char>, error: rmpv::ext::Error) -> bool {
    exists|detail: String| #[trigger]
        to_string_from_display_ensures::<rmpv::ext::Error>(&error, detail) && refuses(
            result,
            id,
            "argument does not fit the handler: "@ + detail@,
        )
}

/// What `handler` may give for a job that reads `job` to it: what it
/// returns, made into a result.
pub open spec fn runs<A, F: Fn(Job<A>) -> R, R: IntoJobResult>(
    handler: F,
    job: JobView<A>,
    result: JobResult,
) -> bool {
    exists|typed: Job<A>, returned: R|
        typed@ == job && #[trigger] call_ensures(handler, (typed,), returned)
            && returned.converts_into(result)
}

/// What `handler` may give for a bare argument: what it returns, made into a
/// result.
pub open spec fn runs_bare<A, F: Fn(A) -> R, R: IntoJobResult>(
    handler: F,
    argument: A,
    result: JobResult,
) -> bool {
    exists|returned: R| #[trigger]
        call_ensures(handler, (argument,), returned) && returned.converts_into(result)
}

/// Finishes a job whose argument has been through its conversion: runs
/// `handler` on the job where the argument was recovered, and refuses the job
/// where it was not.
pub fn run_converted<A, F, R>(job: Job<Result<A, rmpv::ext::Error>>, handler: &F) -> (result:
    JobResult) where F: Fn(Job<A>) -> R, R: IntoJobResult
    requires
        forall|typed: Job<A>| call_requires(*handler, (typed,)),
    ensures
        match job@.argument {
            Ok(argument) => runs(*handler, job@.with_argument(argument), result),
            Err(error) => unfit(result@, job@.id, error),
        },
{
    let (outcome, bare) = job.replace_argument(());
    match outcome {
        Ok(argument) => {
            let (_, typed) = bare.replace_argument(argument);
            let returned = handler(typed);
            returned.into_job_result()
        },
        Err(error) => unfit_refusal(bare.id().clone(), &error),
    }
}

/// As [`run_converted`], for a handler that takes the argument alone.
pub fn run_converted_bare<A, F, R>(job: Job<Result<A, rmpv::ext::Error>>, handler: &F) -> (result:
    JobResult) where F: Fn(A) -> R, R: IntoJobResult
    requires
        forall|argument: A| call_requires(*handler, (argument,)),
    ensures
        match job@.argument {
            Ok(argument) => runs_bare(*handler, argument, result),
            Err(error) => unfit(result@, job@.id, error),
        },
{
    let (outcome, bare) = job.replace_argument(());
    match outcome {
        Ok(argument) => {
            let returned = handler(argument);
            returned.into_job_result()
        },
        Err(error) => unfit_refusal(bare.id().clone(), &error),
    }
}

fn unfit_refusal(id: String, error: &rmpv::ext::Error) -> (result: JobResult)
    ensures
        unfit(result@, id@, *error),
{
    let detail = error.to_string();
    let message = String::from_str("argument does not fit the handler: ").concat(detail.as_str());
    refusal(id, message)
}

/// What a handler of the typed form may give for `job`: what it returns for
/// the job with its argument recovered, or, where the argument does not fit,
/// a refusal.
pub open spec fn typed_yields<A: FromValue, F: Fn(Job<A>) -> R, R: IntoJobResult>(
    handler: F,
    job: Job<rmpv::Value>,
    result: JobResult,
) -> bool {
    exists|outcome: Result<A, rmpv::ext::Error>| #[trigger]
        A::converts(job@.argument, outcome) && match outcome {
            Ok(argument) => runs(handler, job@.with_argument(argument), result),
            Err(error) => unfit(result@, job@.id, error),
        }
}

/// What a handler of the bare form may give for `job`: what it returns for
/// the recovered argument alone, or, where the argument does not fit, a
/// refusal.
pub open spec fn simple_yields<A: FromValue, F: Fn(A) -> R, R: IntoJobResult>(
    handler: F,
    job: Job<rmpv::Value>,
    result: JobResult,
) -> bool {
    exists|outcome: Result<A, rmpv::ext::Error>| #[trigger]
        A::converts(job@.argument, outcome) && match outcome {
            Ok(argument) => runs_bare(handler, argument, result),
            Err(error) => unfit(result@, job@.id, error),
        }
}

fn recover<A: FromValue>(job: Job<rmpv::Value>) -> (converted: Job<Result<A, rmpv::ext::Error>>)
    ensures
        A::converts(job@.argument, converted@.argument),
        converted@ == job@.with_argument(converted@.argument),
{
    let convert = |value: rmpv::Value| -> (outcome: Result<A, rmpv::ext::Error>)
        ensures
            A::converts(value, outcome),
        { A::from_value(value) };
    job.map_argument(convert)
}

#[verifier::reject_recursive_types(A)]
#[verifier::reject_recursive_types(R)]
struct TypedHandler<A: FromValue, F: Fn(Job<A>) -> R, R: IntoJobResult> {
    handler: F,
    marker: core::marker::PhantomData<(A, R)>,
}

impl<A: FromValue, F: Fn(Job<A>) -> R, R: IntoJobResult> TypedHandler<A, F, R> {
    #[verifier::type_invariant]
    spec fn total(self) -> bool {
        forall|job: Job<A>| call_requires(self.handler, (job,))
    }

    spec fn yields(&self, job: Job<rmpv::Value>, result: JobResult) -> bool {
        typed_yields(self.handler, job, result)
    }

    fn new(handler: F) -> (adapter: Self)
        requires
            forall|job: Job<A>| call_requires(handler, (job,)),
        ensures
            adapter.handler == handler,
    {
        TypedHandler { handler, marker: core::marker::PhantomData }
    }

    fn handle(&self, job: Job<rmpv::Value>) -> (result: JobResult)
        ensures
            self.yields(job, result),
    {
        proof {
            use_type_invariant(self);
        }
        let converted = recover::<A>(job);
        run_converted(converted, &self.handler)
    }
}

#[verifier::reject_recursive_types(A)]
#[verifier::reject_recursive_types(R)]
struct SimpleHandler<A: FromValue, F: Fn(A) -> R, R: IntoJobResult> {
    handler: F,
    marker: core::marker::PhantomData<(A, R)>,
}

impl<A: FromValue, F: Fn(A) -> R, R: IntoJobResult> SimpleHandler<A, F, R> {
    #[verifier::type_invariant]
    spec fn total(self) -> bool {
        forall|argument: A| call_requires(self.handler, (argument,))
    }

    spec fn yields(&self, job: Job<rmpv::Value>, result: JobResult) -> bool {
        simple_yields(self.handler, job, result)
    }

    fn new(handler: F) -> (adapter: Self)
        requires
            forall|argument: A| call_requires(handler, (argument,)),
        ensures
            adapter.handler == handler,
    {
        SimpleHandler { handler, marker: core::marker::PhantomData }
    }

    fn handle(&self, job: Job<rmpv::Value>) -> (result: JobResult)
        ensures
            self.yields(job, result),
    {
        proof {
            use_type_invariant(self);
        }
        let converted = recover::<A>(job);
        run_converted_bare(converted, &self.handler)
    }
}

/// `result` is a failure of the job `id` that is not to be tried again and
/// gives no reason in particular.
pub open spec fn fails_for_good(result: JobResultView, id: Seq<char>) -> bool {
    &&& result matches JobResultView::Failure(failure)
    &&& failure.id == id
    &&& failure.reason == FailureReason::Other
    &&& !failure.should_retry
}

/// A job whose argument cannot be made into the type that its handler asks
/// for fails for good, whatever the handler would have done with it.
pub proof fn unfit_argument_fails_for_good<A: FromValue, F: Fn(Job<A>) -> R, R: IntoJobResult>(
    handler: F,
    job: Job<rmpv::Value>,
    result: JobResult,
)
    requires
        typed_yields(handler, job, result),
        forall|outcome: Result<A, rmpv::ext::Error>| #[trigger]
            A::converts(job@.argument, outcome) ==> outcome is Err,
    ensures
        fails_for_good(result@, job@.id),
{
    let outcome = choose|outcome: Result<A, rmpv::ext::Error>| #[trigger]
        A::converts(job@.argument, outcome) && match outcome {
            Ok(argument) => runs(handler, job@.with_argument(argument), result),
            Err(error) => unfit(result@, job@.id, error),
        };
    assert(outcome is Err);
}

/// The same for a handler that takes the argument alone.
pub proof fn unfit_bare_argument_fails_for_good<A: FromValue, F: Fn(A) -> R, R: IntoJobResult>(
    handler: F,
    job: Job<rmpv::Value>,
    result: JobResult,
)
    requires
        simple_yields(handler, job, result),
        forall|outcome: Result<A, rmpv::ext::Error>| #[trigger]
            A::converts(job@.argument, outcome) ==> outcome is Err,
    ensures
        fails_for_good(result@, job@.id),
{
    let outcome = choose|outcome: Result<A, rmpv::ext::Error>| #[trigger]
        A::converts(job@.argument, outcome) && match outcome {
            Ok(argument) => runs_bare(handler, argument, result),
            Err(error) => unfit(result@, job@.id, error),
        };
    assert(outcome is Err);
}

/// A job whose argument fits is answered by the handler and by nothing else:
/// the result is what the handler returns for the job with its argument
/// recovered, every other field as it came.
pub proof fn fitting_argument_reaches_handler<A: FromValue, F: Fn(Job<A>) -> R, R: IntoJobResult>(
    handler: F,
    job: Job<rmpv::Value>,
    result: JobResult,
    argument: A,
)
    requires
        typed_yields(handler, job, result),
        forall|outcome: Result<A, rmpv::ext::Error>| #[trigger]
            A::converts(job@.argument, outcome) ==> outcome == Ok::<A, rmpv::ext::Error>(argument),
    ensures
        runs(handler, job@.with_argument(argument), result),
{
    let outcome = choose|outcome: Result<A, rmpv::ext::Error>| #[trigger]
        A::converts(job@.argument, outcome) && match outcome {
            Ok(argument) => runs(handler, job@.with_argument(argument), result),
            Err(error) => unfit(result@, job@.id, error),
        };
    assert(outcome == Ok::<A, rmpv::ext::Error>(argument));
}

/// The handlers of one worker, by job name.
pub struct Worker {
    handlers: StringHashMap<ErasedHandler>,
}

impl View for Worker {
    type V = Map<Seq<char>, ErasedHandler>;

    closed spec fn view(&self) -> Map<Seq<char>, ErasedHandler> {
        self.handlers@
    }
}

impl Worker {
    /// A registry without handlers.
    pub fn new() -> (worker: Self)
        ensures
            worker@ == Map::<Seq<char>, ErasedHandler>::empty(),
    {
        Worker { handlers: StringHashMap::new() }
    }

    /// Whether a handler is registered under `name`.
    pub fn has_handler(&self, name: &str) -> (found: bool)
        ensures
            found == self@.contains_key(name@),
    {
        self.handlers.contains_key(name)
    }

    /// Registers under `name` a handler that takes the job as it came, its
    /// argument still a value tree. A handler registered under `name` before
    /// is replaced; the others stay.
    pub fn register_handler_raw<F, R>(&mut self, name: &str, handler: F) where
        F: Fn(Job<rmpv::Value>) -> R + 'static,
        R: IntoJobResult + 'static,

        requires
            forall|job: Job<rmpv::Value>| call_requires(handler, (job,)),
        ensures
            final(self)@.dom() == old(self)@.dom().insert(name@),
            forall|other: Seq<char>|
                other != name@ && old(self)@.contains_key(other) ==> final(self)@[other] == old(
                    self,
                )@[other],
            forall|job: Job<rmpv::Value>, result: JobResult|
                handler_yields(final(self)@[name@], job, result) ==> raw_yields(
                    handler,
                    job,
                    result,
                ),
    {
        let adapter = RawHandler::new(handler);
        let call = move |job: Job<rmpv::Value>| -> (result: JobResult)
            ensures
                adapter.yields(job, result),
            { adapter.handle(job) };
        self.handlers.insert(name.to_owned(), erase(call));
        assert(final(self)@.dom() =~= old(self)@.dom().insert(name@));
    }

    /// Registers under `name` a handler that takes the job with its argument
    /// as an `A`. At dispatch the argument is recovered with
    /// [`FromValue::from_value`]; a job whose argument does not fit is refused
    /// and never reaches the handler.
    pub fn register_handler<A, F, R>(&mut self, name: &str, handler: F) where
        A: FromValue + 'static,
        F: Fn(Job<A>) -> R + 'static,
        R: IntoJobResult + 'static,

        requires
            forall|job: Job<A>| call_requires(handler, (job,)),
        ensures
            final(self)@.dom() == old(self)@.dom().insert(name@),
            forall|other: Seq<char>|
                other != name@ && old(self)@.contains_key(other) ==> final(self)@[other] == old(
                    self,
                )@[other],
            forall|job: Job<rmpv::Value>, result: JobResult|
                handler_yields(final(self)@[name@], job, result) ==> typed_yields(
                    handler,
                    job,
                    result,
                ),
    {
        let adapter = TypedHandler::new(handler);
        let call = move |job: Job<rmpv::Value>| -> (result: JobResult)
            ensures
                adapter.yields(job, result),
            { adapter.handle(job) };
        self.handlers.insert(name.to_owned(), erase(call));
        assert(final(self)@.dom() =~= old(self)@.dom().insert(name@));
    }

    /// As [`Worker::register_handler`], for a handler that takes the argument
    /// alone and has no use for the rest of the job.
    pub fn register_handler_simple<A, F, R>(&mut self, name: &str, handler: F) where
        A: FromValue + 'static,
        F: Fn(A) -> R + 'static,
        R: IntoJobResult + 'static,

        requires
            forall|argument: A| call_requires(handler, (argument,)),
        ensures
            final(self)@.dom() == old(self)@.dom().insert(name@),
            forall|other: Seq<char>|
                other != name@ && old(self)@.contains_key(other) ==> final(self)@[other] == old(
                    self,
                )@[other],
            forall|job: Job<rmpv::Value>, result: JobResult|
                handler_yields(final(self)@[name@], job, result) ==> simple_yields(
                    handler,
                    job,
                    result,
                ),
    {
        let adapter = SimpleHandler::new(handler);
        let call = move |job: Job<rmpv::Value>| -> (result: JobResult)
            ensures
                adapter.yields(job, result),
            { adapter.handle(job) };
        self.handlers.insert(name.to_owned(), erase(call));
        assert(final(self)@.dom() =~= old(self)@.dom().insert(name@));
    }

    /// Runs the handler registered under the job's name and returns what it
    /// gives. A job under whose name nothing is registered is refused: it
    /// fails for good, and the message names the job.
    pub fn dispatch(&self, job: Job<rmpv::Value>) -> (result: JobResult)
        ensures
            self@.contains_key(job@.name) ==> handler_yields(self@[job@.name], job, result),
            !self@.contains_key(job@.name) ==> refuses(
                result@,
                job@.id,
                "no handler registered for job: "@ + job@.name,
            ) && fails_for_good(result@, job@.id),
    {
        match self.handlers.get(job.name().as_str()) {
            Some(handler) => invoke(handler, job),
            None => {
                let message = String::from_str("no handler registered for job: ").concat(
                    job.name().as_str(),
                );
                refusal(job.id().clone(), message)
            },
        }
    }
}

} // verus!

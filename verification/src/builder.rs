//! Building a job request field by field, with defaults from a policy.

use vstd::prelude::*;

use crate::external::{duration_millis, num_milliseconds};
use crate::models::JobRequest;

verus! {

/// Where a [`JobRequestBuilder`] takes the values that its user left out.
pub trait JobRequestBuilderDefault {
    /// Whether `timeout` is what `default_timeout` may return. An impl that
    /// says nothing promises nothing.
    open spec fn offers_timeout(&self, timeout: chrono::Duration) -> bool {
        true
    }

    /// Whether `max_retry` is what `default_max_retry` may return.
    open spec fn offers_max_retry(&self, max_retry: i32) -> bool {
        true
    }

    fn default_timeout(&self) -> (timeout: chrono::Duration)
        ensures
            self.offers_timeout(timeout),
    ;

    fn default_max_retry(&self) -> (max_retry: i32)
        ensures
            self.offers_max_retry(max_retry),
    ;
}

/// Collects the fields of a [`JobRequest`] one by one.
///
/// `id`, `name` and `argument` have to be set before `build`; what is left
/// unset of the others comes from the policy `T`, or is 0 for the priority
/// and `false` for `keep_result`.
#[derive(Debug)]
pub struct JobRequestBuilder<'a, T, A> {
    pusher: &'a T,
    id: Option<String>,
    name: Option<String>,
    argument: Option<A>,
    priority: Option<i32>,
    max_retry: Option<i32>,
    keep_result: Option<bool>,
    timeout: Option<chrono::Duration>,
}

/// What has been set in a [`JobRequestBuilder`] so far.
pub struct JobRequestBuilderView<A> {
    pub id: Option<Seq<char>>,
    pub name: Option<Seq<char>>,
    pub argument: Option<A>,
    pub priority: Option<int>,
    pub max_retry: Option<int>,
    pub keep_result: Option<bool>,
    pub timeout: Option<chrono::Duration>,
}

impl<A> JobRequestBuilderView<A> {
    /// Nothing set.
    pub open spec fn empty() -> Self {
        JobRequestBuilderView {
            id: None,
            name: None,
            argument: None,
            priority: None,
            max_retry: None,
            keep_result: None,
            timeout: None,
        }
    }

    /// The three fields that have no default are set.
    pub open spec fn complete(self) -> bool {
        self.id is Some && self.name is Some && self.argument is Some
    }
}

impl<'a, T, A> View for JobRequestBuilder<'a, T, A> {
    type V = JobRequestBuilderView<A>;

    closed spec fn view(&self) -> JobRequestBuilderView<A> {
        JobRequestBuilderView {
            id: match self.id {
                Some(id) => Some(id@),
                None => None,
            },
            name: match self.name {
                Some(name) => Some(name@),
                None => None,
            },
            argument: self.argument,
            priority: match self.priority {
                Some(priority) => Some(priority as int),
                None => None,
            },
            max_retry: match self.max_retry {
                Some(max_retry) => Some(max_retry as int),
                None => None,
            },
            keep_result: self.keep_result,
            timeout: self.timeout,
        }
    }
}

impl<'a, T: JobRequestBuilderDefault, A> JobRequestBuilder<'a, T, A> {
    /// The policy that `build` asks for what was left unset.
    pub closed spec fn policy(&self) -> &T {
        self.pusher
    }

    /// A builder with nothing set, which will ask `pusher` for defaults.
    pub fn new(pusher: &'a T) -> (builder: Self)
        ensures
            builder@ == JobRequestBuilderView::<A>::empty(),
            builder.policy() == pusher,
    {
        JobRequestBuilder {
            pusher,
            id: None,
            name: None,
            argument: None,
            priority: None,
            max_retry: None,
            keep_result: None,
            timeout: None,
        }
    }

    /// Whether `build` may be called: `id`, `name` and `argument` are set.
    pub fn is_complete(&self) -> (complete: bool)
        ensures
            complete == self@.complete(),
    {
        self.id.is_some() && self.name.is_some() && self.argument.is_some()
    }

    /// The request that has been collected.
    ///
    /// What was set is taken as it is, a timeout as its whole milliseconds.
    /// An unset priority is 0, an unset `keep_result` is `false`; an unset
    /// `max_retry` or timeout is one that the policy offers.
    pub fn build(self) -> (request: JobRequest<A>)
        requires
            self@.complete(),
        ensures
            request@.id == self@.id->0,
            request@.name == self@.name->0,
            request@.argument == self@.argument->0,
            request@.priority == match self@.priority {
                Some(priority) => priority,
                None => 0,
            },
            match self@.max_retry {
                Some(max_retry) => request@.max_retry == max_retry,
                None => i32::MIN <= request@.max_retry <= i32::MAX && self.policy().offers_max_retry(
                    request@.max_retry as i32,
                ),
            },
            request@.keep_result == match self@.keep_result {
                Some(keep_result) => keep_result,
                None => false,
            },
            match self@.timeout {
                Some(timeout) => request@.timeout == duration_millis(timeout),
                None => exists|timeout: chrono::Duration|
                    self.policy().offers_timeout(timeout) && request@.timeout == duration_millis(
                        timeout,
                    ),
            },
    {
        let default_max_retry = self.pusher.default_max_retry();
        let default_timeout = self.pusher.default_timeout();
        let timeout = match self.timeout {
            Some(timeout) => timeout,
            None => default_timeout,
        };
        JobRequest::new(
            self.id.unwrap(),
            self.name.unwrap(),
            self.argument.unwrap(),
            match self.priority {
                Some(priority) => priority,
                None => 0,
            },
            match self.max_retry {
                Some(max_retry) => max_retry,
                None => default_max_retry,
            },
            match self.keep_result {
                Some(keep_result) => keep_result,
                None => false,
            },
            num_milliseconds(&timeout),
        )
    }

    /// Sets the identifier. As with every setter, the last value set counts,
    /// and the builder comes back for the next call.
    pub fn id(&mut self, id: &str) -> (builder: &mut Self)
        ensures
            builder@ == (JobRequestBuilderView { id: Some(id@), ..old(self)@ }),
            builder.policy() == old(self).policy(),
            *final(self) == *final(builder),
    {
        self.id = Some(id.to_owned());
        self
    }

    /// Sets the name under which a worker will look for the handler.
    pub fn name(&mut self, name: &str) -> (builder: &mut Self)
        ensures
            builder@ == (JobRequestBuilderView { name: Some(name@), ..old(self)@ }),
            builder.policy() == old(self).policy(),
            *final(self) == *final(builder),
    {
        self.name = Some(name.to_owned());
        self
    }

    pub fn argument(&mut self, argument: A) -> (builder: &mut Self)
        ensures
            builder@ == (JobRequestBuilderView { argument: Some(argument), ..old(self)@ }),
            builder.policy() == old(self).policy(),
            *final(self) == *final(builder),
    {
        self.argument = Some(argument);
        self
    }

    pub fn priority(&mut self, priority: i32) -> (builder: &mut Self)
        ensures
            builder@ == (JobRequestBuilderView { priority: Some(priority as int), ..old(self)@ }),
            builder.policy() == old(self).policy(),
            *final(self) == *final(builder),
    {
        self.priority = Some(priority);
        self
    }

    pub fn max_retry(&mut self, max_retry: i32) -> (builder: &mut Self)
        ensures
            builder@ == (JobRequestBuilderView { max_retry: Some(max_retry as int), ..old(self)@ }),
            builder.policy() == old(self).policy(),
            *final(self) == *final(builder),
    {
        self.max_retry = Some(max_retry);
        self
    }

    pub fn keep_result(&mut self, keep_result: bool) -> (builder: &mut Self)
        ensures
            builder@ == (JobRequestBuilderView { keep_result: Some(keep_result), ..old(self)@ }),
            builder.policy() == old(self).policy(),
            *final(self) == *final(builder),
    {
        self.keep_result = Some(keep_result);
        self
    }

    /// Sets the time budget of one attempt.
    pub fn timeout(&mut self, timeout: chrono::Duration) -> (builder: &mut Self)
        ensures
            builder@ == (JobRequestBuilderView { timeout: Some(timeout), ..old(self)@ }),
            builder.policy() == old(self).policy(),
            *final(self) == *final(builder),
    {
        self.timeout = Some(timeout);
        self
    }
}

} // verus!

//! The producer's side: a pusher and the defaults it gives to its requests.

use vstd::prelude::*;

use crate::builder::JobRequestBuilderDefault;

verus! {

/// The defaults of one pusher.
#[derive(Debug)]
pub struct PusherOptions {
    default_timeout: chrono::Duration,
    default_max_retry: i32,
}

/// What a [`PusherOptions`] holds.
pub struct PusherOptionsView {
    pub default_timeout: chrono::Duration,
    pub default_max_retry: int,
}

impl View for PusherOptions {
    type V = PusherOptionsView;

    closed spec fn view(&self) -> PusherOptionsView {
        PusherOptionsView {
            default_timeout: self.default_timeout,
            default_max_retry: self.default_max_retry as int,
        }
    }
}

impl PusherOptions {
    pub fn new(default_timeout: chrono::Duration, default_max_retry: i32) -> (options: Self)
        ensures
            options@ == (PusherOptionsView {
                default_timeout,
                default_max_retry: default_max_retry as int,
            }),
    {
        PusherOptions { default_timeout, default_max_retry }
    }
}

/// A producer of job requests. It is the policy that a
/// [`JobRequestBuilder`](crate::builder::JobRequestBuilder) asks for what its
/// user left out.
#[derive(Debug)]
pub struct Pusher {
    options: PusherOptions,
}

impl View for Pusher {
    type V = PusherOptionsView;

    closed spec fn view(&self) -> PusherOptionsView {
        self.options@
    }
}

impl Pusher {
    pub fn new(options: PusherOptions) -> (pusher: Self)
        ensures
            pusher@ == options@,
    {
        Pusher { options }
    }
}

impl JobRequestBuilderDefault for Pusher {
    open spec fn offers_timeout(&self, timeout: chrono::Duration) -> bool {
        timeout == self@.default_timeout
    }

    open spec fn offers_max_retry(&self, max_retry: i32) -> bool {
        max_retry == self@.default_max_retry
    }

    fn default_timeout(&self) -> (timeout: chrono::Duration) {
        self.options.default_timeout
    }

    fn default_max_retry(&self) -> (max_retry: i32) {
        self.options.default_max_retry
    }
}

impl JobRequestBuilderDefault for &Pusher {
    open spec fn offers_timeout(&self, timeout: chrono::Duration) -> bool {
        timeout == self@.default_timeout
    }

    open spec fn offers_max_retry(&self, max_retry: i32) -> bool {
        max_retry == self@.default_max_retry
    }

    fn default_timeout(&self) -> (timeout: chrono::Duration) {
        self.options.default_timeout
    }

    fn default_max_retry(&self) -> (max_retry: i32) {
        self.options.default_max_retry
    }
}

} // verus!

//! Client side of a job queue that lives on a shared broker.
//!
//! A producer builds a [`models::JobRequest`] and hands it to the broker; a
//! registrar, which is not part of this crate, admits it as a
//! [`models::Job`]; a worker looks the job's name up in its
//! [`worker::Worker`] registry, runs the handler found there and reports a
//! [`models::JobResult`].
//!
//! The crate holds the data model, the rules of the four queues and the
//! registry with its dispatch. Talking to the broker is left to the caller.
//! [`external`] lists what is taken on trust from other crates.

pub mod builder;
pub mod codec;
pub mod external;
pub mod lifecycle;
pub mod models;
pub mod pusher;
pub mod transport;
pub mod worker;

use vstd::prelude::*;

use crate::external::uuid_v7_simple;

verus! {

/// The sum of two sizes. The sum has to fit in a `usize`.
pub fn add(left: usize, right: usize) -> (sum: usize)
    requires
        left + right <= usize::MAX,
    ensures
        sum == left + right,
{
    left + right
}

/// Whether `c` is one of `0`-`9` or `a`-`f`.
pub open spec fn is_lower_hex(c: char) -> bool {
    ('0' <= c && c <= '9') || ('a' <= c && c <= 'f')
}

/// A fresh job identifier: a version 7 UUID written as 32 lower-case
/// hexadecimal digits. Its leading digits are the time of the call, so
/// identifiers made later sort later.
pub fn gen_id() -> (id: String)
    ensures
        id@.len() == 32,
        forall|i: int| 0 <= i < 32 ==> is_lower_hex(#[trigger] id@[i]),
        id@[12] == '7',
{
    uuid_v7_simple()
}

} // verus!

//! The boundary to code that is not verified here.
//!
//! Every item of this module is believed, not proved: the declarations of the
//! types of other crates that the library carries through, the names given to
//! what a function of another crate returns, and the thin functions that make
//! those calls. Everything else in the library is proved on top of what is
//! claimed here.

use vstd::prelude::*;

use crate::is_lower_hex;
use crate::models::{Job, JobResult};

verus! {

/// `rmpv::Value`: a decoded MessagePack value of any shape. The library never
/// looks inside one.
#[verifier::external_type_specification]
#[verifier::external_body]
pub struct ExValue(rmpv::Value);

/// `rmpv::ext::Error`: why a value could not be turned into a typed one.
#[verifier::external_type_specification]
#[verifier::external_body]
pub struct ExValueError(rmpv::ext::Error);

/// `chrono::TimeDelta` (also known as `chrono::Duration`): a signed span of time.
#[verifier::external_type_specification]
#[verifier::external_body]
pub struct ExTimeDelta(chrono::TimeDelta);

/// `chrono::NaiveDateTime`: a calendar date and time of day, read as UTC
/// wherever the library holds one.
#[verifier::external_type_specification]
#[verifier::external_body]
pub struct ExNaiveDateTime(chrono::NaiveDateTime);

/// `rmp_serde::encode::Error`: why a value could not be written as MessagePack.
#[verifier::external_type_specification]
#[verifier::external_body]
pub struct ExEncodeError(rmp_serde::encode::Error);

/// `rmp_serde::decode::Error`: why bytes could not be read as MessagePack.
#[verifier::external_type_specification]
#[verifier::external_body]
pub struct ExDecodeError(rmp_serde::decode::Error);

/// `redis::RedisError`: a failure reported by the broker or its client.
#[verifier::external_type_specification]
#[verifier::external_body]
pub struct ExRedisError(redis::RedisError);

/// The error that `redis::RedisError::from` makes of the kind
/// `redis::ErrorKind::TypeError` and `description`.
pub uninterp spec fn type_error_of(description: Seq<char>) -> redis::RedisError;

/// Calls `redis::RedisError::from` on `redis::ErrorKind::TypeError` and
/// `description`. The claim is only that the error depends on the description
/// alone.
#[verifier::external_body]
pub(crate) fn type_error(description: &'static str) -> (error: redis::RedisError)
    ensures
        error == type_error_of(description@),
{
    redis::RedisError::from((redis::ErrorKind::TypeError, description))
}

/// The whole milliseconds in `duration`, as `chrono::TimeDelta::num_milliseconds`
/// counts them.
pub uninterp spec fn duration_millis(duration: chrono::TimeDelta) -> i64;

/// Calls `chrono::TimeDelta::num_milliseconds`. The claim is only that the
/// count depends on the duration alone; chrono keeps every duration within
/// `i64` milliseconds, so the call does not overflow.
#[verifier::external_body]
pub(crate) fn num_milliseconds(duration: &chrono::TimeDelta) -> (millis: i64)
    ensures
        millis == duration_millis(*duration),
{
    duration.num_milliseconds()
}

/// Reads the clock with `chrono::Utc::now` and drops the zone with
/// `DateTime::naive_utc`. Nothing is claimed of the instant returned. chrono
/// panics where the system clock stands before 1970.
#[verifier::external_body]
pub(crate) fn utc_now() -> chrono::NaiveDateTime {
    chrono::Utc::now().naive_utc()
}

/// Whether `value` is MessagePack's nil, as `rmpv::Value::is_nil` tells.
pub uninterp spec fn value_is_nil(value: rmpv::Value) -> bool;

/// Makes `rmpv::Value::Nil`, of which `rmpv::Value::is_nil` is true.
#[verifier::external_body]
pub(crate) fn nil_value() -> (value: rmpv::Value)
    ensures
        value_is_nil(value),
{
    rmpv::Value::Nil
}

/// What `rmpv::ext::from_value` makes of `value` where a `String` is asked
/// for: the text, or the reason why `value` holds none.
pub uninterp spec fn text_of_value(value: rmpv::Value) -> Result<Seq<char>, rmpv::ext::Error>;

/// Calls `rmpv::ext::from_value` for a `String`. serde and rmpv decide between
/// them which values hold a text; the claim is only that the outcome depends
/// on the value alone.
#[verifier::external_body]
pub(crate) fn text_from_value(value: rmpv::Value) -> (outcome: Result<String, rmpv::ext::Error>)
    ensures
        match outcome {
            Ok(text) => text_of_value(value) == Ok::<Seq<char>, rmpv::ext::Error>(text@),
            Err(error) => text_of_value(value) == Err::<Seq<char>, rmpv::ext::Error>(error),
        },
{
    rmpv::ext::from_value::<String>(value)
}

/// What `rmpv::ext::from_value` makes of `value` where an `i64` is asked for:
/// the number, or the reason why `value` holds none.
pub uninterp spec fn integer_of_value(value: rmpv::Value) -> Result<i64, rmpv::ext::Error>;

/// Calls `rmpv::ext::from_value` for an `i64`. The claim is only that the
/// outcome depends on the value alone.
#[verifier::external_body]
pub(crate) fn integer_from_value(value: rmpv::Value) -> (outcome: Result<i64, rmpv::ext::Error>)
    ensures
        outcome == integer_of_value(value),
{
    rmpv::ext::from_value::<i64>(value)
}

/// What `rmpv::ext::from_value` makes of `value` where a `bool` is asked for:
/// the truth value, or the reason why `value` holds none.
pub uninterp spec fn flag_of_value(value: rmpv::Value) -> Result<bool, rmpv::ext::Error>;

/// Calls `rmpv::ext::from_value` for a `bool`. The claim is only that the
/// outcome depends on the value alone.
#[verifier::external_body]
pub(crate) fn flag_from_value(value: rmpv::Value) -> (outcome: Result<bool, rmpv::ext::Error>)
    ensures
        outcome == flag_of_value(value),
{
    rmpv::ext::from_value::<bool>(value)
}

/// The bytes that `rmp_serde::to_vec` writes for `value`, or `None` where it
/// fails.
pub uninterp spec fn packed(value: rmpv::Value) -> Option<Seq<u8>>;

/// Calls `rmp_serde::to_vec` on a value tree. The claim is only that the
/// outcome depends on the value alone.
#[verifier::external_body]
pub(crate) fn to_vec(value: &rmpv::Value) -> (outcome: Result<Vec<u8>, rmp_serde::encode::Error>)
    ensures
        match outcome {
            Ok(bytes) => packed(*value) == Some(bytes@),
            Err(_) => packed(*value) is None,
        },
{
    rmp_serde::to_vec(value)
}

/// The value tree that `rmp_serde::from_slice` reads from `bytes`, or `None`
/// where it fails.
pub uninterp spec fn unpacked(bytes: Seq<u8>) -> Option<rmpv::Value>;

/// Calls `rmp_serde::from_slice` for a value tree. The claim is only that the
/// outcome depends on the bytes alone.
#[verifier::external_body]
pub(crate) fn from_slice(bytes: &[u8]) -> (outcome: Result<rmpv::Value, rmp_serde::decode::Error>)
    ensures
        match outcome {
            Ok(value) => unpacked(bytes@) == Some(value),
            Err(_) => unpacked(bytes@) is None,
        },
{
    rmp_serde::from_slice::<rmpv::Value>(bytes)
}

/// Makes a version 7 UUID from the system clock (`uuid::Timestamp::now`,
/// `uuid::Uuid::new_v7`) and writes it in the simple form
/// (`uuid::Uuid::simple`): 32 lower-case hexadecimal digits, the thirteenth of
/// which is the version. Nothing else is claimed: the digits depend on the
/// clock and on chance. uuid panics where the system clock stands before 1970.
#[verifier::external_body]
pub(crate) fn uuid_v7_simple() -> (id: String)
    ensures
        id@.len() == 32,
        forall|i: int| 0 <= i < 32 ==> is_lower_hex(#[trigger] id@[i]),
        id@[12] == '7',
{
    uuid::Uuid::new_v7(uuid::Timestamp::now(uuid::NoContext)).simple().to_string()
}

/// A handler whose concrete type has been forgotten: a boxed
/// `Fn(Job<rmpv::Value>) -> JobResult`. Verus has no model of such a trait
/// object, so the box is hidden from it and spoken of through
/// [`handler_yields`].
#[verifier::external_body]
pub struct ErasedHandler {
    call: Box<dyn Fn(Job<rmpv::Value>) -> JobResult>,
}

/// Whether calling the boxed function of `handler` on `job` may return
/// `result`.
pub uninterp spec fn handler_yields(
    handler: ErasedHandler,
    job: Job<rmpv::Value>,
    result: JobResult,
) -> bool;

/// Boxes `call` with `Box::new`. The claim: the box returns nothing but what
/// `call` returns. `call` has to accept every job, since the box will be
/// handed any.
#[verifier::external_body]
pub(crate) fn erase<F: Fn(Job<rmpv::Value>) -> JobResult + 'static>(call: F) -> (erased:
    ErasedHandler)
    requires
        forall|job: Job<rmpv::Value>| call_requires(call, (job,)),
    ensures
        forall|job: Job<rmpv::Value>, result: JobResult|
            handler_yields(erased, job, result) ==> call_ensures(call, (job,), result),
{
    ErasedHandler { call: Box::new(call) }
}

/// Calls the boxed function of `handler` on `job`.
#[verifier::external_body]
pub(crate) fn invoke(handler: &ErasedHandler, job: Job<rmpv::Value>) -> (result: JobResult)
    ensures
        handler_yields(*handler, job, result),
{
    (handler.call)(job)
}

} // verus!

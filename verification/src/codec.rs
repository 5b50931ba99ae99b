//! The codec: value trees and their MessagePack bytes, and typed values out
//! of value trees.
//!
//! A job's argument crosses the broker as MessagePack. On the worker's side
//! it is first read as a value tree, whatever its shape, and only then turned
//! into the type that the handler asks for, by [`FromValue`].

use vstd::prelude::*;

use crate::external::{
    flag_from_value, flag_of_value, from_slice, integer_from_value, integer_of_value, packed,
    text_from_value, text_of_value, to_vec, unpacked,
};
use crate::models::JQError;

verus! {

/// Writes a value tree as MessagePack.
///
/// Fails with [`JQError::SerializationError`] exactly where the encoder does.
pub fn encode_data(data: &rmpv::Value) -> (outcome: Result<Vec<u8>, JQError>)
    ensures
        match outcome {
            Ok(bytes) => packed(*data) == Some(bytes@),
            Err(error) => packed(*data) is None && error is SerializationError,
        },
{
    match to_vec(data) {
        Ok(bytes) => Ok(bytes),
        Err(error) => Err(JQError::from(error)),
    }
}

/// Reads MessagePack bytes as a value tree, whatever its shape.
///
/// Fails with [`JQError::DeserializationError`] exactly where the decoder
/// does.
pub fn decode_data(data: &[u8]) -> (outcome: Result<rmpv::Value, JQError>)
    ensures
        match outcome {
            Ok(value) => unpacked(data@) == Some(value),
            Err(error) => unpacked(data@) is None && error is DeserializationError,
        },
{
    match from_slice(data) {
        Ok(value) => Ok(value),
        Err(error) => Err(JQError::from(error)),
    }
}

/// A type that can be recovered from a value tree.
///
/// A worker's handler names the type of its argument; the argument itself
/// arrives as a value tree and is turned into that type by `from_value`,
/// which may refuse it.
pub trait FromValue: Sized {
    /// Whether `outcome` is what `from_value` may return for `value`. An impl
    /// that says nothing promises nothing.
    open spec fn converts(value: rmpv::Value, outcome: Result<Self, rmpv::ext::Error>) -> bool {
        true
    }

    fn from_value(value: rmpv::Value) -> (outcome: Result<Self, rmpv::ext::Error>)
        ensures
            Self::converts(value, outcome),
    ;
}

/// A value tree is its own typed form.
impl FromValue for rmpv::Value {
    open spec fn converts(value: rmpv::Value, outcome: Result<Self, rmpv::ext::Error>) -> bool {
        outcome == Ok::<rmpv::Value, rmpv::ext::Error>(value)
    }

    fn from_value(value: rmpv::Value) -> (outcome: Result<Self, rmpv::ext::Error>) {
        Ok(value)
    }
}

/// A text is recovered where, and as, the structural conversion of values
/// finds one: the outcome is the one that belongs to the value.
impl FromValue for String {
    open spec fn converts(value: rmpv::Value, outcome: Result<Self, rmpv::ext::Error>) -> bool {
        match outcome {
            Ok(text) => text_of_value(value) == Ok::<Seq<char>, rmpv::ext::Error>(text@),
            Err(error) => text_of_value(value) == Err::<Seq<char>, rmpv::ext::Error>(error),
        }
    }

    fn from_value(value: rmpv::Value) -> (outcome: Result<Self, rmpv::ext::Error>) {
        text_from_value(value)
    }
}

/// A number is recovered where, and as, the structural conversion of values
/// finds one.
impl FromValue for i64 {
    open spec fn converts(value: rmpv::Value, outcome: Result<Self, rmpv::ext::Error>) -> bool {
        outcome == integer_of_value(value)
    }

    fn from_value(value: rmpv::Value) -> (outcome: Result<Self, rmpv::ext::Error>) {
        integer_from_value(value)
    }
}

/// A truth value is recovered where, and as, the structural conversion of
/// values finds one.
impl FromValue for bool {
    open spec fn converts(value: rmpv::Value, outcome: Result<Self, rmpv::ext::Error>) -> bool {
        outcome == flag_of_value(value)
    }

    fn from_value(value: rmpv::Value) -> (outcome: Result<Self, rmpv::ext::Error>) {
        flag_from_value(value)
    }
}

} // verus!

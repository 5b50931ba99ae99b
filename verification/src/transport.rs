//! The rules of the four queues.
//!
//! The broker holds four lists. Workers announce themselves on one, producers
//! put their requests on another, the registrar feeds admitted jobs into a
//! third from which workers pop, and workers push their results onto the
//! fourth. This module says which operation goes to which list under which
//! key, and how the broker's answer to a pop is read. Sending the commands is
//! the caller's part.

use vstd::prelude::*;

use crate::external::{type_error, type_error_of};
use crate::models::JQError;

verus! {

/// The key of the list on which workers announce themselves.
pub const WORKER_REGISTER_QUEUE: &'static str = "jq:workerRegister";

/// The key of the list from which workers pop admitted jobs.
pub const GLOBAL_QUEUE: &'static str = "jq:globalQueue";

/// The key of the list onto which workers push results.
pub const RESULT_QUEUE: &'static str = "jq:resultQueue";

/// The key of the list onto which producers push requests.
pub const JOB_REGISTER_QUEUE: &'static str = "jq:jobRegister";

/// One of the four lists on the broker.
#[derive(Debug, Clone, Copy, PartialEq, Eq, Structural)]
pub enum Queue {
    WorkerRegister,
    JobRegister,
    Global,
    Results,
}

impl Queue {
    /// The key of the list, letter for letter.
    pub open spec fn key(self) -> Seq<char> {
        match self {
            Queue::WorkerRegister => WORKER_REGISTER_QUEUE@,
            Queue::JobRegister => JOB_REGISTER_QUEUE@,
            Queue::Global => GLOBAL_QUEUE@,
            Queue::Results => RESULT_QUEUE@,
        }
    }

    pub fn name(self) -> (name: &'static str)
        ensures
            name@ == self.key(),
    {
        match self {
            Queue::WorkerRegister => WORKER_REGISTER_QUEUE,
            Queue::JobRegister => JOB_REGISTER_QUEUE,
            Queue::Global => GLOBAL_QUEUE,
            Queue::Results => RESULT_QUEUE,
        }
    }
}

/// No two queues share a key: what is pushed onto one list is never popped
/// from another.
pub proof fn queue_keys_differ(first: Queue, second: Queue)
    ensures
        first.key() == second.key() <==> first == second,
{
    reveal_strlit("jq:workerRegister");
    reveal_strlit("jq:globalQueue");
    reveal_strlit("jq:resultQueue");
    reveal_strlit("jq:jobRegister");
    assert(WORKER_REGISTER_QUEUE@[3] == 'w');
    assert(GLOBAL_QUEUE@[3] == 'g');
    assert(RESULT_QUEUE@[3] == 'r');
    assert(JOB_REGISTER_QUEUE@[3] == 'j');
}

/// What a list command does to its list.
#[derive(Debug, Clone, Copy, PartialEq, Eq, Structural)]
pub enum Direction {
    /// Append at the tail and return at once.
    Push,
    /// Take from the head, waiting without limit while the list is empty.
    BlockingPop,
}

/// One of the four things a client asks of the broker.
#[derive(Debug, Clone, Copy, PartialEq, Eq, Structural)]
pub enum Operation {
    RegisterWorker,
    EnqueueJob,
    BlockingPopJob,
    ReportJobResult,
}

impl Operation {
    /// The list that the operation works on.
    pub open spec fn target(self) -> Queue {
        match self {
            Operation::RegisterWorker => Queue::WorkerRegister,
            Operation::EnqueueJob => Queue::JobRegister,
            Operation::BlockingPopJob => Queue::Global,
            Operation::ReportJobResult => Queue::Results,
        }
    }

    /// Popping a job is the one operation that takes from a list.
    pub open spec fn way(self) -> Direction {
        if self == Operation::BlockingPopJob {
            Direction::BlockingPop
        } else {
            Direction::Push
        }
    }

    pub fn queue(self) -> (queue: Queue)
        ensures
            queue == self.target(),
    {
        match self {
            Operation::RegisterWorker => Queue::WorkerRegister,
            Operation::EnqueueJob => Queue::JobRegister,
            Operation::BlockingPopJob => Queue::Global,
            Operation::ReportJobResult => Queue::Results,
        }
    }

    pub fn direction(self) -> (direction: Direction)
        ensures
            direction == self.way(),
    {
        match self {
            Operation::BlockingPopJob => Direction::BlockingPop,
            _ => Direction::Push,
        }
    }
}

/// No two operations work on the same list, so none waits for another.
pub proof fn operations_keep_apart(first: Operation, second: Operation)
    ensures
        first.target().key() == second.target().key() <==> first == second,
{
    queue_keys_differ(first.target(), second.target());
}

/// What the broker answers, as far as this crate reads it.
#[derive(Debug)]
pub enum Reply {
    /// No value.
    Nil,
    /// One string of bytes.
    Data(Vec<u8>),
    /// A list of answers.
    Bulk(Vec<Reply>),
    /// A number or a status line.
    Other,
}

impl Reply {
    /// The payload that the answer carries, if it has the shape of an answer
    /// to a pop: either the bytes alone, or the list's key followed by the
    /// bytes.
    pub open spec fn payload(self) -> Option<Seq<u8>> {
        match self {
            Reply::Data(bytes) => Some(bytes@),
            Reply::Bulk(items) => if items@.len() == 2 && items@[0] is Data {
                match items@[1] {
                    Reply::Data(bytes) => Some(bytes@),
                    _ => None,
                }
            } else {
                None
            },
            _ => None,
        }
    }

    /// Takes the payload out of an answer to a pop.
    ///
    /// An answer of any other shape is refused with the broker client's type
    /// error, "unexpected type".
    pub fn into_payload(self) -> (outcome: Result<Vec<u8>, JQError>)
        ensures
            match outcome {
                Ok(bytes) => self.payload() == Some(bytes@),
                Err(error) => self.payload() is None && error == JQError::RedisError(
                    type_error_of("unexpected type"@),
                ),
            },
    {
        match self {
            Reply::Data(bytes) => Ok(bytes),
            Reply::Bulk(mut items) => {
                if items.len() == 2 {
                    let value = items.pop();
                    let key = items.pop();
                    match (key, value) {
                        (Some(Reply::Data(_)), Some(Reply::Data(bytes))) => Ok(bytes),
                        _ => Err(JQError::RedisError(type_error("unexpected type"))),
                    }
                } else {
                    Err(JQError::RedisError(type_error("unexpected type")))
                }
            },
            _ => Err(JQError::RedisError(type_error("unexpected type"))),
        }
    }
}

/// What comes of a push once the broker has answered: nothing on success, and
/// on failure the broker's error as a [`JQError::RedisError`].
pub fn settle_push(sent: Result<(), redis::RedisError>) -> (outcome: Result<(), JQError>)
    ensures
        match sent {
            Ok(_) => outcome is Ok,
            Err(error) => outcome == Err::<(), JQError>(JQError::RedisError(error)),
        },
{
    match sent {
        Ok(_) => Ok(()),
        Err(error) => Err(JQError::from(error)),
    }
}

/// What comes of a pop once the broker has answered: the payload that the
/// answer carries. The broker's failure comes back as a
/// [`JQError::RedisError`], and so does an answer without payload, as by
/// [`Reply::into_payload`].
pub fn settle_pop(answer: Result<Reply, redis::RedisError>) -> (outcome: Result<Vec<u8>, JQError>)
    ensures
        match answer {
            Ok(reply) => match outcome {
                Ok(bytes) => reply.payload() == Some(bytes@),
                Err(error) => reply.payload() is None && error == JQError::RedisError(
                    type_error_of("unexpected type"@),
                ),
            },
            Err(error) => outcome == Err::<Vec<u8>, JQError>(JQError::RedisError(error)),
        },
{
    match answer {
        Ok(reply) => reply.into_payload(),
        Err(error) => Err(JQError::from(error)),
    }
}

/// What the broker answers to a pop carries what was pushed: the payload is
/// the second of the two strings, whatever the key before it.
pub proof fn pop_answer_carries_payload(key: Vec<u8>, payload: Vec<u8>, answer: Reply)
    requires
        answer matches Reply::Bulk(items) && items@ == seq![Reply::Data(key), Reply::Data(payload)],
    ensures
        answer.payload() == Some(payload@),
{
}

} // verus!

use rust_worker::models::JQError;
use rust_worker::transport::{
    settle_pop, settle_push, Direction, Operation, Queue, Reply, GLOBAL_QUEUE,
    JOB_REGISTER_QUEUE, RESULT_QUEUE, WORKER_REGISTER_QUEUE,
};

const QUEUES: [Queue; 4] = [Queue::WorkerRegister, Queue::JobRegister, Queue::Global, Queue::Results];

#[test]
fn queues_have_their_keys() {
    assert_eq!(Queue::WorkerRegister.name(), "jq:workerRegister");
    assert_eq!(Queue::JobRegister.name(), "jq:jobRegister");
    assert_eq!(Queue::Global.name(), "jq:globalQueue");
    assert_eq!(Queue::Results.name(), "jq:resultQueue");
    assert_eq!(WORKER_REGISTER_QUEUE, "jq:workerRegister");
    assert_eq!(JOB_REGISTER_QUEUE, "jq:jobRegister");
    assert_eq!(GLOBAL_QUEUE, "jq:globalQueue");
    assert_eq!(RESULT_QUEUE, "jq:resultQueue");
}

#[test]
fn no_two_queues_share_a_key() {
    for first in QUEUES {
        for second in QUEUES {
            assert_eq!(first.name() == second.name(), first == second);
        }
    }
}

#[test]
fn each_operation_has_its_queue() {
    assert_eq!(Operation::RegisterWorker.queue(), Queue::WorkerRegister);
    assert_eq!(Operation::EnqueueJob.queue(), Queue::JobRegister);
    assert_eq!(Operation::BlockingPopJob.queue(), Queue::Global);
    assert_eq!(Operation::ReportJobResult.queue(), Queue::Results);
}

#[test]
fn only_the_pop_takes_from_a_queue() {
    assert_eq!(Operation::RegisterWorker.direction(), Direction::Push);
    assert_eq!(Operation::EnqueueJob.direction(), Direction::Push);
    assert_eq!(Operation::BlockingPopJob.direction(), Direction::BlockingPop);
    assert_eq!(Operation::ReportJobResult.direction(), Direction::Push);
}

#[test]
fn a_string_of_bytes_is_its_own_payload() {
    assert_eq!(Reply::Data(vec![1, 2, 3]).into_payload().unwrap(), vec![1, 2, 3]);
    assert_eq!(Reply::Data(vec![]).into_payload().unwrap(), Vec::<u8>::new());
}

#[test]
fn the_answer_to_a_pop_carries_the_payload_after_the_key() {
    let answer = Reply::Bulk(vec![
        Reply::Data(GLOBAL_QUEUE.as_bytes().to_vec()),
        Reply::Data(vec![0x92, 0x01, 0x02]),
    ]);
    assert_eq!(answer.into_payload().unwrap(), vec![0x92, 0x01, 0x02]);
}

fn refused(reply: Reply) {
    match reply.into_payload() {
        Err(JQError::RedisError(error)) => {
            assert_eq!(error.kind(), redis::ErrorKind::TypeError);
            assert_eq!(error, redis::RedisError::from((redis::ErrorKind::TypeError, "unexpected type")));
            assert_eq!(error.detail(), None);
        }
        _ => panic!("an answer of this shape carries no payload"),
    }
}

#[test]
fn other_answers_are_refused_as_unexpected() {
    refused(Reply::Nil);
    refused(Reply::Other);
    refused(Reply::Bulk(vec![]));
    refused(Reply::Bulk(vec![Reply::Data(vec![1])]));
    refused(Reply::Bulk(vec![Reply::Data(vec![1]), Reply::Nil]));
    refused(Reply::Bulk(vec![Reply::Other, Reply::Data(vec![1])]));
    refused(Reply::Bulk(vec![Reply::Data(vec![1]), Reply::Bulk(vec![Reply::Data(vec![2])])]));
    refused(Reply::Bulk(vec![Reply::Data(vec![1]), Reply::Data(vec![2]), Reply::Data(vec![3])]));
}

fn broker_down() -> redis::RedisError {
    redis::RedisError::from((redis::ErrorKind::IoError, "connection refused"))
}

#[test]
fn a_push_that_went_through_is_settled() {
    assert!(settle_push(Ok(())).is_ok());
}

#[test]
fn a_push_that_failed_comes_back_as_the_brokers_error() {
    match settle_push(Err(broker_down())) {
        Err(JQError::RedisError(error)) => assert_eq!(error, broker_down()),
        _ => panic!("the broker's error has to come back"),
    }
}

#[test]
fn a_pop_is_settled_with_its_payload() {
    let answer = Reply::Bulk(vec![Reply::Data(b"jq:globalQueue".to_vec()), Reply::Data(vec![7, 8])]);
    assert_eq!(settle_pop(Ok(answer)).unwrap(), vec![7, 8]);
}

#[test]
fn a_pop_that_failed_comes_back_as_the_brokers_error() {
    match settle_pop(Err(broker_down())) {
        Err(JQError::RedisError(error)) => assert_eq!(error, broker_down()),
        _ => panic!("the broker's error has to come back"),
    }
    match settle_pop(Ok(Reply::Nil)) {
        Err(JQError::RedisError(error)) => assert_eq!(error.kind(), redis::ErrorKind::TypeError),
        _ => panic!("an answer without payload has to be refused"),
    }
}

use rust_worker::models::{
    decode_data, encode_data, FailureReason, FromValue, IntoJobResult, JQError, Job, JobRequest,
    JobResult, JobResultFailure, JobResultSuccess, Worker,
};
use rmpv::Value;

fn instant(seconds: i64) -> chrono::NaiveDateTime {
    chrono::DateTime::from_timestamp(seconds, 0).unwrap().naive_utc()
}

fn sample_request() -> JobRequest<String> {
    JobRequest::new("r1".to_string(), "echo".to_string(), "hi".to_string(), -2, 3, true, 5000)
}

#[test]
fn worker_record_keeps_its_fields() {
    let worker = Worker::new("w1".to_string(), "resizer".to_string(), 4);
    assert_eq!(worker.id(), "w1");
    assert_eq!(worker.name(), "resizer");
    assert_eq!(*worker.processes(), 4);
}

#[test]
fn job_request_keeps_its_fields() {
    let request = sample_request();
    assert_eq!(request.id(), "r1");
    assert_eq!(request.name(), "echo");
    assert_eq!(request.argument(), "hi");
    assert_eq!(*request.priority(), -2);
    assert_eq!(*request.max_retry(), 3);
    assert!(*request.keep_result());
    assert_eq!(*request.timeout(), 5000);
}

#[test]
fn a_request_is_well_formed_without_negative_bounds() {
    let request = |max_retry, timeout| {
        JobRequest::new("r".to_string(), "n".to_string(), (), 0, max_retry, false, timeout)
    };
    assert!(request(0, 0).is_well_formed());
    assert!(request(i32::MAX, i64::MAX).is_well_formed());
    assert!(sample_request().is_well_formed());
    assert!(!request(-1, 0).is_well_formed());
    assert!(!request(0, -1).is_well_formed());
    assert!(!request(i32::MIN, i64::MIN).is_well_formed());
    let negative_priority = JobRequest::new("r".to_string(), "n".to_string(), (), -5, 0, false, 0);
    assert!(negative_priority.is_well_formed());
}

#[test]
fn admission_keeps_the_request_and_stamps_it() {
    let job = Job::new(sample_request(), instant(1_700_000_000));
    assert_eq!(job.id(), "r1");
    assert_eq!(job.name(), "echo");
    assert_eq!(job.argument(), "hi");
    assert_eq!(*job.priority(), -2);
    assert_eq!(*job.max_retry(), 3);
    assert!(*job.keep_result());
    assert_eq!(*job.timeout(), 5000);
    assert_eq!(*job.registered_at(), instant(1_700_000_000));
}

#[test]
fn get_argument_hands_out_the_argument() {
    let job = Job::new(sample_request(), instant(0));
    assert_eq!(job.get_argument(), "hi");
}

#[test]
fn map_argument_changes_the_argument_only() {
    let job = Job::new(sample_request(), instant(1_700_000_000));
    let mapped = job.map_argument(|text| text.len());
    assert_eq!(*mapped.argument(), 2);
    assert_eq!(mapped.id(), "r1");
    assert_eq!(mapped.name(), "echo");
    assert_eq!(*mapped.priority(), -2);
    assert_eq!(*mapped.max_retry(), 3);
    assert!(*mapped.keep_result());
    assert_eq!(*mapped.timeout(), 5000);
    assert_eq!(*mapped.registered_at(), instant(1_700_000_000));
}

#[test]
fn map_argument_keeps_extreme_fields() {
    let request = JobRequest::new(String::new(), String::new(), 1u8, i32::MIN, i32::MAX, false, i64::MIN);
    let mapped = Job::new(request, instant(-1)).map_argument(|byte| vec![byte; 3]);
    assert_eq!(*mapped.argument(), vec![1u8, 1, 1]);
    assert_eq!(mapped.id(), "");
    assert_eq!(mapped.name(), "");
    assert_eq!(*mapped.priority(), i32::MIN);
    assert_eq!(*mapped.max_retry(), i32::MAX);
    assert!(!*mapped.keep_result());
    assert_eq!(*mapped.timeout(), i64::MIN);
    assert_eq!(*mapped.registered_at(), instant(-1));
}

#[test]
fn replace_argument_hands_out_the_old_one() {
    let job = Job::new(sample_request(), instant(7));
    let (old, replaced) = job.replace_argument(42u64);
    assert_eq!(old, "hi");
    assert_eq!(*replaced.argument(), 42);
    assert_eq!(replaced.id(), "r1");
    assert_eq!(replaced.name(), "echo");
    assert_eq!(*replaced.timeout(), 5000);
    assert_eq!(*replaced.registered_at(), instant(7));
}

#[test]
fn success_keeps_its_fields() {
    let success = JobResultSuccess::new("j1".to_string(), instant(9), Value::from(12));
    assert_eq!(success.id(), "j1");
    assert_eq!(*success.finished_at(), instant(9));
    assert_eq!(*success.result(), Value::from(12));
    let result = JobResult::Success(success);
    assert_eq!(result.id(), "j1");
    assert_eq!(*result.finished_at(), instant(9));
}

#[test]
fn failure_keeps_its_fields() {
    let failure = JobResultFailure::new(
        "j2".to_string(),
        instant(11),
        "took too long".to_string(),
        FailureReason::Timeout,
        true,
        Value::from("deadline"),
    );
    assert_eq!(failure.id(), "j2");
    assert_eq!(*failure.finished_at(), instant(11));
    assert_eq!(failure.message(), "took too long");
    assert_eq!(*failure.reason(), FailureReason::Timeout);
    assert!(*failure.should_retry());
    assert_eq!(*failure.error(), Value::from("deadline"));
    let result = JobResult::Failure(failure);
    assert_eq!(result.id(), "j2");
    assert_eq!(*result.finished_at(), instant(11));
}

#[test]
fn results_convert_into_job_results() {
    let success = JobResultSuccess::new("a".to_string(), instant(1), Value::Nil);
    assert!(matches!(success.into_job_result(), JobResult::Success(s) if s.id() == "a"));
    let failure = JobResultFailure::new(
        "b".to_string(),
        instant(2),
        String::new(),
        FailureReason::Other,
        false,
        Value::Nil,
    );
    assert!(matches!(failure.into_job_result(), JobResult::Failure(f) if f.id() == "b"));
    let whole = JobResult::Success(JobResultSuccess::new("c".to_string(), instant(3), Value::Nil));
    assert!(matches!(whole.into_job_result(), JobResult::Success(s) if s.id() == "c"));
}

#[test]
fn encode_data_writes_messagepack() {
    assert_eq!(encode_data(&Value::Nil).unwrap(), vec![0xc0]);
    assert_eq!(encode_data(&Value::from(true)).unwrap(), vec![0xc3]);
    assert_eq!(encode_data(&Value::from(1)).unwrap(), vec![0x01]);
    assert_eq!(encode_data(&Value::from(-1)).unwrap(), vec![0xff]);
    assert_eq!(encode_data(&Value::from("a")).unwrap(), vec![0xa1, 0x61]);
    assert_eq!(
        encode_data(&Value::Array(vec![Value::from(1), Value::from(2)])).unwrap(),
        vec![0x92, 0x01, 0x02]
    );
    assert_eq!(
        encode_data(&Value::Map(vec![(Value::from("a"), Value::from("x"))])).unwrap(),
        vec![0x81, 0xa1, 0x61, 0xa1, 0x78]
    );
}

#[test]
fn decode_data_reads_messagepack() {
    assert_eq!(decode_data(&[0xc0]).unwrap(), Value::Nil);
    assert_eq!(decode_data(&[0xc2]).unwrap(), Value::from(false));
    assert_eq!(decode_data(&[0x2a]).unwrap(), Value::from(42));
    assert_eq!(decode_data(&[0xa2, 0x68, 0x69]).unwrap(), Value::from("hi"));
    assert_eq!(
        decode_data(&[0x81, 0xa3, 0x6d, 0x73, 0x67, 0xa2, 0x68, 0x69]).unwrap(),
        Value::Map(vec![(Value::from("msg"), Value::from("hi"))])
    );
}

#[test]
fn decode_data_refuses_broken_bytes() {
    assert!(matches!(decode_data(&[]), Err(JQError::DeserializationError(_))));
    assert!(matches!(decode_data(&[0xa2, 0x68]), Err(JQError::DeserializationError(_))));
    assert!(matches!(decode_data(&[0x92, 0x01]), Err(JQError::DeserializationError(_))));
    assert!(matches!(decode_data(&[0xc1]), Err(JQError::DeserializationError(_))));
}

#[test]
fn decode_data_reads_the_first_value_only() {
    assert_eq!(decode_data(&[0xc0, 0x01]).unwrap(), Value::Nil);
}

#[test]
fn decode_data_refuses_what_is_nested_too_deep() {
    let mut value = Value::Nil;
    for _ in 0..1100 {
        value = Value::Array(vec![value]);
    }
    let bytes = encode_data(&value).unwrap();
    assert_eq!(bytes.len(), 1101);
    assert!(matches!(decode_data(&bytes), Err(JQError::DeserializationError(_))));
}

fn round_trip(value: Value) {
    let bytes = encode_data(&value).unwrap();
    assert_eq!(decode_data(&bytes).unwrap(), value);
}

#[test]
fn decode_undoes_encode() {
    round_trip(Value::Nil);
    round_trip(Value::from(true));
    round_trip(Value::from(0));
    round_trip(Value::from(i64::MIN));
    round_trip(Value::from(u64::MAX));
    round_trip(Value::from(1.5f64));
    round_trip(Value::from(""));
    round_trip(Value::from("héllo"));
    round_trip(Value::Binary(vec![0, 255, 7]));
    round_trip(Value::Array(vec![]));
    round_trip(Value::Array(vec![Value::Nil, Value::from(1), Value::from("two")]));
    round_trip(Value::Map(vec![
        (Value::from("msg"), Value::from("hi")),
        (Value::from("nested"), Value::Map(vec![(Value::from(1), Value::Array(vec![Value::from(false)]))])),
    ]));
}

#[test]
fn errors_wrap_what_went_wrong_underneath() {
    let encode = JQError::from(rmp_serde::encode::Error::Syntax("no".to_string()));
    assert!(matches!(encode, JQError::SerializationError(_)));
    assert_eq!(encode.message(), "Failed to encode data: no");
    let decode = JQError::from(rmp_serde::decode::Error::Syntax("bad".to_string()));
    assert!(matches!(decode, JQError::DeserializationError(_)));
    assert_eq!(decode.message(), format!("Failed to decode data: {}", rmp_serde::decode::Error::Syntax("bad".to_string())));
    let broker = JQError::from(redis::RedisError::from((redis::ErrorKind::IoError, "gone")));
    assert!(matches!(broker, JQError::RedisError(_)));
    assert_eq!(
        broker.message(),
        format!("Redis error: {}", redis::RedisError::from((redis::ErrorKind::IoError, "gone")))
    );
}

#[test]
fn decode_error_is_put_in_words() {
    let error = decode_data(&[]).unwrap_err();
    assert!(error.message().starts_with("Failed to decode data: "));
    assert!(error.message().len() > "Failed to decode data: ".len());
}

#[test]
fn value_is_its_own_typed_form() {
    let value = Value::Array(vec![Value::from(1), Value::from("x")]);
    assert_eq!(Value::from_value(value.clone()).unwrap(), value);
}

#[test]
fn scalars_are_recovered_from_values() {
    assert_eq!(String::from_value(Value::from("x")).unwrap(), "x");
    assert_eq!(i64::from_value(Value::from(-5)).unwrap(), -5);
    assert!(bool::from_value(Value::from(true)).unwrap());
}

#[test]
fn scalars_refuse_values_of_another_shape() {
    assert!(String::from_value(Value::from(1)).is_err());
    assert!(i64::from_value(Value::from("1")).is_err());
    assert!(i64::from_value(Value::from(u64::MAX)).is_err());
    assert!(bool::from_value(Value::Nil).is_err());
}

#[test]
fn a_value_converts_the_same_way_each_time() {
    let text = Value::from("twice");
    assert_eq!(String::from_value(text.clone()).unwrap(), String::from_value(text).unwrap());
    let misfit = Value::Array(vec![Value::from(1)]);
    assert_eq!(
        i64::from_value(misfit.clone()).unwrap_err().to_string(),
        i64::from_value(misfit.clone()).unwrap_err().to_string()
    );
    assert_eq!(
        bool::from_value(misfit.clone()).unwrap_err().to_string(),
        bool::from_value(misfit).unwrap_err().to_string()
    );
    assert_eq!(i64::from_value(Value::from(i64::MIN)).unwrap(), i64::MIN);
    assert_eq!(i64::from_value(Value::from(i64::MAX)).unwrap(), i64::MAX);
    assert!(!bool::from_value(Value::from(false)).unwrap());
    assert_eq!(String::from_value(Value::from("")).unwrap(), "");
}

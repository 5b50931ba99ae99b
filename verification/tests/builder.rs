use chrono::Duration;
use rust_worker::models::{JobRequestBuilder, JobRequestBuilderDefault};
use rust_worker::pusher::{Pusher, PusherOptions};

struct Patient;

impl JobRequestBuilderDefault for Patient {
    fn default_timeout(&self) -> Duration {
        Duration::minutes(10)
    }

    fn default_max_retry(&self) -> i32 {
        25
    }
}

fn pusher() -> Pusher {
    Pusher::new(PusherOptions::new(Duration::seconds(30), 3))
}

#[test]
fn build_takes_the_defaults_of_the_policy() {
    let pusher = pusher();
    let mut builder = JobRequestBuilder::new(&pusher);
    builder.id("r1").name("echo").argument("hi");
    let request = builder.build();
    assert_eq!(request.id(), "r1");
    assert_eq!(request.name(), "echo");
    assert_eq!(*request.argument(), "hi");
    assert_eq!(*request.priority(), 0);
    assert_eq!(*request.max_retry(), 3);
    assert!(!*request.keep_result());
    assert_eq!(*request.timeout(), 30_000);
}

#[test]
fn build_takes_the_defaults_of_another_policy() {
    let mut builder = JobRequestBuilder::new(&Patient);
    builder.id("r2").name("slow").argument(7u8);
    let request = builder.build();
    assert_eq!(*request.priority(), 0);
    assert_eq!(*request.max_retry(), 25);
    assert!(!*request.keep_result());
    assert_eq!(*request.timeout(), 600_000);
}

#[test]
fn a_borrowed_pusher_is_a_policy_too() {
    let pusher = pusher();
    let borrowed = &pusher;
    let mut builder = JobRequestBuilder::new(&borrowed);
    builder.id("r3").name("echo").argument(());
    let request = builder.build();
    assert_eq!(*request.max_retry(), 3);
    assert_eq!(*request.timeout(), 30_000);
}

#[test]
fn pusher_offers_its_options() {
    let pusher = Pusher::new(PusherOptions::new(Duration::milliseconds(1), -4));
    assert_eq!(pusher.default_timeout(), Duration::milliseconds(1));
    assert_eq!(pusher.default_max_retry(), -4);
    assert_eq!((&pusher).default_timeout(), Duration::milliseconds(1));
    assert_eq!((&pusher).default_max_retry(), -4);
}

#[test]
fn build_prefers_what_was_set() {
    let pusher = pusher();
    let mut builder = JobRequestBuilder::new(&pusher);
    builder
        .id("r4")
        .name("resize")
        .argument(vec![1, 2, 3])
        .priority(-9)
        .max_retry(0)
        .keep_result(true)
        .timeout(Duration::milliseconds(1500));
    let request = builder.build();
    assert_eq!(request.id(), "r4");
    assert_eq!(request.name(), "resize");
    assert_eq!(*request.argument(), vec![1, 2, 3]);
    assert_eq!(*request.priority(), -9);
    assert_eq!(*request.max_retry(), 0);
    assert!(*request.keep_result());
    assert_eq!(*request.timeout(), 1500);
}

#[test]
fn the_last_value_set_counts() {
    let pusher = pusher();
    let mut builder = JobRequestBuilder::new(&pusher);
    builder.id("first").name("n").argument(1);
    builder.id("second").argument(2).keep_result(true).keep_result(false);
    let request = builder.build();
    assert_eq!(request.id(), "second");
    assert_eq!(*request.argument(), 2);
    assert!(!*request.keep_result());
}

#[test]
fn timeout_is_counted_in_whole_milliseconds() {
    let pusher = pusher();
    let mut builder = JobRequestBuilder::new(&pusher);
    builder.id("r5").name("n").argument(()).timeout(Duration::microseconds(1_999));
    assert_eq!(*builder.build().timeout(), 1);

    let mut builder = JobRequestBuilder::new(&pusher);
    builder.id("r6").name("n").argument(()).timeout(Duration::zero());
    assert_eq!(*builder.build().timeout(), 0);

    let mut builder = JobRequestBuilder::new(&pusher);
    builder.id("r7").name("n").argument(()).timeout(Duration::seconds(-2));
    assert_eq!(*builder.build().timeout(), -2000);

    let mut builder = JobRequestBuilder::new(&pusher);
    builder.id("r8").name("n").argument(()).timeout(Duration::MAX);
    assert_eq!(*builder.build().timeout(), i64::MAX);
}

#[test]
fn a_builder_is_complete_with_id_name_and_argument() {
    let pusher = pusher();
    let mut builder = JobRequestBuilder::<Pusher, u8>::new(&pusher);
    assert!(!builder.is_complete());
    builder.id("r9");
    assert!(!builder.is_complete());
    builder.name("n");
    assert!(!builder.is_complete());
    builder.argument(1);
    assert!(builder.is_complete());
}

#[test]
fn a_builder_without_id_is_not_complete() {
    let pusher = pusher();
    let mut builder = JobRequestBuilder::new(&pusher);
    builder.name("n").argument(1).priority(1).max_retry(1).keep_result(true).timeout(Duration::seconds(1));
    assert!(!builder.is_complete());
}

#[test]
fn a_builder_without_name_is_not_complete() {
    let pusher = pusher();
    let mut builder = JobRequestBuilder::new(&pusher);
    builder.id("r").argument(1);
    assert!(!builder.is_complete());
}

#[test]
fn a_builder_without_argument_is_not_complete() {
    let pusher = pusher();
    let mut builder = JobRequestBuilder::<Pusher, u8>::new(&pusher);
    builder.id("r").name("n");
    assert!(!builder.is_complete());
}

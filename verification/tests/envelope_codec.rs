use jetstream_model::config::ConsumerConfig;
use jetstream_model::envelope::{
    CreateConsumerRequest, NextRequest, PubOpts, StreamRequest, SubOpts,
};
use jetstream_model::error::DecodeError;
use jetstream_model::time::DateTime;
use jetstream_model::wire::{Doc, Entry};

#[test]
fn create_consumer_request_round_trip() {
    let req = CreateConsumerRequest {
        stream_name: "orders".to_string(),
        config: ConsumerConfig::from("worker-1"),
    };
    assert_eq!(CreateConsumerRequest::decode(&req.encode()), Ok(req));
}

#[test]
fn next_request_round_trip() {
    let req = NextRequest {
        expires: DateTime { secs: 1700000000, nanos: 1_000_000 },
        batch: Some(10),
        no_wait: Some(false),
    };
    assert_eq!(NextRequest::decode(&req.encode()), Ok(req));
    let bare = NextRequest {
        expires: DateTime { secs: 1700000000, nanos: 0 },
        batch: None,
        no_wait: None,
    };
    let d = bare.encode();
    assert!(d.get("batch").is_none());
    assert!(d.get("no_wait").is_none());
    assert_eq!(NextRequest::decode(&d), Ok(bare));
}

#[test]
fn next_request_expires_is_required() {
    let d = Doc::new();
    assert_eq!(NextRequest::decode(&d), Err(DecodeError::MissingRequiredField("expires")));
}

#[test]
fn stream_request_round_trip() {
    let some = StreamRequest { subject: Some("orders.paid".to_string()) };
    assert_eq!(StreamRequest::decode(&some.encode()), Ok(some));
    let none = StreamRequest { subject: None };
    let d = none.encode();
    assert!(d.get("subject").is_none());
    assert_eq!(StreamRequest::decode(&d), Ok(none));
}

#[test]
fn sub_opts_round_trip() {
    let o = SubOpts {
        stream: "orders".to_string(),
        consumer: "worker-1".to_string(),
        pull: 0,
        mack: true,
        cfg: ConsumerConfig::from("worker-1"),
    };
    assert_eq!(SubOpts::decode(&o.encode()), Ok(o));
}

#[test]
fn pub_opts_round_trip_and_str_key() {
    let o = PubOpts {
        ttl: 5_000_000_000,
        id: "msg-1".to_string(),
        lid: "msg-0".to_string(),
        stream: "orders".to_string(),
        seq: 443,
    };
    let d = o.encode();
    match d.get("str") {
        Some(Entry::Str(s)) => assert_eq!(s, "orders"),
        other => panic!("the expected-stream entry has the wrong shape: {:?}", other),
    }
    assert!(d.get("stream").is_none());
    assert_eq!(PubOpts::decode(&d), Ok(o));
}

#[test]
fn sub_opts_malformed_boolean() {
    let mut d = Doc::new();
    d.put("stream", Entry::Str("orders".to_string()));
    d.put("consumer", Entry::Str("w".to_string()));
    d.put("mack", Entry::Str("yes".to_string()));
    d.put("cfg", Entry::Obj(ConsumerConfig::default().encode()));
    assert_eq!(SubOpts::decode(&d), Err(DecodeError::MalformedField("mack", "expected a boolean")));
}

use jetstream_model::config::{ConsumerConfig, StreamConfig};
use jetstream_model::error::DecodeError;
use jetstream_model::policy::{
    AckPolicy, DeliverPolicy, DiscardPolicy, ReplayPolicy, RetentionPolicy, StorageType,
};
use jetstream_model::time::DateTime;
use jetstream_model::wire::{Doc, Entry};

#[test]
fn consumer_config_round_trip_full() {
    let c = ConsumerConfig {
        durable_name: Some("worker-1".to_string()),
        deliver_subject: Some("deliver.worker".to_string()),
        deliver_policy: DeliverPolicy::DeliverByStartTimePolicy,
        opt_start_seq: Some(42),
        opt_start_time: Some(DateTime { secs: 1609459200, nanos: 123_456_789 }),
        ack_policy: AckPolicy::AckAll,
        ack_wait: Some(30_000_000_000),
        max_deliver: Some(5),
        filter_subject: Some("orders.eu.>".to_string()),
        replay_policy: ReplayPolicy::ReplayOriginal,
        rate_limit: Some(1_048_576),
        sample_frequency: Some("30%".to_string()),
        max_waiting: Some(128),
        max_ack_pending: Some(1000),
    };
    let d = c.encode();
    assert_eq!(ConsumerConfig::decode(&d), Ok(c));
}

#[test]
fn consumer_config_round_trip_default() {
    let c = ConsumerConfig::default();
    let d = c.encode();
    assert_eq!(ConsumerConfig::decode(&d), Ok(c));
}

#[test]
fn consumer_config_absent_optionals_have_no_keys() {
    let d = ConsumerConfig::default().encode();
    assert!(d.get("durable_name").is_none());
    assert!(d.get("deliver_subject").is_none());
    assert!(d.get("opt_start_seq").is_none());
    assert!(d.get("opt_start_time").is_none());
    assert!(d.get("ack_wait").is_none());
    assert!(d.get("max_deliver").is_none());
    assert!(d.get("filter_subject").is_none());
    assert!(d.get("rate_limit").is_none());
    assert!(d.get("sample_frequency").is_none());
    assert!(d.get("max_waiting").is_none());
    assert!(d.get("max_ack_pending").is_none());
    assert!(d.get("deliver_policy").is_some());
    assert!(d.get("ack_policy").is_some());
    assert!(d.get("replay_policy").is_some());
}

#[test]
fn stream_config_round_trip_full() {
    let c = StreamConfig {
        subjects: Some(vec!["orders.new".to_string(), "orders.paid".to_string()]),
        name: "orders".to_string(),
        retention: RetentionPolicy::InterestPolicy,
        max_consumers: 16,
        max_msgs: 1_000_000,
        max_bytes: 64 * 1024 * 1024,
        discard: DiscardPolicy::DiscardNew,
        max_age: 3_600_000_000_000,
        max_msg_size: Some(65536),
        storage: StorageType::MemoryStorage,
        num_replicas: 3,
        no_ack: Some(true),
        template_owner: Some("templ".to_string()),
        duplicate_window: Some(120_000_000_000),
    };
    let d = c.encode();
    assert_eq!(StreamConfig::decode(&d), Ok(c));
}

#[test]
fn stream_config_absent_optionals_have_no_keys() {
    let c = StreamConfig::from("orders");
    let d = c.encode();
    assert!(d.get("subjects").is_none());
    assert!(d.get("max_msg_size").is_none());
    assert!(d.get("no_ack").is_none());
    assert!(d.get("template_owner").is_none());
    assert!(d.get("duplicate_window").is_none());
    assert!(d.get("name").is_some());
    let back = StreamConfig::decode(&d).unwrap();
    assert_eq!(back, c);
}

#[test]
fn stream_config_scenario_workqueue_jobs() {
    let mut d = Doc::new();
    d.put("retention", Entry::Str("workqueue".to_string()));
    d.put("name", Entry::Str("jobs".to_string()));
    let c = StreamConfig::decode(&d).unwrap();
    assert_eq!(c.name, "jobs");
    assert_eq!(c.retention, RetentionPolicy::WorkQueuePolicy);
    assert_eq!(c.storage, StorageType::FileStorage);
    assert_eq!(c.discard, DiscardPolicy::DiscardOld);
    assert!(c.subjects.is_none());
    assert_eq!(c.max_msgs, 0);
}

#[test]
fn consumer_config_scenario_bogus_ack_policy() {
    let mut d = Doc::new();
    d.put("ack_policy", Entry::Str("bogus".to_string()));
    let r = ConsumerConfig::decode(&d);
    assert_eq!(r, Err(DecodeError::UnknownVariant("AckPolicy", "bogus".to_string())));
}

#[test]
fn unknown_fields_are_ignored() {
    let mut d = Doc::new();
    d.put("name", Entry::Str("jobs".to_string()));
    d.put("an_addition_of_tomorrow", Entry::Bool(true));
    d.put("another", Entry::Num(7));
    let c = StreamConfig::decode(&d).unwrap();
    assert_eq!(c.name, "jobs");
}

#[test]
fn stream_config_missing_name_is_required() {
    let d = Doc::new();
    assert_eq!(StreamConfig::decode(&d), Err(DecodeError::MissingRequiredField("name")));
}

#[test]
fn stream_config_empty_name_is_refused() {
    let mut d = Doc::new();
    d.put("name", Entry::Str(String::new()));
    assert_eq!(
        StreamConfig::decode(&d),
        Err(DecodeError::MalformedField("name", "expected non-empty text"))
    );
}

#[test]
fn stream_config_malformed_number() {
    let mut d = Doc::new();
    d.put("name", Entry::Str("jobs".to_string()));
    d.put("max_msgs", Entry::Bool(true));
    assert_eq!(
        StreamConfig::decode(&d),
        Err(DecodeError::MalformedField("max_msgs", "expected an integer"))
    );
}

#[test]
fn stream_config_out_of_range_number_is_malformed() {
    let mut d = Doc::new();
    d.put("name", Entry::Str("jobs".to_string()));
    d.put("num_replicas", Entry::Num(-1));
    assert_eq!(
        StreamConfig::decode(&d),
        Err(DecodeError::MalformedField("num_replicas", "expected an unsigned integer"))
    );
}

#[test]
fn consumer_config_time_parse_error() {
    let mut d = Doc::new();
    d.put("opt_start_time", Entry::Str("not an instant".to_string()));
    assert_eq!(ConsumerConfig::decode(&d), Err(DecodeError::TimeParseError));
}

#[test]
fn consumer_config_time_wrong_shape() {
    let mut d = Doc::new();
    d.put("opt_start_time", Entry::Num(1609459200));
    assert_eq!(
        ConsumerConfig::decode(&d),
        Err(DecodeError::MalformedField("opt_start_time", "expected RFC 3339 text"))
    );
}

#[test]
fn consumer_config_time_survives_to_millisecond_and_beyond() {
    let mut c = ConsumerConfig::from("sub-ms");
    c.opt_start_time = Some(DateTime { secs: 1234567890, nanos: 987_000_000 });
    let back = ConsumerConfig::decode(&c.encode()).unwrap();
    assert_eq!(back.opt_start_time, Some(DateTime { secs: 1234567890, nanos: 987_000_000 }));
}

#[test]
fn consumer_config_policies_travel_as_tags() {
    let mut c = ConsumerConfig::default();
    c.deliver_policy = DeliverPolicy::DeliverByStartSequencePolicy;
    c.opt_start_seq = Some(7);
    let d = c.encode();
    match d.get("deliver_policy") {
        Some(Entry::Str(t)) => assert_eq!(t, "by_start_sequence"),
        other => panic!("deliver_policy entry has the wrong shape: {:?}", other),
    }
}

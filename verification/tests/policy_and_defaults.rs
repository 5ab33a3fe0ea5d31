use jetstream_model::policy::{
    AckPolicy, DeliverPolicy, DiscardPolicy, ReplayPolicy, RetentionPolicy, StorageType,
};
use jetstream_model::time::DateTime;
use jetstream_model::config::{ConsumerConfig, StreamConfig};

#[test]
fn deliver_policy_tags_round_trip() {
    let variants = [
        DeliverPolicy::DeliverAllPolicy,
        DeliverPolicy::DeliverLastPolicy,
        DeliverPolicy::DeliverNewPolicy,
        DeliverPolicy::DeliverByStartSequencePolicy,
        DeliverPolicy::DeliverByStartTimePolicy,
    ];
    let tags = ["all", "last", "new", "by_start_sequence", "by_start_time"];
    for (v, t) in variants.iter().zip(tags.iter()) {
        assert_eq!(v.wire_tag(), *t);
        assert_eq!(DeliverPolicy::from_wire_tag(t), Some(*v));
    }
    assert_eq!(DeliverPolicy::from_wire_tag("bogus"), None);
}

#[test]
fn ack_policy_tags_round_trip() {
    let variants = [AckPolicy::AckNone, AckPolicy::AckAll, AckPolicy::AckExplicit];
    let tags = ["none", "all", "explicit"];
    for (v, t) in variants.iter().zip(tags.iter()) {
        assert_eq!(v.wire_tag(), *t);
        assert_eq!(AckPolicy::from_wire_tag(t), Some(*v));
    }
    assert_eq!(AckPolicy::from_wire_tag(""), None);
    assert_eq!(AckPolicy::from_wire_tag("Explicit"), None);
}

#[test]
fn replay_policy_tags_round_trip() {
    assert_eq!(ReplayPolicy::ReplayInstant.wire_tag(), "instant");
    assert_eq!(ReplayPolicy::ReplayOriginal.wire_tag(), "original");
    assert_eq!(ReplayPolicy::from_wire_tag("instant"), Some(ReplayPolicy::ReplayInstant));
    assert_eq!(ReplayPolicy::from_wire_tag("original"), Some(ReplayPolicy::ReplayOriginal));
    assert_eq!(ReplayPolicy::from_wire_tag("later"), None);
}

#[test]
fn retention_policy_tags_round_trip() {
    assert_eq!(RetentionPolicy::LimitsPolicy.wire_tag(), "limits");
    assert_eq!(RetentionPolicy::InterestPolicy.wire_tag(), "interest");
    assert_eq!(RetentionPolicy::WorkQueuePolicy.wire_tag(), "workqueue");
    assert_eq!(RetentionPolicy::from_wire_tag("limits"), Some(RetentionPolicy::LimitsPolicy));
    assert_eq!(RetentionPolicy::from_wire_tag("interest"), Some(RetentionPolicy::InterestPolicy));
    assert_eq!(RetentionPolicy::from_wire_tag("workqueue"), Some(RetentionPolicy::WorkQueuePolicy));
    assert_eq!(RetentionPolicy::from_wire_tag("work_queue"), None);
}

#[test]
fn discard_policy_tags_round_trip() {
    assert_eq!(DiscardPolicy::DiscardOld.wire_tag(), "old");
    assert_eq!(DiscardPolicy::DiscardNew.wire_tag(), "new");
    assert_eq!(DiscardPolicy::from_wire_tag("old"), Some(DiscardPolicy::DiscardOld));
    assert_eq!(DiscardPolicy::from_wire_tag("new"), Some(DiscardPolicy::DiscardNew));
    assert_eq!(DiscardPolicy::from_wire_tag("both"), None);
}

#[test]
fn storage_type_tags_round_trip() {
    assert_eq!(StorageType::FileStorage.wire_tag(), "file");
    assert_eq!(StorageType::MemoryStorage.wire_tag(), "memory");
    assert_eq!(StorageType::from_wire_tag("file"), Some(StorageType::FileStorage));
    assert_eq!(StorageType::from_wire_tag("memory"), Some(StorageType::MemoryStorage));
    assert_eq!(StorageType::from_wire_tag("disk"), None);
}

#[test]
fn policy_defaults() {
    assert_eq!(DeliverPolicy::default(), DeliverPolicy::DeliverAllPolicy);
    assert_eq!(AckPolicy::default(), AckPolicy::AckExplicit);
    assert_eq!(ReplayPolicy::default(), ReplayPolicy::ReplayInstant);
    assert_eq!(RetentionPolicy::default(), RetentionPolicy::LimitsPolicy);
    assert_eq!(DiscardPolicy::default(), DiscardPolicy::DiscardOld);
    assert_eq!(StorageType::default(), StorageType::FileStorage);
}

#[test]
fn date_time_default_is_epoch() {
    let t = DateTime::default();
    assert_eq!(t.secs, 0);
    assert_eq!(t.nanos, 0);
}

#[test]
fn consumer_config_default_instantiation() {
    let c = ConsumerConfig::default();
    assert_eq!(c.ack_policy, AckPolicy::AckExplicit);
    assert_eq!(c.deliver_policy, DeliverPolicy::DeliverAllPolicy);
    assert_eq!(c.replay_policy, ReplayPolicy::ReplayInstant);
    assert!(c.durable_name.is_none());
    assert!(c.deliver_subject.is_none());
    assert!(c.opt_start_seq.is_none());
    assert!(c.opt_start_time.is_none());
    assert!(c.ack_wait.is_none());
    assert!(c.max_deliver.is_none());
    assert!(c.filter_subject.is_none());
    assert!(c.rate_limit.is_none());
    assert!(c.sample_frequency.is_none());
    assert!(c.max_waiting.is_none());
    assert!(c.max_ack_pending.is_none());
}

#[test]
fn stream_config_default_instantiation() {
    let c = StreamConfig::default();
    assert_eq!(c.name, "");
    assert!(c.subjects.is_none());
    assert_eq!(c.retention, RetentionPolicy::LimitsPolicy);
    assert_eq!(c.discard, DiscardPolicy::DiscardOld);
    assert_eq!(c.storage, StorageType::FileStorage);
    assert_eq!(c.max_consumers, 0);
    assert_eq!(c.max_msgs, 0);
    assert_eq!(c.max_bytes, 0);
    assert_eq!(c.max_age, 0);
    assert_eq!(c.num_replicas, 0);
    assert!(c.max_msg_size.is_none());
    assert!(c.no_ack.is_none());
    assert!(c.template_owner.is_none());
    assert!(c.duplicate_window.is_none());
}

#[test]
fn stream_config_from_name() {
    let c = StreamConfig::from("orders");
    assert_eq!(c.name, "orders");
    assert!(c.subjects.is_none());
    let d = StreamConfig::default();
    assert_eq!(c.retention, d.retention);
    assert_eq!(c.discard, d.discard);
    assert_eq!(c.storage, d.storage);
    assert_eq!(c.max_msgs, d.max_msgs);
    assert!(c.duplicate_window.is_none());
}

#[test]
fn consumer_config_from_name() {
    let c = ConsumerConfig::from("worker-1");
    assert_eq!(c.durable_name.as_deref(), Some("worker-1"));
    assert!(c.deliver_subject.is_none());
    assert_eq!(c.ack_policy, AckPolicy::AckExplicit);
    assert_eq!(c.deliver_policy, DeliverPolicy::DeliverAllPolicy);
    assert_eq!(c.replay_policy, ReplayPolicy::ReplayInstant);
    assert!(c.opt_start_seq.is_none());
    assert!(c.opt_start_time.is_none());
}

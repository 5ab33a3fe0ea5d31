use jetstream_model::config::{ConsumerConfig, StreamConfig};
use jetstream_model::error::DecodeError;
use jetstream_model::status::{
    AccountInfo, AccountLimits, AccountStats, ApiStats, ClusterInfo, ConsumerInfo, PubAck,
    SequencePair, StreamInfo, StreamState,
};
use jetstream_model::time::DateTime;
use jetstream_model::wire::{Doc, Entry};

fn sample_stream_state() -> StreamState {
    StreamState {
        msgs: 120,
        bytes: 40960,
        first_seq: 11,
        first_ts: "2021-01-01T00:00:00Z".to_string(),
        last_seq: 130,
        last_ts: DateTime { secs: 1612137600, nanos: 250_000_000 },
        consumer_count: 4,
    }
}

#[test]
fn stream_state_round_trip() {
    let s = sample_stream_state();
    assert_eq!(StreamState::decode(&s.encode()), Ok(s));
}

#[test]
fn stream_info_round_trip() {
    let info = StreamInfo {
        kind: "io.nats.jetstream.api.v1.stream_info_response".to_string(),
        config: StreamConfig::from("orders"),
        created: DateTime { secs: 1610000000, nanos: 0 },
        state: sample_stream_state(),
    };
    let back = StreamInfo::decode(&info.encode()).unwrap();
    assert_eq!(back, info);
}

#[test]
fn stream_info_requires_config() {
    let mut d = Doc::new();
    d.put("type", Entry::Str("t".to_string()));
    assert_eq!(StreamInfo::decode(&d), Err(DecodeError::MissingRequiredField("config")));
}

#[test]
fn stream_info_inner_error_surfaces() {
    let mut d = Doc::new();
    d.put("type", Entry::Str("t".to_string()));
    d.put("config", Entry::Obj(Doc::new()));
    assert_eq!(StreamInfo::decode(&d), Err(DecodeError::MissingRequiredField("name")));
}

#[test]
fn pub_ack_round_trip() {
    let a = PubAck { stream: "orders".to_string(), seq: 443, duplicate: Some(true) };
    assert_eq!(PubAck::decode(&a.encode()), Ok(a));
    let b = PubAck { stream: "orders".to_string(), seq: 444, duplicate: None };
    let d = b.encode();
    assert!(d.get("duplicate").is_none());
    assert_eq!(PubAck::decode(&d), Ok(b));
}

#[test]
fn sequence_pair_round_trip() {
    let p = SequencePair { consumer_seq: 10, stream_seq: 20 };
    assert_eq!(SequencePair::decode(&p.encode()), Ok(p));
}

#[test]
fn account_records_round_trip() {
    let limits = AccountLimits { max_memory: -1, max_storage: 1 << 40, max_streams: 10, max_consumers: 100 };
    let stats = AccountStats { memory: 1024, storage: 2048, streams: 3, limits };
    assert_eq!(AccountStats::decode(&stats.encode()), Ok(stats));
    let info = AccountInfo {
        kind: "io.nats.jetstream.api.v1.account_info_response".to_string(),
        memory: 1024,
        storage: 2048,
        streams: 3,
        consumers: 9,
        api: ApiStats { total: 77, errors: 2 },
        limits,
    };
    assert_eq!(AccountInfo::decode(&info.encode()), Ok(info));
}

fn sample_consumer_info() -> ConsumerInfo {
    ConsumerInfo {
        kind: "io.nats.jetstream.api.v1.consumer_info_response".to_string(),
        stream_name: "orders".to_string(),
        name: "worker-1".to_string(),
        created: DateTime { secs: 1610000000, nanos: 500_000_000 },
        config: ConsumerConfig::from("worker-1"),
        delivered: SequencePair { consumer_seq: 50, stream_seq: 70 },
        ack_floor: SequencePair { consumer_seq: 48, stream_seq: 66 },
        num_ack_pending: 2,
        num_redelivered: 1,
        num_waiting: 0,
        num_pending: 20,
        cluster: ClusterInfo { leader: "n1".to_string() },
    }
}

#[test]
fn consumer_info_round_trip() {
    let info = sample_consumer_info();
    assert_eq!(ConsumerInfo::decode(&info.encode()), Ok(info));
}

#[test]
fn consumer_info_snapshot_ordering_fixture() {
    let info = sample_consumer_info();
    assert!(info.is_snapshot_consistent());
    let mut stale = sample_consumer_info();
    stale.ack_floor = SequencePair { consumer_seq: 51, stream_seq: 66 };
    assert!(!stale.is_snapshot_consistent());
}

#[test]
fn consumer_info_missing_counters_default_to_zero() {
    let info = sample_consumer_info();
    let mut d = info.encode();
    let mut trimmed = Doc::new();
    for (k, e) in d.entries.drain(..) {
        if k != "num_pending" && k != "num_waiting" {
            trimmed.entries.push((k, e));
        }
    }
    let back = ConsumerInfo::decode(&trimmed).unwrap();
    assert_eq!(back.num_pending, 0);
    assert_eq!(back.num_waiting, 0);
    assert_eq!(back.delivered, info.delivered);
}

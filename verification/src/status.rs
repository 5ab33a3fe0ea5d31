//! Status records: immutable, broker-authored snapshots. Each embeds the
//! configuration it reports on, unchanged, plus live counters and a creation
//! timestamp. This layer never corrects an inconsistent snapshot; it only
//! carries what the broker said.

use vstd::prelude::*;
use crate::config::{ConsumerConfig, StreamConfig};
use crate::error::DecodeError;
use crate::time::{get_time, is_time_entry, put_time, sget_time, DateTime, TimeFieldError};
use crate::wire::{lookup, sget_bool, sget_num, sget_obj, sget_str, Doc, Entry};

verus! {

broadcast use crate::wire::lemma_lookup_push;

/// A paired position marker: the consumer-local and stream-global
/// sequence numbers of one delivery or acknowledgment point.
#[derive(Debug, Clone, PartialEq, Copy)]
pub struct SequencePair {
    /// Position in the consumer's own delivery sequence.
    pub consumer_seq: u64,
    /// Position in the stream's global sequence.
    pub stream_seq: u64,
}

impl SequencePair {
    /// Every field at its zero, empty, unset, or inner-default value.
    pub open spec fn is_default(c: SequencePair) -> bool {
        &&& c.consumer_seq == 0
        &&& c.stream_seq == 0
    }

    /// The keys of the sequence-pair schema.
    pub open spec fn wire_key(k: Seq<char>) -> bool {
        k == "consumer_seq"@ || k == "stream_seq"@
    }

    /// The document `d` is a faithful wire form of `self`: every schema field
    /// reads back exactly, and every unset optional field has no key at all.
    pub open spec fn encodes(self, d: Doc) -> bool {
        let es = d.entries@;
        &&& lookup(es, "consumer_seq"@) == Some(Entry::Num(self.consumer_seq as i128))
        &&& lookup(es, "stream_seq"@) == Some(Entry::Num(self.stream_seq as i128))
    }

    /// What decoding a document yields: the record on success, the first
    /// offending field's error otherwise, fields read in declaration order.
    pub open spec fn spec_decode(d: Doc) -> Result<SequencePair, DecodeError> {
        let es = d.entries@;
        if sget_num(es, "consumer_seq"@, 0 as int, u64::MAX as int) is Err {
            Err(DecodeError::MalformedField("consumer_seq", "expected an unsigned integer"))
        } else if sget_num(es, "stream_seq"@, 0 as int, u64::MAX as int) is Err {
            Err(DecodeError::MalformedField("stream_seq", "expected an unsigned integer"))
        } else {
            Ok(SequencePair {
                consumer_seq: match sget_num(es, "consumer_seq"@, 0 as int, u64::MAX as int)->Ok_0 {
                    Some(n) => n as u64,
                    None => 0 as u64,
                },
                stream_seq: match sget_num(es, "stream_seq"@, 0 as int, u64::MAX as int)->Ok_0 {
                    Some(n) => n as u64,
                    None => 0 as u64,
                },
            })
        }
    }

    /// Encodes the record as a wire document: every schema field in
    /// declaration order, every unset optional field omitted.
    pub fn encode(&self) -> (d: Doc)
        ensures
            self.encodes(d),
            forall|k: Seq<char>| !Self::wire_key(k) ==> lookup(d.entries@, k) is None,
    {
        proof {
            reveal_sequence_pair_keys();
        }
        let mut d = Doc::new();
        d.put("consumer_seq", Entry::Num(self.consumer_seq as i128));
        d.put("stream_seq", Entry::Num(self.stream_seq as i128));
        d
    }

    /// Decodes a wire document, ignoring unknown fields; a faithful wire form
    /// of any well-formed record decodes back to exactly it.
    pub fn decode(d: &Doc) -> (r: Result<SequencePair, DecodeError>)
        ensures
            r == Self::spec_decode(*d),
            forall|c: SequencePair| c.encodes(*d) ==> r == Ok::<_, DecodeError>(c),
    {
        proof {
            reveal_sequence_pair_keys();
        }
        let consumer_seq = match d.get_num("consumer_seq", 0 as i128, u64::MAX as i128) {
            Ok(None) => 0,
            Ok(Some(n)) => n as u64,
            Err(()) => return Err(
                DecodeError::MalformedField("consumer_seq", "expected an unsigned integer"),
            ),
        };
        let stream_seq = match d.get_num("stream_seq", 0 as i128, u64::MAX as i128) {
            Ok(None) => 0,
            Ok(Some(n)) => n as u64,
            Err(()) => return Err(
                DecodeError::MalformedField("stream_seq", "expected an unsigned integer"),
            ),
        };
        Ok(SequencePair { consumer_seq, stream_seq })
    }
}

impl Default for SequencePair {
    /// Every field at its zero, empty, unset, or inner-default value.
    fn default() -> (r: SequencePair)
        ensures
            SequencePair::is_default(r),
    {
        SequencePair {
            consumer_seq: 0,
            stream_seq: 0,
        }
    }
}

/// Makes the sequence-pair schema's key texts and their distinctness available.
pub proof fn reveal_sequence_pair_keys()
    ensures
        ("consumer_seq"@).len() == 12,
        ("stream_seq"@).len() == 10,
{
    reveal_strlit("consumer_seq");
    reveal_strlit("stream_seq");
}

/// Where a stream or consumer is hosted within the broker cluster.
#[derive(Debug, Clone, PartialEq)]
pub struct ClusterInfo {
    /// The name of the cluster node leading the asset.
    pub leader: String,
}

impl ClusterInfo {
    /// Every field at its zero, empty, unset, or inner-default value.
    pub open spec fn is_default(c: ClusterInfo) -> bool {
        &&& c.leader@.len() == 0
    }

    /// The keys of the cluster-info schema.
    pub open spec fn wire_key(k: Seq<char>) -> bool {
        k == "leader"@
    }

    /// The document `d` is a faithful wire form of `self`: every schema field
    /// reads back exactly, and every unset optional field has no key at all.
    pub open spec fn encodes(self, d: Doc) -> bool {
        let es = d.entries@;
        &&& lookup(es, "leader"@) == Some(Entry::Str(self.leader))
    }

    /// What decoding a document yields: the record on success, the first
    /// offending field's error otherwise, fields read in declaration order.
    pub open spec fn spec_decode(d: Doc) -> Result<ClusterInfo, DecodeError> {
        let es = d.entries@;
        if sget_str(es, "leader"@) is Err {
            Err(DecodeError::MalformedField("leader", "expected text"))
        } else if sget_str(es, "leader"@) == Ok::<_, ()>(None::<String>) {
            Err(DecodeError::MissingRequiredField("leader"))
        } else {
            Ok(ClusterInfo {
                leader: sget_str(es, "leader"@)->Ok_0.unwrap(),
            })
        }
    }

    /// Encodes the record as a wire document: every schema field in
    /// declaration order, every unset optional field omitted.
    pub fn encode(&self) -> (d: Doc)
        ensures
            self.encodes(d),
            forall|k: Seq<char>| !Self::wire_key(k) ==> lookup(d.entries@, k) is None,
    {
        proof {
            reveal_cluster_info_keys();
        }
        let mut d = Doc::new();
        d.put("leader", Entry::Str(self.leader.clone()));
        d
    }

    /// Decodes a wire document, ignoring unknown fields; a faithful wire form
    /// of any well-formed record decodes back to exactly it.
    pub fn decode(d: &Doc) -> (r: Result<ClusterInfo, DecodeError>)
        ensures
            r == Self::spec_decode(*d),
            forall|c: ClusterInfo| c.encodes(*d) ==> r == Ok::<_, DecodeError>(c),
    {
        proof {
            reveal_cluster_info_keys();
        }
        let leader = match d.get_str("leader") {
            Ok(Some(s)) => s,
            Ok(None) => return Err(DecodeError::MissingRequiredField("leader")),
            Err(()) => return Err(DecodeError::MalformedField("leader", "expected text")),
        };
        Ok(ClusterInfo { leader })
    }
}

impl Default for ClusterInfo {
    /// Every field at its zero, empty, unset, or inner-default value.
    fn default() -> (r: ClusterInfo)
        ensures
            ClusterInfo::is_default(r),
    {
        ClusterInfo {
            leader: String::new(),
        }
    }
}

/// Makes the cluster-info schema's key texts and their distinctness available.
pub proof fn reveal_cluster_info_keys()
    ensures
        ("leader"@).len() == 6,
{
    reveal_strlit("leader");
}

/// Live counters of one stream: how much it holds and where its
/// sequence stands.
#[derive(Debug, Clone, PartialEq)]
pub struct StreamState {
    /// Messages currently retained.
    pub msgs: u64,
    /// Bytes currently retained.
    pub bytes: u64,
    /// Sequence of the oldest retained message.
    pub first_seq: u64,
    /// Timestamp text of the oldest retained message.
    pub first_ts: String,
    /// Sequence of the newest retained message.
    pub last_seq: u64,
    /// Arrival instant of the newest retained message.
    pub last_ts: DateTime,
    /// How many consumers read the stream.
    pub consumer_count: usize,
}

impl StreamState {
    /// Every field at its zero, empty, unset, or inner-default value.
    pub open spec fn is_default(c: StreamState) -> bool {
        &&& c.msgs == 0
        &&& c.bytes == 0
        &&& c.first_seq == 0
        &&& c.first_ts@.len() == 0
        &&& c.last_seq == 0
        &&& c.last_ts.secs == 0 && c.last_ts.nanos == 0
        &&& c.consumer_count == 0
    }

    /// Timestamps lie in the wire range and embedded records are well-formed.
    pub open spec fn wf(self) -> bool {
        &&& self.last_ts.wf()
    }

    /// The keys of the stream-state schema.
    pub open spec fn wire_key(k: Seq<char>) -> bool {
        k == "msgs"@ || k == "bytes"@ || k == "first_seq"@ || k == "first_ts"@ || k == "last_seq"@ || k == "last_ts"@ || k == "consumer_count"@
    }

    /// The document `d` is a faithful wire form of `self`: every schema field
    /// reads back exactly, and every unset optional field has no key at all.
    pub open spec fn encodes(self, d: Doc) -> bool {
        let es = d.entries@;
        &&& lookup(es, "msgs"@) == Some(Entry::Num(self.msgs as i128))
        &&& lookup(es, "bytes"@) == Some(Entry::Num(self.bytes as i128))
        &&& lookup(es, "first_seq"@) == Some(Entry::Num(self.first_seq as i128))
        &&& lookup(es, "first_ts"@) == Some(Entry::Str(self.first_ts))
        &&& lookup(es, "last_seq"@) == Some(Entry::Num(self.last_seq as i128))
        &&& is_time_entry(lookup(es, "last_ts"@), self.last_ts)
        &&& lookup(es, "consumer_count"@) == Some(Entry::Num(self.consumer_count as i128))
    }

    /// What decoding a document yields: the record on success, the first
    /// offending field's error otherwise, fields read in declaration order.
    pub open spec fn spec_decode(d: Doc) -> Result<StreamState, DecodeError> {
        let es = d.entries@;
        if sget_num(es, "msgs"@, 0 as int, u64::MAX as int) is Err {
            Err(DecodeError::MalformedField("msgs", "expected an unsigned integer"))
        } else if sget_num(es, "bytes"@, 0 as int, u64::MAX as int) is Err {
            Err(DecodeError::MalformedField("bytes", "expected an unsigned integer"))
        } else if sget_num(es, "first_seq"@, 0 as int, u64::MAX as int) is Err {
            Err(DecodeError::MalformedField("first_seq", "expected an unsigned integer"))
        } else if sget_str(es, "first_ts"@) is Err {
            Err(DecodeError::MalformedField("first_ts", "expected text"))
        } else if sget_str(es, "first_ts"@) == Ok::<_, ()>(None::<String>) {
            Err(DecodeError::MissingRequiredField("first_ts"))
        } else if sget_num(es, "last_seq"@, 0 as int, u64::MAX as int) is Err {
            Err(DecodeError::MalformedField("last_seq", "expected an unsigned integer"))
        } else if sget_time(es, "last_ts"@) is Err {
            if sget_time(es, "last_ts"@) == Err::<Option<DateTime>, _>(TimeFieldError::NotText) {
                        Err(DecodeError::MalformedField("last_ts", "expected RFC 3339 text"))
                    } else {
                        Err(DecodeError::TimeParseError)
                    }
        } else if sget_time(es, "last_ts"@) == Ok::<_, TimeFieldError>(None::<DateTime>) {
            Err(DecodeError::MissingRequiredField("last_ts"))
        } else if sget_num(es, "consumer_count"@, 0 as int, usize::MAX as int) is Err {
            Err(DecodeError::MalformedField("consumer_count", "expected an unsigned integer"))
        } else {
            Ok(StreamState {
                msgs: match sget_num(es, "msgs"@, 0 as int, u64::MAX as int)->Ok_0 {
                    Some(n) => n as u64,
                    None => 0 as u64,
                },
                bytes: match sget_num(es, "bytes"@, 0 as int, u64::MAX as int)->Ok_0 {
                    Some(n) => n as u64,
                    None => 0 as u64,
                },
                first_seq: match sget_num(es, "first_seq"@, 0 as int, u64::MAX as int)->Ok_0 {
                    Some(n) => n as u64,
                    None => 0 as u64,
                },
                first_ts: sget_str(es, "first_ts"@)->Ok_0.unwrap(),
                last_seq: match sget_num(es, "last_seq"@, 0 as int, u64::MAX as int)->Ok_0 {
                    Some(n) => n as u64,
                    None => 0 as u64,
                },
                last_ts: sget_time(es, "last_ts"@)->Ok_0.unwrap(),
                consumer_count: match sget_num(es, "consumer_count"@, 0 as int, usize::MAX as int)->Ok_0 {
                    Some(n) => n as usize,
                    None => 0 as usize,
                },
            })
        }
    }

    /// Encodes the record as a wire document: every schema field in
    /// declaration order, every unset optional field omitted.
    pub fn encode(&self) -> (d: Doc)
        requires
            self.wf(),
        ensures
            self.encodes(d),
            forall|k: Seq<char>| !Self::wire_key(k) ==> lookup(d.entries@, k) is None,
    {
        proof {
            reveal_stream_state_keys();
        }
        let mut d = Doc::new();
        d.put("msgs", Entry::Num(self.msgs as i128));
        d.put("bytes", Entry::Num(self.bytes as i128));
        d.put("first_seq", Entry::Num(self.first_seq as i128));
        d.put("first_ts", Entry::Str(self.first_ts.clone()));
        d.put("last_seq", Entry::Num(self.last_seq as i128));
        put_time(&mut d, "last_ts", &self.last_ts);
        d.put("consumer_count", Entry::Num(self.consumer_count as i128));
        d
    }

    /// Decodes a wire document, ignoring unknown fields; a faithful wire form
    /// of any well-formed record decodes back to exactly it.
    pub fn decode(d: &Doc) -> (r: Result<StreamState, DecodeError>)
        ensures
            r == Self::spec_decode(*d),
            forall|c: StreamState| c.wf() && c.encodes(*d) ==> r == Ok::<_, DecodeError>(c),
    {
        proof {
            reveal_stream_state_keys();
        }
        let msgs = match d.get_num("msgs", 0 as i128, u64::MAX as i128) {
            Ok(None) => 0,
            Ok(Some(n)) => n as u64,
            Err(()) => return Err(
                DecodeError::MalformedField("msgs", "expected an unsigned integer"),
            ),
        };
        let bytes = match d.get_num("bytes", 0 as i128, u64::MAX as i128) {
            Ok(None) => 0,
            Ok(Some(n)) => n as u64,
            Err(()) => return Err(
                DecodeError::MalformedField("bytes", "expected an unsigned integer"),
            ),
        };
        let first_seq = match d.get_num("first_seq", 0 as i128, u64::MAX as i128) {
            Ok(None) => 0,
            Ok(Some(n)) => n as u64,
            Err(()) => return Err(
                DecodeError::MalformedField("first_seq", "expected an unsigned integer"),
            ),
        };
        let first_ts = match d.get_str("first_ts") {
            Ok(Some(s)) => s,
            Ok(None) => return Err(DecodeError::MissingRequiredField("first_ts")),
            Err(()) => return Err(DecodeError::MalformedField("first_ts", "expected text")),
        };
        let last_seq = match d.get_num("last_seq", 0 as i128, u64::MAX as i128) {
            Ok(None) => 0,
            Ok(Some(n)) => n as u64,
            Err(()) => return Err(
                DecodeError::MalformedField("last_seq", "expected an unsigned integer"),
            ),
        };
        let last_ts = match get_time(d, "last_ts") {
            Ok(Some(t)) => t,
            Ok(None) => return Err(DecodeError::MissingRequiredField("last_ts")),
            Err(TimeFieldError::NotText) => return Err(
                DecodeError::MalformedField("last_ts", "expected RFC 3339 text"),
            ),
            Err(TimeFieldError::Unparsable) => return Err(DecodeError::TimeParseError),
        };
        let consumer_count = match d.get_num("consumer_count", 0 as i128, usize::MAX as i128) {
            Ok(None) => 0,
            Ok(Some(n)) => n as usize,
            Err(()) => return Err(
                DecodeError::MalformedField("consumer_count", "expected an unsigned integer"),
            ),
        };
        Ok(StreamState { msgs, bytes, first_seq, first_ts, last_seq, last_ts, consumer_count })
    }
}

impl Default for StreamState {
    /// Every field at its zero, empty, unset, or inner-default value.
    fn default() -> (r: StreamState)
        ensures
            StreamState::is_default(r),
            r.wf(),
    {
        StreamState {
            msgs: 0,
            bytes: 0,
            first_seq: 0,
            first_ts: String::new(),
            last_seq: 0,
            last_ts: DateTime { secs: 0, nanos: 0 },
            consumer_count: 0,
        }
    }
}

/// Makes the stream-state schema's key texts and their distinctness available.
pub proof fn reveal_stream_state_keys()
    ensures
        ("msgs"@).len() == 4,
        ("bytes"@).len() == 5,
        ("first_seq"@).len() == 9,
        ("first_ts"@).len() == 8,
        ("last_seq"@).len() == 8,
        ("last_ts"@).len() == 7,
        ("consumer_count"@).len() == 14,
        ("first_ts"@)[0] == 'f',
        ("last_seq"@)[0] == 'l',
{
    reveal_strlit("msgs");
    reveal_strlit("bytes");
    reveal_strlit("first_seq");
    reveal_strlit("first_ts");
    reveal_strlit("last_seq");
    reveal_strlit("last_ts");
    reveal_strlit("consumer_count");
}

/// A broker-authored snapshot of one stream: its configuration,
/// unchanged, plus live state and the creation instant.
#[derive(Debug, Clone, PartialEq)]
pub struct StreamInfo {
    /// The response kind marker, under the wire key `type`.
    pub kind: String,
    /// The configuration the stream was created with.
    pub config: StreamConfig,
    /// When the stream was created.
    pub created: DateTime,
    /// Live counters at snapshot time.
    pub state: StreamState,
}

impl StreamInfo {
    /// Every field at its zero, empty, unset, or inner-default value.
    pub open spec fn is_default(c: StreamInfo) -> bool {
        &&& c.kind@.len() == 0
        &&& StreamConfig::is_default(c.config)
        &&& c.created.secs == 0 && c.created.nanos == 0
        &&& StreamState::is_default(c.state)
    }

    /// Timestamps lie in the wire range and embedded records are well-formed.
    pub open spec fn wf(self) -> bool {
        &&& self.config.wf()
        &&& self.created.wf()
        &&& self.state.wf()
    }

    /// Field-for-field sameness, with embedded subject lists compared
    /// element by element.
    pub open spec fn eqv(a: StreamInfo, b: StreamInfo) -> bool {
        &&& a.kind == b.kind
        &&& StreamConfig::eqv(a.config, b.config)
        &&& a.created == b.created
        &&& a.state == b.state
    }

    /// The keys of the stream-info schema.
    pub open spec fn wire_key(k: Seq<char>) -> bool {
        k == "type"@ || k == "config"@ || k == "created"@ || k == "state"@
    }

    /// The document `d` is a faithful wire form of `self`: every schema field
    /// reads back exactly, and every unset optional field has no key at all.
    pub open spec fn encodes(self, d: Doc) -> bool {
        let es = d.entries@;
        &&& lookup(es, "type"@) == Some(Entry::Str(self.kind))
        &&& (lookup(es, "config"@) matches Some(Entry::Obj(sub)) && self.config.encodes(sub))
        &&& is_time_entry(lookup(es, "created"@), self.created)
        &&& (lookup(es, "state"@) matches Some(Entry::Obj(sub)) && self.state.encodes(sub))
    }

    /// What decoding a document yields: the record on success, the first
    /// offending field's error otherwise, fields read in declaration order.
    pub open spec fn spec_decode(d: Doc) -> Result<StreamInfo, DecodeError> {
        let es = d.entries@;
        if sget_str(es, "type"@) is Err {
            Err(DecodeError::MalformedField("type", "expected text"))
        } else if sget_str(es, "type"@) == Ok::<_, ()>(None::<String>) {
            Err(DecodeError::MissingRequiredField("type"))
        } else if sget_obj(es, "config"@) is Err {
            Err(DecodeError::MalformedField("config", "expected an object"))
        } else if sget_obj(es, "config"@) == Ok::<_, ()>(None::<Doc>) {
            Err(DecodeError::MissingRequiredField("config"))
        } else if StreamConfig::spec_decode(sget_obj(es, "config"@)->Ok_0.unwrap()) is Err {
            Err(StreamConfig::spec_decode(sget_obj(es, "config"@)->Ok_0.unwrap())->Err_0)
        } else if sget_time(es, "created"@) is Err {
            if sget_time(es, "created"@) == Err::<Option<DateTime>, _>(TimeFieldError::NotText) {
                        Err(DecodeError::MalformedField("created", "expected RFC 3339 text"))
                    } else {
                        Err(DecodeError::TimeParseError)
                    }
        } else if sget_time(es, "created"@) == Ok::<_, TimeFieldError>(None::<DateTime>) {
            Err(DecodeError::MissingRequiredField("created"))
        } else if sget_obj(es, "state"@) is Err {
            Err(DecodeError::MalformedField("state", "expected an object"))
        } else if sget_obj(es, "state"@) == Ok::<_, ()>(None::<Doc>) {
            Err(DecodeError::MissingRequiredField("state"))
        } else if StreamState::spec_decode(sget_obj(es, "state"@)->Ok_0.unwrap()) is Err {
            Err(StreamState::spec_decode(sget_obj(es, "state"@)->Ok_0.unwrap())->Err_0)
        } else {
            Ok(StreamInfo {
                kind: sget_str(es, "type"@)->Ok_0.unwrap(),
                config: StreamConfig::spec_decode(sget_obj(es, "config"@)->Ok_0.unwrap())->Ok_0,
                created: sget_time(es, "created"@)->Ok_0.unwrap(),
                state: StreamState::spec_decode(sget_obj(es, "state"@)->Ok_0.unwrap())->Ok_0,
            })
        }
    }

    /// Encodes the record as a wire document: every schema field in
    /// declaration order, every unset optional field omitted.
    pub fn encode(&self) -> (d: Doc)
        requires
            self.wf(),
        ensures
            self.encodes(d),
            forall|k: Seq<char>| !Self::wire_key(k) ==> lookup(d.entries@, k) is None,
    {
        proof {
            reveal_stream_info_keys();
        }
        let mut d = Doc::new();
        d.put("type", Entry::Str(self.kind.clone()));
        d.put("config", Entry::Obj(self.config.encode()));
        put_time(&mut d, "created", &self.created);
        d.put("state", Entry::Obj(self.state.encode()));
        d
    }

    /// Decodes a wire document, ignoring unknown fields; a faithful wire form
    /// of any well-formed record decodes back to a field-for-field equal one.
    pub fn decode(d: &Doc) -> (r: Result<StreamInfo, DecodeError>)
        ensures
            r is Err ==> r == Self::spec_decode(*d),
            r is Ok <==> Self::spec_decode(*d) is Ok,
            r matches Ok(c) ==> Self::eqv(c, Self::spec_decode(*d)->Ok_0),
            forall|c: StreamInfo|
                c.wf() && c.encodes(*d) ==> (r matches Ok(c2) && Self::eqv(c2, c)),
    {
        proof {
            reveal_stream_info_keys();
        }
        let kind = match d.get_str("type") {
            Ok(Some(s)) => s,
            Ok(None) => return Err(DecodeError::MissingRequiredField("type")),
            Err(()) => return Err(DecodeError::MalformedField("type", "expected text")),
        };
        let config = match d.get_obj("config") {
            Ok(Some(sub)) => match StreamConfig::decode(sub) {
                Ok(v) => v,
                Err(e) => return Err(e),
            },
            Ok(None) => return Err(DecodeError::MissingRequiredField("config")),
            Err(()) => return Err(DecodeError::MalformedField("config", "expected an object")),
        };
        let created = match get_time(d, "created") {
            Ok(Some(t)) => t,
            Ok(None) => return Err(DecodeError::MissingRequiredField("created")),
            Err(TimeFieldError::NotText) => return Err(
                DecodeError::MalformedField("created", "expected RFC 3339 text"),
            ),
            Err(TimeFieldError::Unparsable) => return Err(DecodeError::TimeParseError),
        };
        let state = match d.get_obj("state") {
            Ok(Some(sub)) => match StreamState::decode(sub) {
                Ok(v) => v,
                Err(e) => return Err(e),
            },
            Ok(None) => return Err(DecodeError::MissingRequiredField("state")),
            Err(()) => return Err(DecodeError::MalformedField("state", "expected an object")),
        };
        Ok(StreamInfo { kind, config, created, state })
    }
}

impl Default for StreamInfo {
    /// Every field at its zero, empty, unset, or inner-default value.
    fn default() -> (r: StreamInfo)
        ensures
            StreamInfo::is_default(r),
    {
        StreamInfo {
            kind: String::new(),
            config: StreamConfig::default(),
            created: DateTime { secs: 0, nanos: 0 },
            state: StreamState::default(),
        }
    }
}

/// Makes the stream-info schema's key texts and their distinctness available.
pub proof fn reveal_stream_info_keys()
    ensures
        ("type"@).len() == 4,
        ("config"@).len() == 6,
        ("created"@).len() == 7,
        ("state"@).len() == 5,
{
    reveal_strlit("type");
    reveal_strlit("config");
    reveal_strlit("created");
    reveal_strlit("state");
}

/// Acknowledgment of one publish: the resolved stream, the assigned
/// sequence, and whether the broker recognized a duplicate.
#[derive(Debug, Clone, PartialEq)]
pub struct PubAck {
    /// The stream that stored the message.
    pub stream: String,
    /// The sequence number the message was assigned.
    pub seq: u64,
    /// Present and true only when a deduplication id was recognized
    /// within the duplicate window.
    pub duplicate: Option<bool>,
}

impl PubAck {
    /// Every field at its zero, empty, unset, or inner-default value.
    pub open spec fn is_default(c: PubAck) -> bool {
        &&& c.stream@.len() == 0
        &&& c.seq == 0
        &&& c.duplicate is None
    }

    /// The keys of the pub-ack schema.
    pub open spec fn wire_key(k: Seq<char>) -> bool {
        k == "stream"@ || k == "seq"@ || k == "duplicate"@
    }

    /// The document `d` is a faithful wire form of `self`: every schema field
    /// reads back exactly, and every unset optional field has no key at all.
    pub open spec fn encodes(self, d: Doc) -> bool {
        let es = d.entries@;
        &&& lookup(es, "stream"@) == Some(Entry::Str(self.stream))
        &&& lookup(es, "seq"@) == Some(Entry::Num(self.seq as i128))
        &&& (match self.duplicate {
            None => lookup(es, "duplicate"@) is None,
            Some(b) => lookup(es, "duplicate"@) == Some(Entry::Bool(b)),
        })
    }

    /// What decoding a document yields: the record on success, the first
    /// offending field's error otherwise, fields read in declaration order.
    pub open spec fn spec_decode(d: Doc) -> Result<PubAck, DecodeError> {
        let es = d.entries@;
        if sget_str(es, "stream"@) is Err {
            Err(DecodeError::MalformedField("stream", "expected text"))
        } else if sget_str(es, "stream"@) == Ok::<_, ()>(None::<String>) {
            Err(DecodeError::MissingRequiredField("stream"))
        } else if sget_num(es, "seq"@, 0 as int, u64::MAX as int) is Err {
            Err(DecodeError::MalformedField("seq", "expected an unsigned integer"))
        } else if sget_bool(es, "duplicate"@) is Err {
            Err(DecodeError::MalformedField("duplicate", "expected a boolean"))
        } else {
            Ok(PubAck {
                stream: sget_str(es, "stream"@)->Ok_0.unwrap(),
                seq: match sget_num(es, "seq"@, 0 as int, u64::MAX as int)->Ok_0 {
                    Some(n) => n as u64,
                    None => 0 as u64,
                },
                duplicate: sget_bool(es, "duplicate"@)->Ok_0,
            })
        }
    }

    /// Encodes the record as a wire document: every schema field in
    /// declaration order, every unset optional field omitted.
    pub fn encode(&self) -> (d: Doc)
        ensures
            self.encodes(d),
            forall|k: Seq<char>| !Self::wire_key(k) ==> lookup(d.entries@, k) is None,
    {
        proof {
            reveal_pub_ack_keys();
        }
        let mut d = Doc::new();
        d.put("stream", Entry::Str(self.stream.clone()));
        d.put("seq", Entry::Num(self.seq as i128));
        if let Some(b) = self.duplicate {
            d.put("duplicate", Entry::Bool(b));
        }
        d
    }

    /// Decodes a wire document, ignoring unknown fields; a faithful wire form
    /// of any well-formed record decodes back to exactly it.
    pub fn decode(d: &Doc) -> (r: Result<PubAck, DecodeError>)
        ensures
            r == Self::spec_decode(*d),
            forall|c: PubAck| c.encodes(*d) ==> r == Ok::<_, DecodeError>(c),
    {
        proof {
            reveal_pub_ack_keys();
        }
        let stream = match d.get_str("stream") {
            Ok(Some(s)) => s,
            Ok(None) => return Err(DecodeError::MissingRequiredField("stream")),
            Err(()) => return Err(DecodeError::MalformedField("stream", "expected text")),
        };
        let seq = match d.get_num("seq", 0 as i128, u64::MAX as i128) {
            Ok(None) => 0,
            Ok(Some(n)) => n as u64,
            Err(()) => return Err(
                DecodeError::MalformedField("seq", "expected an unsigned integer"),
            ),
        };
        let duplicate = match d.get_bool("duplicate") {
            Ok(v) => v,
            Err(()) => return Err(DecodeError::MalformedField("duplicate", "expected a boolean")),
        };
        Ok(PubAck { stream, seq, duplicate })
    }
}

impl Default for PubAck {
    /// Every field at its zero, empty, unset, or inner-default value.
    fn default() -> (r: PubAck)
        ensures
            PubAck::is_default(r),
    {
        PubAck {
            stream: String::new(),
            seq: 0,
            duplicate: None,
        }
    }
}

/// Round-trip law for the publish acknowledgment, stated purely: decoding any
/// faithful wire form of an acknowledgment gives back exactly it.
pub proof fn lemma_pub_ack_round_trip(a: PubAck, d: Doc)
    requires
        a.encodes(d),
    ensures
        PubAck::spec_decode(d) == Ok::<_, DecodeError>(a),
{
    reveal_pub_ack_keys();
}

/// Makes the publish-acknowledgment schema's key texts and their distinctness available.
pub proof fn reveal_pub_ack_keys()
    ensures
        ("stream"@).len() == 6,
        ("seq"@).len() == 3,
        ("duplicate"@).len() == 9,
{
    reveal_strlit("stream");
    reveal_strlit("seq");
    reveal_strlit("duplicate");
}

/// The resource ceilings of one account.
#[derive(Debug, Clone, PartialEq, Copy)]
pub struct AccountLimits {
    /// Memory ceiling in bytes.
    pub max_memory: i64,
    /// Disk ceiling in bytes.
    pub max_storage: i64,
    /// Stream-count ceiling.
    pub max_streams: i64,
    /// Consumer-count ceiling.
    pub max_consumers: i64,
}

impl AccountLimits {
    /// Every field at its zero, empty, unset, or inner-default value.
    pub open spec fn is_default(c: AccountLimits) -> bool {
        &&& c.max_memory == 0
        &&& c.max_storage == 0
        &&& c.max_streams == 0
        &&& c.max_consumers == 0
    }

    /// The keys of the account-limits schema.
    pub open spec fn wire_key(k: Seq<char>) -> bool {
        k == "max_memory"@ || k == "max_storage"@ || k == "max_streams"@ || k == "max_consumers"@
    }

    /// The document `d` is a faithful wire form of `self`: every schema field
    /// reads back exactly, and every unset optional field has no key at all.
    pub open spec fn encodes(self, d: Doc) -> bool {
        let es = d.entries@;
        &&& lookup(es, "max_memory"@) == Some(Entry::Num(self.max_memory as i128))
        &&& lookup(es, "max_storage"@) == Some(Entry::Num(self.max_storage as i128))
        &&& lookup(es, "max_streams"@) == Some(Entry::Num(self.max_streams as i128))
        &&& lookup(es, "max_consumers"@) == Some(Entry::Num(self.max_consumers as i128))
    }

    /// What decoding a document yields: the record on success, the first
    /// offending field's error otherwise, fields read in declaration order.
    pub open spec fn spec_decode(d: Doc) -> Result<AccountLimits, DecodeError> {
        let es = d.entries@;
        if sget_num(es, "max_memory"@, i64::MIN as int, i64::MAX as int) is Err {
            Err(DecodeError::MalformedField("max_memory", "expected an integer"))
        } else if sget_num(es, "max_storage"@, i64::MIN as int, i64::MAX as int) is Err {
            Err(DecodeError::MalformedField("max_storage", "expected an integer"))
        } else if sget_num(es, "max_streams"@, i64::MIN as int, i64::MAX as int) is Err {
            Err(DecodeError::MalformedField("max_streams", "expected an integer"))
        } else if sget_num(es, "max_consumers"@, i64::MIN as int, i64::MAX as int) is Err {
            Err(DecodeError::MalformedField("max_consumers", "expected an integer"))
        } else {
            Ok(AccountLimits {
                max_memory: match sget_num(es, "max_memory"@, i64::MIN as int, i64::MAX as int)->Ok_0 {
                    Some(n) => n as i64,
                    None => 0 as i64,
                },
                max_storage: match sget_num(es, "max_storage"@, i64::MIN as int, i64::MAX as int)->Ok_0 {
                    Some(n) => n as i64,
                    None => 0 as i64,
                },
                max_streams: match sget_num(es, "max_streams"@, i64::MIN as int, i64::MAX as int)->Ok_0 {
                    Some(n) => n as i64,
                    None => 0 as i64,
                },
                max_consumers: match sget_num(es, "max_consumers"@, i64::MIN as int, i64::MAX as int)->Ok_0 {
                    Some(n) => n as i64,
                    None => 0 as i64,
                },
            })
        }
    }

    /// Encodes the record as a wire document: every schema field in
    /// declaration order, every unset optional field omitted.
    pub fn encode(&self) -> (d: Doc)
        ensures
            self.encodes(d),
            forall|k: Seq<char>| !Self::wire_key(k) ==> lookup(d.entries@, k) is None,
    {
        proof {
            reveal_account_limits_keys();
        }
        let mut d = Doc::new();
        d.put("max_memory", Entry::Num(self.max_memory as i128));
        d.put("max_storage", Entry::Num(self.max_storage as i128));
        d.put("max_streams", Entry::Num(self.max_streams as i128));
        d.put("max_consumers", Entry::Num(self.max_consumers as i128));
        d
    }

    /// Decodes a wire document, ignoring unknown fields; a faithful wire form
    /// of any well-formed record decodes back to exactly it.
    pub fn decode(d: &Doc) -> (r: Result<AccountLimits, DecodeError>)
        ensures
            r == Self::spec_decode(*d),
            forall|c: AccountLimits| c.encodes(*d) ==> r == Ok::<_, DecodeError>(c),
    {
        proof {
            reveal_account_limits_keys();
        }
        let max_memory = match d.get_num("max_memory", i64::MIN as i128, i64::MAX as i128) {
            Ok(None) => 0,
            Ok(Some(n)) => n as i64,
            Err(()) => return Err(
                DecodeError::MalformedField("max_memory", "expected an integer"),
            ),
        };
        let max_storage = match d.get_num("max_storage", i64::MIN as i128, i64::MAX as i128) {
            Ok(None) => 0,
            Ok(Some(n)) => n as i64,
            Err(()) => return Err(
                DecodeError::MalformedField("max_storage", "expected an integer"),
            ),
        };
        let max_streams = match d.get_num("max_streams", i64::MIN as i128, i64::MAX as i128) {
            Ok(None) => 0,
            Ok(Some(n)) => n as i64,
            Err(()) => return Err(
                DecodeError::MalformedField("max_streams", "expected an integer"),
            ),
        };
        let max_consumers = match d.get_num("max_consumers", i64::MIN as i128, i64::MAX as i128) {
            Ok(None) => 0,
            Ok(Some(n)) => n as i64,
            Err(()) => return Err(
                DecodeError::MalformedField("max_consumers", "expected an integer"),
            ),
        };
        Ok(AccountLimits { max_memory, max_storage, max_streams, max_consumers })
    }
}

impl Default for AccountLimits {
    /// Every field at its zero, empty, unset, or inner-default value.
    fn default() -> (r: AccountLimits)
        ensures
            AccountLimits::is_default(r),
    {
        AccountLimits {
            max_memory: 0,
            max_storage: 0,
            max_streams: 0,
            max_consumers: 0,
        }
    }
}

/// Makes the account-limits schema's key texts and their distinctness available.
pub proof fn reveal_account_limits_keys()
    ensures
        ("max_memory"@).len() == 10,
        ("max_storage"@).len() == 11,
        ("max_streams"@).len() == 11,
        ("max_consumers"@).len() == 13,
        ("max_storage"@)[6] == 'o',
        ("max_streams"@)[6] == 'r',
{
    reveal_strlit("max_memory");
    reveal_strlit("max_storage");
    reveal_strlit("max_streams");
    reveal_strlit("max_consumers");
}

/// Current resource use of one account, beside its limits.
#[derive(Debug, Clone, PartialEq, Copy)]
pub struct AccountStats {
    /// Memory in use, in bytes.
    pub memory: u64,
    /// Disk in use, in bytes.
    pub storage: u64,
    /// Streams in use.
    pub streams: usize,
    /// The ceilings the use is held against.
    pub limits: AccountLimits,
}

impl AccountStats {
    /// Every field at its zero, empty, unset, or inner-default value.
    pub open spec fn is_default(c: AccountStats) -> bool {
        &&& c.memory == 0
        &&& c.storage == 0
        &&& c.streams == 0
        &&& AccountLimits::is_default(c.limits)
    }

    /// The keys of the account-stats schema.
    pub open spec fn wire_key(k: Seq<char>) -> bool {
        k == "memory"@ || k == "storage"@ || k == "streams"@ || k == "limits"@
    }

    /// The document `d` is a faithful wire form of `self`: every schema field
    /// reads back exactly, and every unset optional field has no key at all.
    pub open spec fn encodes(self, d: Doc) -> bool {
        let es = d.entries@;
        &&& lookup(es, "memory"@) == Some(Entry::Num(self.memory as i128))
        &&& lookup(es, "storage"@) == Some(Entry::Num(self.storage as i128))
        &&& lookup(es, "streams"@) == Some(Entry::Num(self.streams as i128))
        &&& (lookup(es, "limits"@) matches Some(Entry::Obj(sub)) && self.limits.encodes(sub))
    }

    /// What decoding a document yields: the record on success, the first
    /// offending field's error otherwise, fields read in declaration order.
    pub open spec fn spec_decode(d: Doc) -> Result<AccountStats, DecodeError> {
        let es = d.entries@;
        if sget_num(es, "memory"@, 0 as int, u64::MAX as int) is Err {
            Err(DecodeError::MalformedField("memory", "expected an unsigned integer"))
        } else if sget_num(es, "storage"@, 0 as int, u64::MAX as int) is Err {
            Err(DecodeError::MalformedField("storage", "expected an unsigned integer"))
        } else if sget_num(es, "streams"@, 0 as int, usize::MAX as int) is Err {
            Err(DecodeError::MalformedField("streams", "expected an unsigned integer"))
        } else if sget_obj(es, "limits"@) is Err {
            Err(DecodeError::MalformedField("limits", "expected an object"))
        } else if sget_obj(es, "limits"@) == Ok::<_, ()>(None::<Doc>) {
            Err(DecodeError::MissingRequiredField("limits"))
        } else if AccountLimits::spec_decode(sget_obj(es, "limits"@)->Ok_0.unwrap()) is Err {
            Err(AccountLimits::spec_decode(sget_obj(es, "limits"@)->Ok_0.unwrap())->Err_0)
        } else {
            Ok(AccountStats {
                memory: match sget_num(es, "memory"@, 0 as int, u64::MAX as int)->Ok_0 {
                    Some(n) => n as u64,
                    None => 0 as u64,
                },
                storage: match sget_num(es, "storage"@, 0 as int, u64::MAX as int)->Ok_0 {
                    Some(n) => n as u64,
                    None => 0 as u64,
                },
                streams: match sget_num(es, "streams"@, 0 as int, usize::MAX as int)->Ok_0 {
                    Some(n) => n as usize,
                    None => 0 as usize,
                },
                limits: AccountLimits::spec_decode(sget_obj(es, "limits"@)->Ok_0.unwrap())->Ok_0,
            })
        }
    }

    /// Encodes the record as a wire document: every schema field in
    /// declaration order, every unset optional field omitted.
    pub fn encode(&self) -> (d: Doc)
        ensures
            self.encodes(d),
            forall|k: Seq<char>| !Self::wire_key(k) ==> lookup(d.entries@, k) is None,
    {
        proof {
            reveal_account_stats_keys();
        }
        let mut d = Doc::new();
        d.put("memory", Entry::Num(self.memory as i128));
        d.put("storage", Entry::Num(self.storage as i128));
        d.put("streams", Entry::Num(self.streams as i128));
        d.put("limits", Entry::Obj(self.limits.encode()));
        d
    }

    /// Decodes a wire document, ignoring unknown fields; a faithful wire form
    /// of any well-formed record decodes back to exactly it.
    pub fn decode(d: &Doc) -> (r: Result<AccountStats, DecodeError>)
        ensures
            r == Self::spec_decode(*d),
            forall|c: AccountStats| c.encodes(*d) ==> r == Ok::<_, DecodeError>(c),
    {
        proof {
            reveal_account_stats_keys();
        }
        let memory = match d.get_num("memory", 0 as i128, u64::MAX as i128) {
            Ok(None) => 0,
            Ok(Some(n)) => n as u64,
            Err(()) => return Err(
                DecodeError::MalformedField("memory", "expected an unsigned integer"),
            ),
        };
        let storage = match d.get_num("storage", 0 as i128, u64::MAX as i128) {
            Ok(None) => 0,
            Ok(Some(n)) => n as u64,
            Err(()) => return Err(
                DecodeError::MalformedField("storage", "expected an unsigned integer"),
            ),
        };
        let streams = match d.get_num("streams", 0 as i128, usize::MAX as i128) {
            Ok(None) => 0,
            Ok(Some(n)) => n as usize,
            Err(()) => return Err(
                DecodeError::MalformedField("streams", "expected an unsigned integer"),
            ),
        };
        let limits = match d.get_obj("limits") {
            Ok(Some(sub)) => match AccountLimits::decode(sub) {
                Ok(v) => v,
                Err(e) => return Err(e),
            },
            Ok(None) => return Err(DecodeError::MissingRequiredField("limits")),
            Err(()) => return Err(DecodeError::MalformedField("limits", "expected an object")),
        };
        Ok(AccountStats { memory, storage, streams, limits })
    }
}

impl Default for AccountStats {
    /// Every field at its zero, empty, unset, or inner-default value.
    fn default() -> (r: AccountStats)
        ensures
            AccountStats::is_default(r),
    {
        AccountStats {
            memory: 0,
            storage: 0,
            streams: 0,
            limits: AccountLimits::default(),
        }
    }
}

/// Makes the account-stats schema's key texts and their distinctness available.
pub proof fn reveal_account_stats_keys()
    ensures
        ("memory"@).len() == 6,
        ("storage"@).len() == 7,
        ("streams"@).len() == 7,
        ("limits"@).len() == 6,
        ("limits"@)[0] == 'l',
        ("memory"@)[0] == 'm',
        ("storage"@)[2] == 'o',
        ("streams"@)[2] == 'r',
{
    reveal_strlit("memory");
    reveal_strlit("storage");
    reveal_strlit("streams");
    reveal_strlit("limits");
}

/// How many control-plane calls the account has made, and how many
/// failed.
#[derive(Debug, Clone, PartialEq, Copy)]
pub struct ApiStats {
    /// Calls made.
    pub total: u64,
    /// Calls that failed.
    pub errors: u64,
}

impl ApiStats {
    /// Every field at its zero, empty, unset, or inner-default value.
    pub open spec fn is_default(c: ApiStats) -> bool {
        &&& c.total == 0
        &&& c.errors == 0
    }

    /// The keys of the api-stats schema.
    pub open spec fn wire_key(k: Seq<char>) -> bool {
        k == "total"@ || k == "errors"@
    }

    /// The document `d` is a faithful wire form of `self`: every schema field
    /// reads back exactly, and every unset optional field has no key at all.
    pub open spec fn encodes(self, d: Doc) -> bool {
        let es = d.entries@;
        &&& lookup(es, "total"@) == Some(Entry::Num(self.total as i128))
        &&& lookup(es, "errors"@) == Some(Entry::Num(self.errors as i128))
    }

    /// What decoding a document yields: the record on success, the first
    /// offending field's error otherwise, fields read in declaration order.
    pub open spec fn spec_decode(d: Doc) -> Result<ApiStats, DecodeError> {
        let es = d.entries@;
        if sget_num(es, "total"@, 0 as int, u64::MAX as int) is Err {
            Err(DecodeError::MalformedField("total", "expected an unsigned integer"))
        } else if sget_num(es, "errors"@, 0 as int, u64::MAX as int) is Err {
            Err(DecodeError::MalformedField("errors", "expected an unsigned integer"))
        } else {
            Ok(ApiStats {
                total: match sget_num(es, "total"@, 0 as int, u64::MAX as int)->Ok_0 {
                    Some(n) => n as u64,
                    None => 0 as u64,
                },
                errors: match sget_num(es, "errors"@, 0 as int, u64::MAX as int)->Ok_0 {
                    Some(n) => n as u64,
                    None => 0 as u64,
                },
            })
        }
    }

    /// Encodes the record as a wire document: every schema field in
    /// declaration order, every unset optional field omitted.
    pub fn encode(&self) -> (d: Doc)
        ensures
            self.encodes(d),
            forall|k: Seq<char>| !Self::wire_key(k) ==> lookup(d.entries@, k) is None,
    {
        proof {
            reveal_api_stats_keys();
        }
        let mut d = Doc::new();
        d.put("total", Entry::Num(self.total as i128));
        d.put("errors", Entry::Num(self.errors as i128));
        d
    }

    /// Decodes a wire document, ignoring unknown fields; a faithful wire form
    /// of any well-formed record decodes back to exactly it.
    pub fn decode(d: &Doc) -> (r: Result<ApiStats, DecodeError>)
        ensures
            r == Self::spec_decode(*d),
            forall|c: ApiStats| c.encodes(*d) ==> r == Ok::<_, DecodeError>(c),
    {
        proof {
            reveal_api_stats_keys();
        }
        let total = match d.get_num("total", 0 as i128, u64::MAX as i128) {
            Ok(None) => 0,
            Ok(Some(n)) => n as u64,
            Err(()) => return Err(
                DecodeError::MalformedField("total", "expected an unsigned integer"),
            ),
        };
        let errors = match d.get_num("errors", 0 as i128, u64::MAX as i128) {
            Ok(None) => 0,
            Ok(Some(n)) => n as u64,
            Err(()) => return Err(
                DecodeError::MalformedField("errors", "expected an unsigned integer"),
            ),
        };
        Ok(ApiStats { total, errors })
    }
}

impl Default for ApiStats {
    /// Every field at its zero, empty, unset, or inner-default value.
    fn default() -> (r: ApiStats)
        ensures
            ApiStats::is_default(r),
    {
        ApiStats {
            total: 0,
            errors: 0,
        }
    }
}

/// Makes the api-stats schema's key texts and their distinctness available.
pub proof fn reveal_api_stats_keys()
    ensures
        ("total"@).len() == 5,
        ("errors"@).len() == 6,
{
    reveal_strlit("total");
    reveal_strlit("errors");
}

/// A broker-authored snapshot of one account's usage and limits.
#[derive(Debug, Clone, PartialEq)]
pub struct AccountInfo {
    /// The response kind marker, under the wire key `type`.
    pub kind: String,
    /// Memory in use, in bytes.
    pub memory: i64,
    /// Disk in use, in bytes.
    pub storage: i64,
    /// Streams in use.
    pub streams: i64,
    /// Consumers in use.
    pub consumers: i64,
    /// Control-plane call counters.
    pub api: ApiStats,
    /// The account's ceilings.
    pub limits: AccountLimits,
}

impl AccountInfo {
    /// Every field at its zero, empty, unset, or inner-default value.
    pub open spec fn is_default(c: AccountInfo) -> bool {
        &&& c.kind@.len() == 0
        &&& c.memory == 0
        &&& c.storage == 0
        &&& c.streams == 0
        &&& c.consumers == 0
        &&& ApiStats::is_default(c.api)
        &&& AccountLimits::is_default(c.limits)
    }

    /// The keys of the account-info schema.
    pub open spec fn wire_key(k: Seq<char>) -> bool {
        k == "type"@ || k == "memory"@ || k == "storage"@ || k == "streams"@ || k == "consumers"@ || k == "api"@ || k == "limits"@
    }

    /// The document `d` is a faithful wire form of `self`: every schema field
    /// reads back exactly, and every unset optional field has no key at all.
    pub open spec fn encodes(self, d: Doc) -> bool {
        let es = d.entries@;
        &&& lookup(es, "type"@) == Some(Entry::Str(self.kind))
        &&& lookup(es, "memory"@) == Some(Entry::Num(self.memory as i128))
        &&& lookup(es, "storage"@) == Some(Entry::Num(self.storage as i128))
        &&& lookup(es, "streams"@) == Some(Entry::Num(self.streams as i128))
        &&& lookup(es, "consumers"@) == Some(Entry::Num(self.consumers as i128))
        &&& (lookup(es, "api"@) matches Some(Entry::Obj(sub)) && self.api.encodes(sub))
        &&& (lookup(es, "limits"@) matches Some(Entry::Obj(sub)) && self.limits.encodes(sub))
    }

    /// What decoding a document yields: the record on success, the first
    /// offending field's error otherwise, fields read in declaration order.
    pub open spec fn spec_decode(d: Doc) -> Result<AccountInfo, DecodeError> {
        let es = d.entries@;
        if sget_str(es, "type"@) is Err {
            Err(DecodeError::MalformedField("type", "expected text"))
        } else if sget_str(es, "type"@) == Ok::<_, ()>(None::<String>) {
            Err(DecodeError::MissingRequiredField("type"))
        } else if sget_num(es, "memory"@, i64::MIN as int, i64::MAX as int) is Err {
            Err(DecodeError::MalformedField("memory", "expected an integer"))
        } else if sget_num(es, "storage"@, i64::MIN as int, i64::MAX as int) is Err {
            Err(DecodeError::MalformedField("storage", "expected an integer"))
        } else if sget_num(es, "streams"@, i64::MIN as int, i64::MAX as int) is Err {
            Err(DecodeError::MalformedField("streams", "expected an integer"))
        } else if sget_num(es, "consumers"@, i64::MIN as int, i64::MAX as int) is Err {
            Err(DecodeError::MalformedField("consumers", "expected an integer"))
        } else if sget_obj(es, "api"@) is Err {
            Err(DecodeError::MalformedField("api", "expected an object"))
        } else if sget_obj(es, "api"@) == Ok::<_, ()>(None::<Doc>) {
            Err(DecodeError::MissingRequiredField("api"))
        } else if ApiStats::spec_decode(sget_obj(es, "api"@)->Ok_0.unwrap()) is Err {
            Err(ApiStats::spec_decode(sget_obj(es, "api"@)->Ok_0.unwrap())->Err_0)
        } else if sget_obj(es, "limits"@) is Err {
            Err(DecodeError::MalformedField("limits", "expected an object"))
        } else if sget_obj(es, "limits"@) == Ok::<_, ()>(None::<Doc>) {
            Err(DecodeError::MissingRequiredField("limits"))
        } else if AccountLimits::spec_decode(sget_obj(es, "limits"@)->Ok_0.unwrap()) is Err {
            Err(AccountLimits::spec_decode(sget_obj(es, "limits"@)->Ok_0.unwrap())->Err_0)
        } else {
            Ok(AccountInfo {
                kind: sget_str(es, "type"@)->Ok_0.unwrap(),
                memory: match sget_num(es, "memory"@, i64::MIN as int, i64::MAX as int)->Ok_0 {
                    Some(n) => n as i64,
                    None => 0 as i64,
                },
                storage: match sget_num(es, "storage"@, i64::MIN as int, i64::MAX as int)->Ok_0 {
                    Some(n) => n as i64,
                    None => 0 as i64,
                },
                streams: match sget_num(es, "streams"@, i64::MIN as int, i64::MAX as int)->Ok_0 {
                    Some(n) => n as i64,
                    None => 0 as i64,
                },
                consumers: match sget_num(es, "consumers"@, i64::MIN as int, i64::MAX as int)->Ok_0 {
                    Some(n) => n as i64,
                    None => 0 as i64,
                },
                api: ApiStats::spec_decode(sget_obj(es, "api"@)->Ok_0.unwrap())->Ok_0,
                limits: AccountLimits::spec_decode(sget_obj(es, "limits"@)->Ok_0.unwrap())->Ok_0,
            })
        }
    }

    /// Encodes the record as a wire document: every schema field in
    /// declaration order, every unset optional field omitted.
    pub fn encode(&self) -> (d: Doc)
        ensures
            self.encodes(d),
            forall|k: Seq<char>| !Self::wire_key(k) ==> lookup(d.entries@, k) is None,
    {
        proof {
            reveal_account_info_keys();
        }
        let mut d = Doc::new();
        d.put("type", Entry::Str(self.kind.clone()));
        d.put("memory", Entry::Num(self.memory as i128));
        d.put("storage", Entry::Num(self.storage as i128));
        d.put("streams", Entry::Num(self.streams as i128));
        d.put("consumers", Entry::Num(self.consumers as i128));
        d.put("api", Entry::Obj(self.api.encode()));
        d.put("limits", Entry::Obj(self.limits.encode()));
        d
    }

    /// Decodes a wire document, ignoring unknown fields; a faithful wire form
    /// of any well-formed record decodes back to exactly it.
    pub fn decode(d: &Doc) -> (r: Result<AccountInfo, DecodeError>)
        ensures
            r == Self::spec_decode(*d),
            forall|c: AccountInfo| c.encodes(*d) ==> r == Ok::<_, DecodeError>(c),
    {
        proof {
            reveal_account_info_keys();
        }
        let kind = match d.get_str("type") {
            Ok(Some(s)) => s,
            Ok(None) => return Err(DecodeError::MissingRequiredField("type")),
            Err(()) => return Err(DecodeError::MalformedField("type", "expected text")),
        };
        let memory = match d.get_num("memory", i64::MIN as i128, i64::MAX as i128) {
            Ok(None) => 0,
            Ok(Some(n)) => n as i64,
            Err(()) => return Err(
                DecodeError::MalformedField("memory", "expected an integer"),
            ),
        };
        let storage = match d.get_num("storage", i64::MIN as i128, i64::MAX as i128) {
            Ok(None) => 0,
            Ok(Some(n)) => n as i64,
            Err(()) => return Err(
                DecodeError::MalformedField("storage", "expected an integer"),
            ),
        };
        let streams = match d.get_num("streams", i64::MIN as i128, i64::MAX as i128) {
            Ok(None) => 0,
            Ok(Some(n)) => n as i64,
            Err(()) => return Err(
                DecodeError::MalformedField("streams", "expected an integer"),
            ),
        };
        let consumers = match d.get_num("consumers", i64::MIN as i128, i64::MAX as i128) {
            Ok(None) => 0,
            Ok(Some(n)) => n as i64,
            Err(()) => return Err(
                DecodeError::MalformedField("consumers", "expected an integer"),
            ),
        };
        let api = match d.get_obj("api") {
            Ok(Some(sub)) => match ApiStats::decode(sub) {
                Ok(v) => v,
                Err(e) => return Err(e),
            },
            Ok(None) => return Err(DecodeError::MissingRequiredField("api")),
            Err(()) => return Err(DecodeError::MalformedField("api", "expected an object")),
        };
        let limits = match d.get_obj("limits") {
            Ok(Some(sub)) => match AccountLimits::decode(sub) {
                Ok(v) => v,
                Err(e) => return Err(e),
            },
            Ok(None) => return Err(DecodeError::MissingRequiredField("limits")),
            Err(()) => return Err(DecodeError::MalformedField("limits", "expected an object")),
        };
        Ok(AccountInfo { kind, memory, storage, streams, consumers, api, limits })
    }
}

impl Default for AccountInfo {
    /// Every field at its zero, empty, unset, or inner-default value.
    fn default() -> (r: AccountInfo)
        ensures
            AccountInfo::is_default(r),
    {
        AccountInfo {
            kind: String::new(),
            memory: 0,
            storage: 0,
            streams: 0,
            consumers: 0,
            api: ApiStats::default(),
            limits: AccountLimits::default(),
        }
    }
}

/// Makes the account-info schema's key texts and their distinctness available.
pub proof fn reveal_account_info_keys()
    ensures
        ("type"@).len() == 4,
        ("memory"@).len() == 6,
        ("storage"@).len() == 7,
        ("streams"@).len() == 7,
        ("consumers"@).len() == 9,
        ("api"@).len() == 3,
        ("limits"@).len() == 6,
        ("limits"@)[0] == 'l',
        ("memory"@)[0] == 'm',
        ("storage"@)[2] == 'o',
        ("streams"@)[2] == 'r',
{
    reveal_strlit("type");
    reveal_strlit("memory");
    reveal_strlit("storage");
    reveal_strlit("streams");
    reveal_strlit("consumers");
    reveal_strlit("api");
    reveal_strlit("limits");
}

/// A broker-authored snapshot of one consumer: its configuration,
/// unchanged, plus delivery and acknowledgment positions and counters.
#[derive(Debug, Clone, PartialEq)]
pub struct ConsumerInfo {
    /// The response kind marker, under the wire key `type`.
    pub kind: String,
    /// The stream the consumer reads.
    pub stream_name: String,
    /// The consumer's name.
    pub name: String,
    /// When the consumer was created.
    pub created: DateTime,
    /// The configuration the consumer was created with.
    pub config: ConsumerConfig,
    /// The last delivered position.
    pub delivered: SequencePair,
    /// The highest contiguously acknowledged position.
    pub ack_floor: SequencePair,
    /// Deliveries awaiting acknowledgment.
    pub num_ack_pending: usize,
    /// Messages delivered more than once.
    pub num_redelivered: usize,
    /// Outstanding pull waiters.
    pub num_waiting: usize,
    /// Messages yet to be delivered.
    pub num_pending: u64,
    /// Where the consumer is hosted.
    pub cluster: ClusterInfo,
}

impl ConsumerInfo {
    /// Documented external invariant of broker snapshots: the acknowledgment
    /// floor never passes the delivered position, on either the consumer-local
    /// or the stream-global sequence. A violation marks a stale or
    /// inconsistent snapshot; this layer reports it and never corrects it.
    pub open spec fn snapshot_consistent(self) -> bool {
        self.ack_floor.consumer_seq <= self.delivered.consumer_seq
            && self.ack_floor.stream_seq <= self.delivered.stream_seq
    }

    /// Whether the snapshot honors the documented sequence-pair ordering.
    pub fn is_snapshot_consistent(&self) -> (r: bool)
        ensures
            r == self.snapshot_consistent(),
    {
        self.ack_floor.consumer_seq <= self.delivered.consumer_seq
            && self.ack_floor.stream_seq <= self.delivered.stream_seq
    }

    /// Every field at its zero, empty, unset, or inner-default value.
    pub open spec fn is_default(c: ConsumerInfo) -> bool {
        &&& c.kind@.len() == 0
        &&& c.stream_name@.len() == 0
        &&& c.name@.len() == 0
        &&& c.created.secs == 0 && c.created.nanos == 0
        &&& ConsumerConfig::is_default(c.config)
        &&& SequencePair::is_default(c.delivered)
        &&& SequencePair::is_default(c.ack_floor)
        &&& c.num_ack_pending == 0
        &&& c.num_redelivered == 0
        &&& c.num_waiting == 0
        &&& c.num_pending == 0
        &&& ClusterInfo::is_default(c.cluster)
    }

    /// Timestamps lie in the wire range and embedded records are well-formed.
    pub open spec fn wf(self) -> bool {
        &&& self.created.wf()
        &&& self.config.wf()
    }

    /// The keys of the consumer-info schema.
    pub open spec fn wire_key(k: Seq<char>) -> bool {
        k == "type"@ || k == "stream_name"@ || k == "name"@ || k == "created"@ || k == "config"@ || k == "delivered"@ || k == "ack_floor"@ || k == "num_ack_pending"@ || k == "num_redelivered"@ || k == "num_waiting"@ || k == "num_pending"@ || k == "cluster"@
    }

    /// The document `d` is a faithful wire form of `self`: every schema field
    /// reads back exactly, and every unset optional field has no key at all.
    pub open spec fn encodes(self, d: Doc) -> bool {
        let es = d.entries@;
        &&& lookup(es, "type"@) == Some(Entry::Str(self.kind))
        &&& lookup(es, "stream_name"@) == Some(Entry::Str(self.stream_name))
        &&& lookup(es, "name"@) == Some(Entry::Str(self.name))
        &&& is_time_entry(lookup(es, "created"@), self.created)
        &&& (lookup(es, "config"@) matches Some(Entry::Obj(sub)) && self.config.encodes(sub))
        &&& (lookup(es, "delivered"@) matches Some(Entry::Obj(sub)) && self.delivered.encodes(sub))
        &&& (lookup(es, "ack_floor"@) matches Some(Entry::Obj(sub)) && self.ack_floor.encodes(sub))
        &&& lookup(es, "num_ack_pending"@) == Some(Entry::Num(self.num_ack_pending as i128))
        &&& lookup(es, "num_redelivered"@) == Some(Entry::Num(self.num_redelivered as i128))
        &&& lookup(es, "num_waiting"@) == Some(Entry::Num(self.num_waiting as i128))
        &&& lookup(es, "num_pending"@) == Some(Entry::Num(self.num_pending as i128))
        &&& (lookup(es, "cluster"@) matches Some(Entry::Obj(sub)) && self.cluster.encodes(sub))
    }

    /// What decoding a document yields: the record on success, the first
    /// offending field's error otherwise, fields read in declaration order.
    pub open spec fn spec_decode(d: Doc) -> Result<ConsumerInfo, DecodeError> {
        let es = d.entries@;
        if sget_str(es, "type"@) is Err {
            Err(DecodeError::MalformedField("type", "expected text"))
        } else if sget_str(es, "type"@) == Ok::<_, ()>(None::<String>) {
            Err(DecodeError::MissingRequiredField("type"))
        } else if sget_str(es, "stream_name"@) is Err {
            Err(DecodeError::MalformedField("stream_name", "expected text"))
        } else if sget_str(es, "stream_name"@) == Ok::<_, ()>(None::<String>) {
            Err(DecodeError::MissingRequiredField("stream_name"))
        } else if sget_str(es, "name"@) is Err {
            Err(DecodeError::MalformedField("name", "expected text"))
        } else if sget_str(es, "name"@) == Ok::<_, ()>(None::<String>) {
            Err(DecodeError::MissingRequiredField("name"))
        } else if sget_time(es, "created"@) is Err {
            if sget_time(es, "created"@) == Err::<Option<DateTime>, _>(TimeFieldError::NotText) {
                        Err(DecodeError::MalformedField("created", "expected RFC 3339 text"))
                    } else {
                        Err(DecodeError::TimeParseError)
                    }
        } else if sget_time(es, "created"@) == Ok::<_, TimeFieldError>(None::<DateTime>) {
            Err(DecodeError::MissingRequiredField("created"))
        } else if sget_obj(es, "config"@) is Err {
            Err(DecodeError::MalformedField("config", "expected an object"))
        } else if sget_obj(es, "config"@) == Ok::<_, ()>(None::<Doc>) {
            Err(DecodeError::MissingRequiredField("config"))
        } else if ConsumerConfig::spec_decode(sget_obj(es, "config"@)->Ok_0.unwrap()) is Err {
            Err(ConsumerConfig::spec_decode(sget_obj(es, "config"@)->Ok_0.unwrap())->Err_0)
        } else if sget_obj(es, "delivered"@) is Err {
            Err(DecodeError::MalformedField("delivered", "expected an object"))
        } else if sget_obj(es, "delivered"@) == Ok::<_, ()>(None::<Doc>) {
            Err(DecodeError::MissingRequiredField("delivered"))
        } else if SequencePair::spec_decode(sget_obj(es, "delivered"@)->Ok_0.unwrap()) is Err {
            Err(SequencePair::spec_decode(sget_obj(es, "delivered"@)->Ok_0.unwrap())->Err_0)
        } else if sget_obj(es, "ack_floor"@) is Err {
            Err(DecodeError::MalformedField("ack_floor", "expected an object"))
        } else if sget_obj(es, "ack_floor"@) == Ok::<_, ()>(None::<Doc>) {
            Err(DecodeError::MissingRequiredField("ack_floor"))
        } else if SequencePair::spec_decode(sget_obj(es, "ack_floor"@)->Ok_0.unwrap()) is Err {
            Err(SequencePair::spec_decode(sget_obj(es, "ack_floor"@)->Ok_0.unwrap())->Err_0)
        } else if sget_num(es, "num_ack_pending"@, 0 as int, usize::MAX as int) is Err {
            Err(DecodeError::MalformedField("num_ack_pending", "expected an unsigned integer"))
        } else if sget_num(es, "num_redelivered"@, 0 as int, usize::MAX as int) is Err {
            Err(DecodeError::MalformedField("num_redelivered", "expected an unsigned integer"))
        } else if sget_num(es, "num_waiting"@, 0 as int, usize::MAX as int) is Err {
            Err(DecodeError::MalformedField("num_waiting", "expected an unsigned integer"))
        } else if sget_num(es, "num_pending"@, 0 as int, u64::MAX as int) is Err {
            Err(DecodeError::MalformedField("num_pending", "expected an unsigned integer"))
        } else if sget_obj(es, "cluster"@) is Err {
            Err(DecodeError::MalformedField("cluster", "expected an object"))
        } else if sget_obj(es, "cluster"@) == Ok::<_, ()>(None::<Doc>) {
            Err(DecodeError::MissingRequiredField("cluster"))
        } else if ClusterInfo::spec_decode(sget_obj(es, "cluster"@)->Ok_0.unwrap()) is Err {
            Err(ClusterInfo::spec_decode(sget_obj(es, "cluster"@)->Ok_0.unwrap())->Err_0)
        } else {
            Ok(ConsumerInfo {
                kind: sget_str(es, "type"@)->Ok_0.unwrap(),
                stream_name: sget_str(es, "stream_name"@)->Ok_0.unwrap(),
                name: sget_str(es, "name"@)->Ok_0.unwrap(),
                created: sget_time(es, "created"@)->Ok_0.unwrap(),
                config: ConsumerConfig::spec_decode(sget_obj(es, "config"@)->Ok_0.unwrap())->Ok_0,
                delivered: SequencePair::spec_decode(sget_obj(es, "delivered"@)->Ok_0.unwrap())->Ok_0,
                ack_floor: SequencePair::spec_decode(sget_obj(es, "ack_floor"@)->Ok_0.unwrap())->Ok_0,
                num_ack_pending: match sget_num(es, "num_ack_pending"@, 0 as int, usize::MAX as int)->Ok_0 {
                    Some(n) => n as usize,
                    None => 0 as usize,
                },
                num_redelivered: match sget_num(es, "num_redelivered"@, 0 as int, usize::MAX as int)->Ok_0 {
                    Some(n) => n as usize,
                    None => 0 as usize,
                },
                num_waiting: match sget_num(es, "num_waiting"@, 0 as int, usize::MAX as int)->Ok_0 {
                    Some(n) => n as usize,
                    None => 0 as usize,
                },
                num_pending: match sget_num(es, "num_pending"@, 0 as int, u64::MAX as int)->Ok_0 {
                    Some(n) => n as u64,
                    None => 0 as u64,
                },
                cluster: ClusterInfo::spec_decode(sget_obj(es, "cluster"@)->Ok_0.unwrap())->Ok_0,
            })
        }
    }

    /// Encodes the record as a wire document: every schema field in
    /// declaration order, every unset optional field omitted.
    pub fn encode(&self) -> (d: Doc)
        requires
            self.wf(),
        ensures
            self.encodes(d),
            forall|k: Seq<char>| !Self::wire_key(k) ==> lookup(d.entries@, k) is None,
    {
        proof {
            reveal_consumer_info_keys();
        }
        let mut d = Doc::new();
        d.put("type", Entry::Str(self.kind.clone()));
        d.put("stream_name", Entry::Str(self.stream_name.clone()));
        d.put("name", Entry::Str(self.name.clone()));
        put_time(&mut d, "created", &self.created);
        d.put("config", Entry::Obj(self.config.encode()));
        d.put("delivered", Entry::Obj(self.delivered.encode()));
        d.put("ack_floor", Entry::Obj(self.ack_floor.encode()));
        d.put("num_ack_pending", Entry::Num(self.num_ack_pending as i128));
        d.put("num_redelivered", Entry::Num(self.num_redelivered as i128));
        d.put("num_waiting", Entry::Num(self.num_waiting as i128));
        d.put("num_pending", Entry::Num(self.num_pending as i128));
        d.put("cluster", Entry::Obj(self.cluster.encode()));
        d
    }

    /// Decodes a wire document, ignoring unknown fields; a faithful wire form
    /// of any well-formed record decodes back to exactly it.
    pub fn decode(d: &Doc) -> (r: Result<ConsumerInfo, DecodeError>)
        ensures
            r == Self::spec_decode(*d),
            forall|c: ConsumerInfo| c.wf() && c.encodes(*d) ==> r == Ok::<_, DecodeError>(c),
    {
        proof {
            reveal_consumer_info_keys();
        }
        let kind = match d.get_str("type") {
            Ok(Some(s)) => s,
            Ok(None) => return Err(DecodeError::MissingRequiredField("type")),
            Err(()) => return Err(DecodeError::MalformedField("type", "expected text")),
        };
        let stream_name = match d.get_str("stream_name") {
            Ok(Some(s)) => s,
            Ok(None) => return Err(DecodeError::MissingRequiredField("stream_name")),
            Err(()) => return Err(DecodeError::MalformedField("stream_name", "expected text")),
        };
        let name = match d.get_str("name") {
            Ok(Some(s)) => s,
            Ok(None) => return Err(DecodeError::MissingRequiredField("name")),
            Err(()) => return Err(DecodeError::MalformedField("name", "expected text")),
        };
        let created = match get_time(d, "created") {
            Ok(Some(t)) => t,
            Ok(None) => return Err(DecodeError::MissingRequiredField("created")),
            Err(TimeFieldError::NotText) => return Err(
                DecodeError::MalformedField("created", "expected RFC 3339 text"),
            ),
            Err(TimeFieldError::Unparsable) => return Err(DecodeError::TimeParseError),
        };
        let config = match d.get_obj("config") {
            Ok(Some(sub)) => match ConsumerConfig::decode(sub) {
                Ok(v) => v,
                Err(e) => return Err(e),
            },
            Ok(None) => return Err(DecodeError::MissingRequiredField("config")),
            Err(()) => return Err(DecodeError::MalformedField("config", "expected an object")),
        };
        let delivered = match d.get_obj("delivered") {
            Ok(Some(sub)) => match SequencePair::decode(sub) {
                Ok(v) => v,
                Err(e) => return Err(e),
            },
            Ok(None) => return Err(DecodeError::MissingRequiredField("delivered")),
            Err(()) => return Err(DecodeError::MalformedField("delivered", "expected an object")),
        };
        let ack_floor = match d.get_obj("ack_floor") {
            Ok(Some(sub)) => match SequencePair::decode(sub) {
                Ok(v) => v,
                Err(e) => return Err(e),
            },
            Ok(None) => return Err(DecodeError::MissingRequiredField("ack_floor")),
            Err(()) => return Err(DecodeError::MalformedField("ack_floor", "expected an object")),
        };
        let num_ack_pending = match d.get_num("num_ack_pending", 0 as i128, usize::MAX as i128) {
            Ok(None) => 0,
            Ok(Some(n)) => n as usize,
            Err(()) => return Err(
                DecodeError::MalformedField("num_ack_pending", "expected an unsigned integer"),
            ),
        };
        let num_redelivered = match d.get_num("num_redelivered", 0 as i128, usize::MAX as i128) {
            Ok(None) => 0,
            Ok(Some(n)) => n as usize,
            Err(()) => return Err(
                DecodeError::MalformedField("num_redelivered", "expected an unsigned integer"),
            ),
        };
        let num_waiting = match d.get_num("num_waiting", 0 as i128, usize::MAX as i128) {
            Ok(None) => 0,
            Ok(Some(n)) => n as usize,
            Err(()) => return Err(
                DecodeError::MalformedField("num_waiting", "expected an unsigned integer"),
            ),
        };
        let num_pending = match d.get_num("num_pending", 0 as i128, u64::MAX as i128) {
            Ok(None) => 0,
            Ok(Some(n)) => n as u64,
            Err(()) => return Err(
                DecodeError::MalformedField("num_pending", "expected an unsigned integer"),
            ),
        };
        let cluster = match d.get_obj("cluster") {
            Ok(Some(sub)) => match ClusterInfo::decode(sub) {
                Ok(v) => v,
                Err(e) => return Err(e),
            },
            Ok(None) => return Err(DecodeError::MissingRequiredField("cluster")),
            Err(()) => return Err(DecodeError::MalformedField("cluster", "expected an object")),
        };
        Ok(ConsumerInfo { kind, stream_name, name, created, config, delivered, ack_floor, num_ack_pending, num_redelivered, num_waiting, num_pending, cluster })
    }
}

impl Default for ConsumerInfo {
    /// Every field at its zero, empty, unset, or inner-default value.
    fn default() -> (r: ConsumerInfo)
        ensures
            ConsumerInfo::is_default(r),
            r.wf(),
    {
        ConsumerInfo {
            kind: String::new(),
            stream_name: String::new(),
            name: String::new(),
            created: DateTime { secs: 0, nanos: 0 },
            config: ConsumerConfig::default(),
            delivered: SequencePair::default(),
            ack_floor: SequencePair::default(),
            num_ack_pending: 0,
            num_redelivered: 0,
            num_waiting: 0,
            num_pending: 0,
            cluster: ClusterInfo::default(),
        }
    }
}

/// Makes the consumer-info schema's key texts and their distinctness available.
pub proof fn reveal_consumer_info_keys()
    ensures
        ("type"@).len() == 4,
        ("stream_name"@).len() == 11,
        ("name"@).len() == 4,
        ("created"@).len() == 7,
        ("config"@).len() == 6,
        ("delivered"@).len() == 9,
        ("ack_floor"@).len() == 9,
        ("num_ack_pending"@).len() == 15,
        ("num_redelivered"@).len() == 15,
        ("num_waiting"@).len() == 11,
        ("num_pending"@).len() == 11,
        ("cluster"@).len() == 7,
        ("ack_floor"@)[0] == 'a',
        ("cluster"@)[1] == 'l',
        ("created"@)[1] == 'r',
        ("delivered"@)[0] == 'd',
        ("name"@)[0] == 'n',
        ("num_ack_pending"@)[4] == 'a',
        ("num_pending"@)[0] == 'n',
        ("num_pending"@)[4] == 'p',
        ("num_redelivered"@)[4] == 'r',
        ("num_waiting"@)[0] == 'n',
        ("num_waiting"@)[4] == 'w',
        ("stream_name"@)[0] == 's',
        ("type"@)[0] == 't',
{
    reveal_strlit("type");
    reveal_strlit("stream_name");
    reveal_strlit("name");
    reveal_strlit("created");
    reveal_strlit("config");
    reveal_strlit("delivered");
    reveal_strlit("ack_floor");
    reveal_strlit("num_ack_pending");
    reveal_strlit("num_redelivered");
    reveal_strlit("num_waiting");
    reveal_strlit("num_pending");
    reveal_strlit("cluster");
}

} // verus!

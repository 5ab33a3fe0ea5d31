//! Configuration records: what a caller asks the broker to create. Each has
//! a full-default constructor and a name-only shorthand constructor, and each
//! encodes to a wire document that omits every unset optional field.

use vstd::prelude::*;
use vstd::string::StringExecFns;
use crate::error::DecodeError;
use crate::policy::{
    get_ack_policy, get_deliver_policy, get_discard, get_replay_policy, get_retention,
    get_storage, sget_ack_policy, sget_deliver_policy, sget_discard, sget_replay_policy,
    sget_retention, sget_storage, AckPolicy, DeliverPolicy, DiscardPolicy, ReplayPolicy,
    RetentionPolicy, StorageType,
};
use crate::time::{get_time, is_time_entry, put_time, sget_time, DateTime, TimeFieldError};
use crate::wire::{clone_strings, lookup, sget_bool, sget_num, sget_str, Doc, Entry};

verus! {

broadcast use
    crate::wire::lemma_lookup_push,
    crate::policy::lemma_deliver_policy_tags_total,
    crate::policy::lemma_ack_policy_tags_total,
    crate::policy::lemma_replay_policy_tags_total,
    crate::policy::lemma_retention_policy_tags_total,
    crate::policy::lemma_discard_policy_tags_total,
    crate::policy::lemma_storage_type_tags_total;

/// Configuration of a consumer: a named, independently-positioned reader
/// over a stream. Absent optional fields mean "broker default".
#[derive(Debug, Clone, PartialEq)]
pub struct ConsumerConfig {
    /// Identity that survives disconnects; absent means ephemeral.
    pub durable_name: Option<String>,
    /// Push delivery target; absent means pull-based.
    pub deliver_subject: Option<String>,
    /// Where in the stream delivery starts.
    pub deliver_policy: DeliverPolicy,
    /// Start sequence, consulted only under `by_start_sequence`.
    pub opt_start_seq: Option<i64>,
    /// Start instant, consulted only under `by_start_time`.
    pub opt_start_time: Option<DateTime>,
    /// When the broker expects acknowledgments.
    pub ack_policy: AckPolicy,
    /// How long the broker waits before redelivering, in nanoseconds.
    pub ack_wait: Option<isize>,
    /// Redelivery attempt ceiling.
    pub max_deliver: Option<i64>,
    /// Narrows the stream's subjects for this consumer.
    pub filter_subject: Option<String>,
    /// The pace of replay.
    pub replay_policy: ReplayPolicy,
    /// Delivery rate ceiling, in bits per second.
    pub rate_limit: Option<i64>,
    /// Sampling percentage for acknowledgment observability.
    pub sample_frequency: Option<String>,
    /// Ceiling on outstanding pull waiters.
    pub max_waiting: Option<i64>,
    /// Ceiling on unacknowledged in-flight messages.
    pub max_ack_pending: Option<i64>,
}

impl ConsumerConfig {
    /// Every optional field unset and every policy at its documented default.
    pub open spec fn is_default(c: ConsumerConfig) -> bool {
        &&& c.durable_name is None
        &&& c.deliver_subject is None
        &&& c.deliver_policy == DeliverPolicy::DeliverAllPolicy
        &&& c.opt_start_seq is None
        &&& c.opt_start_time is None
        &&& c.ack_policy == AckPolicy::AckExplicit
        &&& c.ack_wait is None
        &&& c.max_deliver is None
        &&& c.filter_subject is None
        &&& c.replay_policy == ReplayPolicy::ReplayInstant
        &&& c.rate_limit is None
        &&& c.sample_frequency is None
        &&& c.max_waiting is None
        &&& c.max_ack_pending is None
    }

    /// Any start instant lies in the range the wire form can carry.
    pub open spec fn wf(self) -> bool {
        match self.opt_start_time {
            Some(t) => t.wf(),
            None => true,
        }
    }

    /// The document `d` is a faithful wire form of `self`: every schema field
    /// reads back exactly, and every unset optional field has no key at all.
    pub open spec fn encodes(self, d: Doc) -> bool {
        let es = d.entries@;
        &&& (match self.durable_name {
            None => lookup(es, "durable_name"@) is None,
            Some(s) => lookup(es, "durable_name"@) == Some(Entry::Str(s)),
        })
        &&& (match self.deliver_subject {
            None => lookup(es, "deliver_subject"@) is None,
            Some(s) => lookup(es, "deliver_subject"@) == Some(Entry::Str(s)),
        })
        &&& (lookup(es, "deliver_policy"@) matches Some(Entry::Str(t)) && t@
            == self.deliver_policy.spec_tag())
        &&& (match self.opt_start_seq {
            None => lookup(es, "opt_start_seq"@) is None,
            Some(n) => lookup(es, "opt_start_seq"@) == Some(Entry::Num(n as i128)),
        })
        &&& (match self.opt_start_time {
            None => lookup(es, "opt_start_time"@) is None,
            Some(t) => is_time_entry(lookup(es, "opt_start_time"@), t),
        })
        &&& (lookup(es, "ack_policy"@) matches Some(Entry::Str(t)) && t@
            == self.ack_policy.spec_tag())
        &&& (match self.ack_wait {
            None => lookup(es, "ack_wait"@) is None,
            Some(n) => lookup(es, "ack_wait"@) == Some(Entry::Num(n as i128)),
        })
        &&& (match self.max_deliver {
            None => lookup(es, "max_deliver"@) is None,
            Some(n) => lookup(es, "max_deliver"@) == Some(Entry::Num(n as i128)),
        })
        &&& (match self.filter_subject {
            None => lookup(es, "filter_subject"@) is None,
            Some(s) => lookup(es, "filter_subject"@) == Some(Entry::Str(s)),
        })
        &&& (lookup(es, "replay_policy"@) matches Some(Entry::Str(t)) && t@
            == self.replay_policy.spec_tag())
        &&& (match self.rate_limit {
            None => lookup(es, "rate_limit"@) is None,
            Some(n) => lookup(es, "rate_limit"@) == Some(Entry::Num(n as i128)),
        })
        &&& (match self.sample_frequency {
            None => lookup(es, "sample_frequency"@) is None,
            Some(s) => lookup(es, "sample_frequency"@) == Some(Entry::Str(s)),
        })
        &&& (match self.max_waiting {
            None => lookup(es, "max_waiting"@) is None,
            Some(n) => lookup(es, "max_waiting"@) == Some(Entry::Num(n as i128)),
        })
        &&& (match self.max_ack_pending {
            None => lookup(es, "max_ack_pending"@) is None,
            Some(n) => lookup(es, "max_ack_pending"@) == Some(Entry::Num(n as i128)),
        })
    }


    /// The schema-field clauses of `encodes` numbered `lo` through `hi`, in
    /// declaration order: the staging that `encode` establishes a few fields
    /// at a time.
    pub open spec fn encodes_span(self, d: Doc, lo: int, hi: int) -> bool {
        let es = d.entries@;
        &&& (lo <= 1 <= hi ==> (match self.durable_name {
            None => lookup(es, "durable_name"@) is None,
            Some(s) => lookup(es, "durable_name"@) == Some(Entry::Str(s)),
        }))
        &&& (lo <= 2 <= hi ==> (match self.deliver_subject {
            None => lookup(es, "deliver_subject"@) is None,
            Some(s) => lookup(es, "deliver_subject"@) == Some(Entry::Str(s)),
        }))
        &&& (lo <= 3 <= hi ==> (lookup(es, "deliver_policy"@) matches Some(Entry::Str(t)) && t@
            == self.deliver_policy.spec_tag()))
        &&& (lo <= 4 <= hi ==> (match self.opt_start_seq {
            None => lookup(es, "opt_start_seq"@) is None,
            Some(x) => lookup(es, "opt_start_seq"@) == Some(Entry::Num(x as i128)),
        }))
        &&& (lo <= 5 <= hi ==> (match self.opt_start_time {
            None => lookup(es, "opt_start_time"@) is None,
            Some(t) => is_time_entry(lookup(es, "opt_start_time"@), t),
        }))
        &&& (lo <= 6 <= hi ==> (lookup(es, "ack_policy"@) matches Some(Entry::Str(t)) && t@
            == self.ack_policy.spec_tag()))
        &&& (lo <= 7 <= hi ==> (match self.ack_wait {
            None => lookup(es, "ack_wait"@) is None,
            Some(x) => lookup(es, "ack_wait"@) == Some(Entry::Num(x as i128)),
        }))
        &&& (lo <= 8 <= hi ==> (match self.max_deliver {
            None => lookup(es, "max_deliver"@) is None,
            Some(x) => lookup(es, "max_deliver"@) == Some(Entry::Num(x as i128)),
        }))
        &&& (lo <= 9 <= hi ==> (match self.filter_subject {
            None => lookup(es, "filter_subject"@) is None,
            Some(s) => lookup(es, "filter_subject"@) == Some(Entry::Str(s)),
        }))
        &&& (lo <= 10 <= hi ==> (lookup(es, "replay_policy"@) matches Some(Entry::Str(t)) && t@
            == self.replay_policy.spec_tag()))
        &&& (lo <= 11 <= hi ==> (match self.rate_limit {
            None => lookup(es, "rate_limit"@) is None,
            Some(x) => lookup(es, "rate_limit"@) == Some(Entry::Num(x as i128)),
        }))
        &&& (lo <= 12 <= hi ==> (match self.sample_frequency {
            None => lookup(es, "sample_frequency"@) is None,
            Some(s) => lookup(es, "sample_frequency"@) == Some(Entry::Str(s)),
        }))
        &&& (lo <= 13 <= hi ==> (match self.max_waiting {
            None => lookup(es, "max_waiting"@) is None,
            Some(x) => lookup(es, "max_waiting"@) == Some(Entry::Num(x as i128)),
        }))
        &&& (lo <= 14 <= hi ==> (match self.max_ack_pending {
            None => lookup(es, "max_ack_pending"@) is None,
            Some(x) => lookup(es, "max_ack_pending"@) == Some(Entry::Num(x as i128)),
        }))
    }

    /// The keys that the first five schema fields may occupy.
    pub open spec fn head_key(k: Seq<char>) -> bool {
        k == "durable_name"@ || k == "deliver_subject"@ || k == "deliver_policy"@ || k
            == "opt_start_seq"@ || k == "opt_start_time"@
    }

    /// The keys that the middle five schema fields may occupy.
    pub open spec fn mid_key(k: Seq<char>) -> bool {
        k == "ack_policy"@ || k == "ack_wait"@ || k == "max_deliver"@ || k == "filter_subject"@
            || k == "replay_policy"@
    }

    /// The keys that the last four schema fields may occupy.
    pub open spec fn tail_key(k: Seq<char>) -> bool {
        k == "rate_limit"@ || k == "sample_frequency"@ || k == "max_waiting"@ || k
            == "max_ack_pending"@
    }

    /// The keys of the consumer schema.
    pub open spec fn wire_key(k: Seq<char>) -> bool {
        Self::head_key(k) || Self::mid_key(k) || Self::tail_key(k)
    }

    /// What decoding a document yields: the record on success, the first
    /// offending field's error otherwise, fields read in declaration order.
    pub open spec fn spec_decode(d: Doc) -> Result<ConsumerConfig, DecodeError> {
        let es = d.entries@;
        if sget_str(es, "durable_name"@) is Err {
            Err(DecodeError::MalformedField("durable_name", "expected text"))
        } else if sget_str(es, "deliver_subject"@) is Err {
            Err(DecodeError::MalformedField("deliver_subject", "expected text"))
        } else if sget_deliver_policy(es) is Err {
            Err(sget_deliver_policy(es)->Err_0)
        } else if sget_num(es, "opt_start_seq"@, i64::MIN as int, i64::MAX as int) is Err {
            Err(DecodeError::MalformedField("opt_start_seq", "expected an integer"))
        } else if sget_time(es, "opt_start_time"@) is Err {
            if sget_time(es, "opt_start_time"@) == Err::<Option<DateTime>, _>(
                TimeFieldError::NotText,
            ) {
                Err(DecodeError::MalformedField("opt_start_time", "expected RFC 3339 text"))
            } else {
                Err(DecodeError::TimeParseError)
            }
        } else if sget_ack_policy(es) is Err {
            Err(sget_ack_policy(es)->Err_0)
        } else if sget_num(es, "ack_wait"@, isize::MIN as int, isize::MAX as int) is Err {
            Err(DecodeError::MalformedField("ack_wait", "expected an integer"))
        } else if sget_num(es, "max_deliver"@, i64::MIN as int, i64::MAX as int) is Err {
            Err(DecodeError::MalformedField("max_deliver", "expected an integer"))
        } else if sget_str(es, "filter_subject"@) is Err {
            Err(DecodeError::MalformedField("filter_subject", "expected text"))
        } else if sget_replay_policy(es) is Err {
            Err(sget_replay_policy(es)->Err_0)
        } else if sget_num(es, "rate_limit"@, i64::MIN as int, i64::MAX as int) is Err {
            Err(DecodeError::MalformedField("rate_limit", "expected an integer"))
        } else if sget_str(es, "sample_frequency"@) is Err {
            Err(DecodeError::MalformedField("sample_frequency", "expected text"))
        } else if sget_num(es, "max_waiting"@, i64::MIN as int, i64::MAX as int) is Err {
            Err(DecodeError::MalformedField("max_waiting", "expected an integer"))
        } else if sget_num(es, "max_ack_pending"@, i64::MIN as int, i64::MAX as int) is Err {
            Err(DecodeError::MalformedField("max_ack_pending", "expected an integer"))
        } else {
            Ok(ConsumerConfig {
                durable_name: sget_str(es, "durable_name"@)->Ok_0,
                deliver_subject: sget_str(es, "deliver_subject"@)->Ok_0,
                deliver_policy: sget_deliver_policy(es)->Ok_0,
                opt_start_seq: match sget_num(
                    es,
                    "opt_start_seq"@,
                    i64::MIN as int,
                    i64::MAX as int,
                )->Ok_0 {
                    Some(n) => Some(n as i64),
                    None => None,
                },
                opt_start_time: sget_time(es, "opt_start_time"@)->Ok_0,
                ack_policy: sget_ack_policy(es)->Ok_0,
                ack_wait: match sget_num(es, "ack_wait"@, isize::MIN as int, isize::MAX as int)->Ok_0 {
                    Some(n) => Some(n as isize),
                    None => None,
                },
                max_deliver: match sget_num(
                    es,
                    "max_deliver"@,
                    i64::MIN as int,
                    i64::MAX as int,
                )->Ok_0 {
                    Some(n) => Some(n as i64),
                    None => None,
                },
                filter_subject: sget_str(es, "filter_subject"@)->Ok_0,
                replay_policy: sget_replay_policy(es)->Ok_0,
                rate_limit: match sget_num(es, "rate_limit"@, i64::MIN as int, i64::MAX as int)->Ok_0 {
                    Some(n) => Some(n as i64),
                    None => None,
                },
                sample_frequency: sget_str(es, "sample_frequency"@)->Ok_0,
                max_waiting: match sget_num(
                    es,
                    "max_waiting"@,
                    i64::MIN as int,
                    i64::MAX as int,
                )->Ok_0 {
                    Some(n) => Some(n as i64),
                    None => None,
                },
                max_ack_pending: match sget_num(
                    es,
                    "max_ack_pending"@,
                    i64::MIN as int,
                    i64::MAX as int,
                )->Ok_0 {
                    Some(n) => Some(n as i64),
                    None => None,
                },
            })
        }
    }

    /// Appends the first five schema fields to an empty document.
    fn encode_head(&self, d: &mut Doc)
        requires
            self.wf(),
            old(d).entries@.len() == 0,
        ensures
            self.encodes_span(*final(d), 1, 5),
            forall|k: Seq<char>|
                !Self::head_key(k) ==> (#[trigger] lookup(final(d).entries@, k)) is None,
    {
        proof {
            reveal_consumer_keys();
            assert(lookup(d.entries@, "durable_name"@) is None);
        }
        if let Some(s) = &self.durable_name {
            d.put("durable_name", Entry::Str(s.clone()));
        }
        if let Some(s) = &self.deliver_subject {
            d.put("deliver_subject", Entry::Str(s.clone()));
        }
        d.put("deliver_policy", Entry::Str(String::from_str(self.deliver_policy.wire_tag())));
        if let Some(n) = self.opt_start_seq {
            d.put("opt_start_seq", Entry::Num(n as i128));
        }
        if let Some(t) = &self.opt_start_time {
            put_time(&mut *d, "opt_start_time", t);
        }
    }

    /// Appends the middle five schema fields, leaving other keys untouched.
    fn encode_mid(&self, d: &mut Doc)
        requires
            forall|k: Seq<char>|
                Self::mid_key(k) ==> (#[trigger] lookup(old(d).entries@, k)) is None,
        ensures
            self.encodes_span(*final(d), 6, 10),
            forall|k: Seq<char>|
                !Self::mid_key(k) ==> #[trigger] lookup(final(d).entries@, k) == lookup(
                    old(d).entries@,
                    k,
                ),
    {
        proof {
            reveal_consumer_keys();
            assert(Self::mid_key("ack_policy"@) && Self::mid_key("ack_wait"@) && Self::mid_key(
                "max_deliver"@,
            ) && Self::mid_key("filter_subject"@) && Self::mid_key("replay_policy"@));
            assert(lookup(old(d).entries@, "ack_policy"@) is None);
            assert(lookup(old(d).entries@, "ack_wait"@) is None);
            assert(lookup(old(d).entries@, "max_deliver"@) is None);
            assert(lookup(old(d).entries@, "filter_subject"@) is None);
            assert(lookup(old(d).entries@, "replay_policy"@) is None);
        }
        d.put("ack_policy", Entry::Str(String::from_str(self.ack_policy.wire_tag())));
        if let Some(n) = self.ack_wait {
            d.put("ack_wait", Entry::Num(n as i128));
        }
        if let Some(n) = self.max_deliver {
            d.put("max_deliver", Entry::Num(n as i128));
        }
        if let Some(s) = &self.filter_subject {
            d.put("filter_subject", Entry::Str(s.clone()));
        }
        d.put("replay_policy", Entry::Str(String::from_str(self.replay_policy.wire_tag())));
    }

    /// Appends the last four schema fields, leaving other keys untouched.
    fn encode_tail(&self, d: &mut Doc)
        requires
            forall|k: Seq<char>|
                Self::tail_key(k) ==> (#[trigger] lookup(old(d).entries@, k)) is None,
        ensures
            self.encodes_span(*final(d), 11, 14),
            forall|k: Seq<char>|
                !Self::tail_key(k) ==> #[trigger] lookup(final(d).entries@, k) == lookup(
                    old(d).entries@,
                    k,
                ),
    {
        proof {
            reveal_consumer_keys();
            assert(Self::tail_key("rate_limit"@) && Self::tail_key("sample_frequency"@)
                && Self::tail_key("max_waiting"@) && Self::tail_key("max_ack_pending"@));
            assert(lookup(old(d).entries@, "rate_limit"@) is None);
            assert(lookup(old(d).entries@, "sample_frequency"@) is None);
            assert(lookup(old(d).entries@, "max_waiting"@) is None);
            assert(lookup(old(d).entries@, "max_ack_pending"@) is None);
        }
        if let Some(n) = self.rate_limit {
            d.put("rate_limit", Entry::Num(n as i128));
        }
        if let Some(s) = &self.sample_frequency {
            d.put("sample_frequency", Entry::Str(s.clone()));
        }
        if let Some(n) = self.max_waiting {
            d.put("max_waiting", Entry::Num(n as i128));
        }
        if let Some(n) = self.max_ack_pending {
            d.put("max_ack_pending", Entry::Num(n as i128));
        }
    }

    /// Encodes the configuration as a wire document: every schema field in
    /// declaration order, every unset optional field omitted, and no key
    /// outside the schema.
    pub fn encode(&self) -> (d: Doc)
        requires
            self.wf(),
        ensures
            self.encodes(d),
            forall|k: Seq<char>|
                !Self::wire_key(k) ==> lookup(d.entries@, k) is None,
    {
        proof {
            reveal_consumer_keys();
        }
        let mut d = Doc::new();
        self.encode_head(&mut d);
        proof {
            assert forall|k: Seq<char>| Self::mid_key(k) implies lookup(d.entries@, k)
                is None by {
                assert(!Self::head_key(k));
            }
        }
        self.encode_mid(&mut d);
        proof {
            assert forall|k: Seq<char>| Self::tail_key(k) implies lookup(d.entries@, k)
                is None by {
                assert(!Self::mid_key(k) && !Self::head_key(k));
            }
        }
        self.encode_tail(&mut d);
        d
    }

    /// Decodes a wire document, ignoring unknown fields; a faithful wire form
    /// of any well-formed configuration decodes back to exactly it.
    pub fn decode(d: &Doc) -> (r: Result<ConsumerConfig, DecodeError>)
        ensures
            r == Self::spec_decode(*d),
            forall|c: ConsumerConfig| c.wf() && c.encodes(*d) ==> r == Ok::<_, DecodeError>(c),
    {
        proof {
            reveal_consumer_keys();
        }
        let durable_name = match d.get_str("durable_name") {
            Ok(v) => v,
            Err(()) => return Err(DecodeError::MalformedField("durable_name", "expected text")),
        };
        let deliver_subject = match d.get_str("deliver_subject") {
            Ok(v) => v,
            Err(()) => return Err(DecodeError::MalformedField("deliver_subject", "expected text")),
        };
        let deliver_policy = match get_deliver_policy(d) {
            Ok(p) => p,
            Err(e) => return Err(e),
        };
        let opt_start_seq = match d.get_num("opt_start_seq", i64::MIN as i128, i64::MAX as i128) {
            Ok(None) => None,
            Ok(Some(n)) => Some(n as i64),
            Err(()) => return Err(
                DecodeError::MalformedField("opt_start_seq", "expected an integer"),
            ),
        };
        let opt_start_time = match get_time(d, "opt_start_time") {
            Ok(v) => v,
            Err(TimeFieldError::NotText) => return Err(
                DecodeError::MalformedField("opt_start_time", "expected RFC 3339 text"),
            ),
            Err(TimeFieldError::Unparsable) => return Err(DecodeError::TimeParseError),
        };
        let ack_policy = match get_ack_policy(d) {
            Ok(p) => p,
            Err(e) => return Err(e),
        };
        let ack_wait = match d.get_num("ack_wait", isize::MIN as i128, isize::MAX as i128) {
            Ok(None) => None,
            Ok(Some(n)) => Some(n as isize),
            Err(()) => return Err(DecodeError::MalformedField("ack_wait", "expected an integer")),
        };
        let max_deliver = match d.get_num("max_deliver", i64::MIN as i128, i64::MAX as i128) {
            Ok(None) => None,
            Ok(Some(n)) => Some(n as i64),
            Err(()) => return Err(
                DecodeError::MalformedField("max_deliver", "expected an integer"),
            ),
        };
        let filter_subject = match d.get_str("filter_subject") {
            Ok(v) => v,
            Err(()) => return Err(DecodeError::MalformedField("filter_subject", "expected text")),
        };
        let replay_policy = match get_replay_policy(d) {
            Ok(p) => p,
            Err(e) => return Err(e),
        };
        let rate_limit = match d.get_num("rate_limit", i64::MIN as i128, i64::MAX as i128) {
            Ok(None) => None,
            Ok(Some(n)) => Some(n as i64),
            Err(()) => return Err(DecodeError::MalformedField("rate_limit", "expected an integer")),
        };
        let sample_frequency = match d.get_str("sample_frequency") {
            Ok(v) => v,
            Err(()) => return Err(DecodeError::MalformedField("sample_frequency", "expected text")),
        };
        let max_waiting = match d.get_num("max_waiting", i64::MIN as i128, i64::MAX as i128) {
            Ok(None) => None,
            Ok(Some(n)) => Some(n as i64),
            Err(()) => return Err(
                DecodeError::MalformedField("max_waiting", "expected an integer"),
            ),
        };
        let max_ack_pending = match d.get_num("max_ack_pending", i64::MIN as i128, i64::MAX as i128)
            {
            Ok(None) => None,
            Ok(Some(n)) => Some(n as i64),
            Err(()) => return Err(
                DecodeError::MalformedField("max_ack_pending", "expected an integer"),
            ),
        };
        Ok(
            ConsumerConfig {
                durable_name,
                deliver_subject,
                deliver_policy,
                opt_start_seq,
                opt_start_time,
                ack_policy,
                ack_wait,
                max_deliver,
                filter_subject,
                replay_policy,
                rate_limit,
                sample_frequency,
                max_waiting,
                max_ack_pending,
            },
        )
    }

    /// A durable, otherwise-default consumer configuration: an identity
    /// shorthand, not a full configuration.
    pub fn from(name: &str) -> (r: ConsumerConfig)
        ensures
            r.durable_name matches Some(s) && s@ == name@,
            r.deliver_subject is None,
            r.deliver_policy == DeliverPolicy::DeliverAllPolicy,
            r.opt_start_seq is None,
            r.opt_start_time is None,
            r.ack_policy == AckPolicy::AckExplicit,
            r.ack_wait is None,
            r.max_deliver is None,
            r.filter_subject is None,
            r.replay_policy == ReplayPolicy::ReplayInstant,
            r.rate_limit is None,
            r.sample_frequency is None,
            r.max_waiting is None,
            r.max_ack_pending is None,
            r.wf(),
    {
        let mut c = ConsumerConfig::default();
        c.durable_name = Some(String::from_str(name));
        c
    }
}

impl Default for ConsumerConfig {
    /// Every optional field unset and every policy at its documented default.
    fn default() -> (r: ConsumerConfig)
        ensures
            r.durable_name is None,
            r.deliver_subject is None,
            r.deliver_policy == DeliverPolicy::DeliverAllPolicy,
            r.opt_start_seq is None,
            r.opt_start_time is None,
            r.ack_policy == AckPolicy::AckExplicit,
            r.ack_wait is None,
            r.max_deliver is None,
            r.filter_subject is None,
            r.replay_policy == ReplayPolicy::ReplayInstant,
            r.rate_limit is None,
            r.sample_frequency is None,
            r.max_waiting is None,
            r.max_ack_pending is None,
            Self::is_default(r),
            r.wf(),
    {
        ConsumerConfig {
            durable_name: None,
            deliver_subject: None,
            deliver_policy: DeliverPolicy::DeliverAllPolicy,
            opt_start_seq: None,
            opt_start_time: None,
            ack_policy: AckPolicy::AckExplicit,
            ack_wait: None,
            max_deliver: None,
            filter_subject: None,
            replay_policy: ReplayPolicy::ReplayInstant,
            rate_limit: None,
            sample_frequency: None,
            max_waiting: None,
            max_ack_pending: None,
        }
    }
}

/// Makes the consumer schema's key texts and their distinctness available.
pub proof fn reveal_consumer_keys()
    ensures
        ("durable_name"@).len() == 12,
        ("deliver_subject"@).len() == 15,
        ("deliver_policy"@).len() == 14 && ("deliver_policy"@)[0] == 'd',
        ("opt_start_seq"@).len() == 13 && ("opt_start_seq"@)[0] == 'o',
        ("opt_start_time"@).len() == 14 && ("opt_start_time"@)[0] == 'o',
        ("ack_policy"@).len() == 10 && ("ack_policy"@)[0] == 'a',
        ("ack_wait"@).len() == 8,
        ("max_deliver"@).len() == 11 && ("max_deliver"@)[4] == 'd',
        ("filter_subject"@).len() == 14 && ("filter_subject"@)[0] == 'f',
        ("replay_policy"@).len() == 13 && ("replay_policy"@)[0] == 'r',
        ("rate_limit"@).len() == 10 && ("rate_limit"@)[0] == 'r',
        ("sample_frequency"@).len() == 16,
        ("max_waiting"@).len() == 11 && ("max_waiting"@)[4] == 'w',
        ("max_ack_pending"@).len() == 15 && ("max_ack_pending"@)[0] == 'm',
        ("deliver_subject"@)[0] == 'd',
{
    reveal_strlit("durable_name");
    reveal_strlit("deliver_subject");
    reveal_strlit("deliver_policy");
    reveal_strlit("opt_start_seq");
    reveal_strlit("opt_start_time");
    reveal_strlit("ack_policy");
    reveal_strlit("ack_wait");
    reveal_strlit("max_deliver");
    reveal_strlit("filter_subject");
    reveal_strlit("replay_policy");
    reveal_strlit("rate_limit");
    reveal_strlit("sample_frequency");
    reveal_strlit("max_waiting");
    reveal_strlit("max_ack_pending");
}


/// Configuration of a stream: an append-only, named message log. If no
/// subjects are given, the broker treats the stream's own name as its sole
/// subject; this layer documents that contract and does not enforce it.
#[derive(Debug, Clone, PartialEq)]
pub struct StreamConfig {
    /// The subjects the stream listens on; absent means the name alone.
    pub subjects: Option<Vec<String>>,
    /// The stream's identity; required and non-empty.
    pub name: String,
    /// When messages may be discarded.
    pub retention: RetentionPolicy,
    /// Consumer ceiling; zero means unlimited.
    pub max_consumers: isize,
    /// Message-count ceiling; zero means unlimited.
    pub max_msgs: i64,
    /// Byte ceiling; zero means unlimited.
    pub max_bytes: i64,
    /// How a full stream makes room.
    pub discard: DiscardPolicy,
    /// Age ceiling in nanoseconds; zero means unlimited.
    pub max_age: isize,
    /// Per-message size ceiling.
    pub max_msg_size: Option<i32>,
    /// Where messages live.
    pub storage: StorageType,
    /// How many replicas keep the stream.
    pub num_replicas: usize,
    /// Disables acknowledgment of published messages.
    pub no_ack: Option<bool>,
    /// The template that owns the stream, if any.
    pub template_owner: Option<String>,
    /// Deduplication tracking window in nanoseconds.
    pub duplicate_window: Option<isize>,
}

impl StreamConfig {
    /// Every optional field unset, every policy at its documented default,
    /// every limit at the zero "unlimited" sentinel, and an empty name.
    pub open spec fn is_default(c: StreamConfig) -> bool {
        &&& c.subjects is None
        &&& c.name@.len() == 0
        &&& c.retention == RetentionPolicy::LimitsPolicy
        &&& c.max_consumers == 0
        &&& c.max_msgs == 0
        &&& c.max_bytes == 0
        &&& c.discard == DiscardPolicy::DiscardOld
        &&& c.max_age == 0
        &&& c.max_msg_size is None
        &&& c.storage == StorageType::FileStorage
        &&& c.num_replicas == 0
        &&& c.no_ack is None
        &&& c.template_owner is None
        &&& c.duplicate_window is None
    }

    /// The identifying name is present.
    pub open spec fn wf(self) -> bool {
        self.name@.len() > 0
    }

    /// Field-for-field sameness, with the subject list compared element by
    /// element.
    pub open spec fn eqv(a: StreamConfig, b: StreamConfig) -> bool {
        &&& (match (a.subjects, b.subjects) {
            (None, None) => true,
            (Some(x), Some(y)) => x@ == y@,
            _ => false,
        })
        &&& a.name == b.name
        &&& a.retention == b.retention
        &&& a.max_consumers == b.max_consumers
        &&& a.max_msgs == b.max_msgs
        &&& a.max_bytes == b.max_bytes
        &&& a.discard == b.discard
        &&& a.max_age == b.max_age
        &&& a.max_msg_size == b.max_msg_size
        &&& a.storage == b.storage
        &&& a.num_replicas == b.num_replicas
        &&& a.no_ack == b.no_ack
        &&& a.template_owner == b.template_owner
        &&& a.duplicate_window == b.duplicate_window
    }

    /// The document `d` is a faithful wire form of `self`: every schema field
    /// reads back exactly, and every unset optional field has no key at all.
    pub open spec fn encodes(self, d: Doc) -> bool {
        self.encodes_span(d, 1, 14)
    }

    /// The schema-field clauses of `encodes` numbered `lo` through `hi`, in
    /// declaration order: the staging that `encode` establishes a few fields
    /// at a time.
    pub open spec fn encodes_span(self, d: Doc, lo: int, hi: int) -> bool {
        let es = d.entries@;
        &&& (lo <= 1 <= hi ==> (match self.subjects {
            None => lookup(es, "subjects"@) is None,
            Some(v) => lookup(es, "subjects"@) matches Some(Entry::StrList(l)) && l@ == v@,
        }))
        &&& (lo <= 2 <= hi ==> lookup(es, "name"@) == Some(Entry::Str(self.name)))
        &&& (lo <= 3 <= hi ==> (lookup(es, "retention"@) matches Some(Entry::Str(t)) && t@
            == self.retention.spec_tag()))
        &&& (lo <= 4 <= hi ==> lookup(es, "max_consumers"@) == Some(
            Entry::Num(self.max_consumers as i128),
        ))
        &&& (lo <= 5 <= hi ==> lookup(es, "max_msgs"@) == Some(
            Entry::Num(self.max_msgs as i128),
        ))
        &&& (lo <= 6 <= hi ==> lookup(es, "max_bytes"@) == Some(
            Entry::Num(self.max_bytes as i128),
        ))
        &&& (lo <= 7 <= hi ==> (lookup(es, "discard"@) matches Some(Entry::Str(t)) && t@
            == self.discard.spec_tag()))
        &&& (lo <= 8 <= hi ==> lookup(es, "max_age"@) == Some(Entry::Num(self.max_age as i128)))
        &&& (lo <= 9 <= hi ==> (match self.max_msg_size {
            None => lookup(es, "max_msg_size"@) is None,
            Some(x) => lookup(es, "max_msg_size"@) == Some(Entry::Num(x as i128)),
        }))
        &&& (lo <= 10 <= hi ==> (lookup(es, "storage"@) matches Some(Entry::Str(t)) && t@
            == self.storage.spec_tag()))
        &&& (lo <= 11 <= hi ==> lookup(es, "num_replicas"@) == Some(
            Entry::Num(self.num_replicas as i128),
        ))
        &&& (lo <= 12 <= hi ==> (match self.no_ack {
            None => lookup(es, "no_ack"@) is None,
            Some(b) => lookup(es, "no_ack"@) == Some(Entry::Bool(b)),
        }))
        &&& (lo <= 13 <= hi ==> (match self.template_owner {
            None => lookup(es, "template_owner"@) is None,
            Some(s) => lookup(es, "template_owner"@) == Some(Entry::Str(s)),
        }))
        &&& (lo <= 14 <= hi ==> (match self.duplicate_window {
            None => lookup(es, "duplicate_window"@) is None,
            Some(x) => lookup(es, "duplicate_window"@) == Some(Entry::Num(x as i128)),
        }))
    }

    /// The keys that the first five schema fields may occupy.
    pub open spec fn head_key(k: Seq<char>) -> bool {
        k == "subjects"@ || k == "name"@ || k == "retention"@ || k == "max_consumers"@ || k
            == "max_msgs"@
    }

    /// The keys that the middle five schema fields may occupy.
    pub open spec fn mid_key(k: Seq<char>) -> bool {
        k == "max_bytes"@ || k == "discard"@ || k == "max_age"@ || k == "max_msg_size"@ || k
            == "storage"@
    }

    /// The keys that the last four schema fields may occupy.
    pub open spec fn tail_key(k: Seq<char>) -> bool {
        k == "num_replicas"@ || k == "no_ack"@ || k == "template_owner"@ || k
            == "duplicate_window"@
    }

    /// The keys of the stream schema.
    pub open spec fn wire_key(k: Seq<char>) -> bool {
        Self::head_key(k) || Self::mid_key(k) || Self::tail_key(k)
    }

    /// What decoding a document yields: the record on success, the first
    /// offending field's error otherwise, fields read in declaration order.
    pub open spec fn spec_decode(d: Doc) -> Result<StreamConfig, DecodeError> {
        let es = d.entries@;
        if !(match lookup(es, "subjects"@) {
            None => true,
            Some(Entry::StrList(_)) => true,
            Some(_) => false,
        }) {
            Err(DecodeError::MalformedField("subjects", "expected a list of text subjects"))
        } else if sget_str(es, "name"@) is Err {
            Err(DecodeError::MalformedField("name", "expected text"))
        } else if sget_str(es, "name"@) == Ok::<_, ()>(None::<String>) {
            Err(DecodeError::MissingRequiredField("name"))
        } else if (sget_str(es, "name"@)->Ok_0 matches Some(s) && s@.len() == 0) {
            Err(DecodeError::MalformedField("name", "expected non-empty text"))
        } else if sget_retention(es) is Err {
            Err(sget_retention(es)->Err_0)
        } else if sget_num(es, "max_consumers"@, isize::MIN as int, isize::MAX as int) is Err {
            Err(DecodeError::MalformedField("max_consumers", "expected an integer"))
        } else if sget_num(es, "max_msgs"@, i64::MIN as int, i64::MAX as int) is Err {
            Err(DecodeError::MalformedField("max_msgs", "expected an integer"))
        } else if sget_num(es, "max_bytes"@, i64::MIN as int, i64::MAX as int) is Err {
            Err(DecodeError::MalformedField("max_bytes", "expected an integer"))
        } else if sget_discard(es) is Err {
            Err(sget_discard(es)->Err_0)
        } else if sget_num(es, "max_age"@, isize::MIN as int, isize::MAX as int) is Err {
            Err(DecodeError::MalformedField("max_age", "expected an integer"))
        } else if sget_num(es, "max_msg_size"@, i32::MIN as int, i32::MAX as int) is Err {
            Err(DecodeError::MalformedField("max_msg_size", "expected an integer"))
        } else if sget_storage(es) is Err {
            Err(sget_storage(es)->Err_0)
        } else if sget_num(es, "num_replicas"@, 0, usize::MAX as int) is Err {
            Err(DecodeError::MalformedField("num_replicas", "expected an unsigned integer"))
        } else if sget_bool(es, "no_ack"@) is Err {
            Err(DecodeError::MalformedField("no_ack", "expected a boolean"))
        } else if sget_str(es, "template_owner"@) is Err {
            Err(DecodeError::MalformedField("template_owner", "expected text"))
        } else if sget_num(es, "duplicate_window"@, isize::MIN as int, isize::MAX as int) is Err {
            Err(DecodeError::MalformedField("duplicate_window", "expected an integer"))
        } else {
            Ok(StreamConfig {
                subjects: match lookup(es, "subjects"@) {
                    Some(Entry::StrList(l)) => Some(l),
                    _ => None,
                },
                name: sget_str(es, "name"@)->Ok_0.unwrap(),
                retention: sget_retention(es)->Ok_0,
                max_consumers: match sget_num(
                    es,
                    "max_consumers"@,
                    isize::MIN as int,
                    isize::MAX as int,
                )->Ok_0 {
                    Some(n) => n as isize,
                    None => 0,
                },
                max_msgs: match sget_num(es, "max_msgs"@, i64::MIN as int, i64::MAX as int)->Ok_0 {
                    Some(n) => n as i64,
                    None => 0,
                },
                max_bytes: match sget_num(es, "max_bytes"@, i64::MIN as int, i64::MAX as int)->Ok_0 {
                    Some(n) => n as i64,
                    None => 0,
                },
                discard: sget_discard(es)->Ok_0,
                max_age: match sget_num(es, "max_age"@, isize::MIN as int, isize::MAX as int)->Ok_0 {
                    Some(n) => n as isize,
                    None => 0,
                },
                max_msg_size: match sget_num(
                    es,
                    "max_msg_size"@,
                    i32::MIN as int,
                    i32::MAX as int,
                )->Ok_0 {
                    Some(n) => Some(n as i32),
                    None => None,
                },
                storage: sget_storage(es)->Ok_0,
                num_replicas: match sget_num(es, "num_replicas"@, 0, usize::MAX as int)->Ok_0 {
                    Some(n) => n as usize,
                    None => 0,
                },
                no_ack: sget_bool(es, "no_ack"@)->Ok_0,
                template_owner: sget_str(es, "template_owner"@)->Ok_0,
                duplicate_window: match sget_num(
                    es,
                    "duplicate_window"@,
                    isize::MIN as int,
                    isize::MAX as int,
                )->Ok_0 {
                    Some(n) => Some(n as isize),
                    None => None,
                },
            })
        }
    }

    /// Appends the first five schema fields to an empty document.
    fn encode_head(&self, d: &mut Doc)
        requires
            old(d).entries@.len() == 0,
        ensures
            self.encodes_span(*final(d), 1, 5),
            forall|k: Seq<char>|
                !Self::head_key(k) ==> (#[trigger] lookup(final(d).entries@, k)) is None,
    {
        proof {
            reveal_stream_keys();
            assert(lookup(d.entries@, "subjects"@) is None);
        }
        if let Some(v) = &self.subjects {
            d.put("subjects", Entry::StrList(clone_strings(v)));
        }
        d.put("name", Entry::Str(self.name.clone()));
        d.put("retention", Entry::Str(String::from_str(self.retention.wire_tag())));
        d.put("max_consumers", Entry::Num(self.max_consumers as i128));
        d.put("max_msgs", Entry::Num(self.max_msgs as i128));
    }

    /// Appends the middle five schema fields, leaving other keys untouched.
    fn encode_mid(&self, d: &mut Doc)
        requires
            forall|k: Seq<char>|
                Self::mid_key(k) ==> (#[trigger] lookup(old(d).entries@, k)) is None,
        ensures
            self.encodes_span(*final(d), 6, 10),
            forall|k: Seq<char>|
                !Self::mid_key(k) ==> #[trigger] lookup(final(d).entries@, k) == lookup(
                    old(d).entries@,
                    k,
                ),
    {
        proof {
            reveal_stream_keys();
            assert(Self::mid_key("max_bytes"@) && Self::mid_key("discard"@) && Self::mid_key(
                "max_age"@,
            ) && Self::mid_key("max_msg_size"@) && Self::mid_key("storage"@));
            assert(lookup(old(d).entries@, "max_bytes"@) is None);
            assert(lookup(old(d).entries@, "discard"@) is None);
            assert(lookup(old(d).entries@, "max_age"@) is None);
            assert(lookup(old(d).entries@, "max_msg_size"@) is None);
            assert(lookup(old(d).entries@, "storage"@) is None);
        }
        d.put("max_bytes", Entry::Num(self.max_bytes as i128));
        d.put("discard", Entry::Str(String::from_str(self.discard.wire_tag())));
        d.put("max_age", Entry::Num(self.max_age as i128));
        if let Some(n) = self.max_msg_size {
            d.put("max_msg_size", Entry::Num(n as i128));
        }
        d.put("storage", Entry::Str(String::from_str(self.storage.wire_tag())));
    }

    /// Appends the last four schema fields, leaving other keys untouched.
    fn encode_tail(&self, d: &mut Doc)
        requires
            forall|k: Seq<char>|
                Self::tail_key(k) ==> (#[trigger] lookup(old(d).entries@, k)) is None,
        ensures
            self.encodes_span(*final(d), 11, 14),
            forall|k: Seq<char>|
                !Self::tail_key(k) ==> #[trigger] lookup(final(d).entries@, k) == lookup(
                    old(d).entries@,
                    k,
                ),
    {
        proof {
            reveal_stream_keys();
            assert(Self::tail_key("num_replicas"@) && Self::tail_key("no_ack"@)
                && Self::tail_key("template_owner"@) && Self::tail_key("duplicate_window"@));
            assert(lookup(old(d).entries@, "num_replicas"@) is None);
            assert(lookup(old(d).entries@, "no_ack"@) is None);
            assert(lookup(old(d).entries@, "template_owner"@) is None);
            assert(lookup(old(d).entries@, "duplicate_window"@) is None);
        }
        d.put("num_replicas", Entry::Num(self.num_replicas as i128));
        if let Some(b) = self.no_ack {
            d.put("no_ack", Entry::Bool(b));
        }
        if let Some(s) = &self.template_owner {
            d.put("template_owner", Entry::Str(s.clone()));
        }
        if let Some(n) = self.duplicate_window {
            d.put("duplicate_window", Entry::Num(n as i128));
        }
    }

    /// Encodes the configuration as a wire document: every schema field in
    /// declaration order, every unset optional field omitted, and no key
    /// outside the schema.
    pub fn encode(&self) -> (d: Doc)
        ensures
            self.encodes(d),
            forall|k: Seq<char>|
                !Self::wire_key(k) ==> lookup(d.entries@, k) is None,
    {
        proof {
            reveal_stream_keys();
        }
        let mut d = Doc::new();
        self.encode_head(&mut d);
        proof {
            assert forall|k: Seq<char>| Self::mid_key(k) implies lookup(d.entries@, k)
                is None by {
                assert(!Self::head_key(k));
            }
        }
        self.encode_mid(&mut d);
        proof {
            assert forall|k: Seq<char>| Self::tail_key(k) implies lookup(d.entries@, k)
                is None by {
                assert(!Self::mid_key(k) && !Self::head_key(k));
            }
        }
        self.encode_tail(&mut d);
        d
    }

    /// Decodes a wire document, ignoring unknown fields; a faithful wire form
    /// of any well-formed configuration decodes back to a field-for-field
    /// equal one.
    pub fn decode(d: &Doc) -> (r: Result<StreamConfig, DecodeError>)
        ensures
            r is Err ==> r == Self::spec_decode(*d),
            r is Ok <==> Self::spec_decode(*d) is Ok,
            r matches Ok(c) ==> Self::eqv(c, Self::spec_decode(*d)->Ok_0),
            forall|c: StreamConfig|
                c.wf() && c.encodes(*d) ==> (r matches Ok(c2) && Self::eqv(c2, c)),
    {
        proof {
            reveal_stream_keys();
        }
        let subjects = match d.get_strl("subjects") {
            Ok(v) => v,
            Err(()) => return Err(
                DecodeError::MalformedField("subjects", "expected a list of text subjects"),
            ),
        };
        let name = match d.get_str("name") {
            Ok(Some(s)) => s,
            Ok(None) => return Err(DecodeError::MissingRequiredField("name")),
            Err(()) => return Err(DecodeError::MalformedField("name", "expected text")),
        };
        if name.as_str().is_empty() {
            return Err(DecodeError::MalformedField("name", "expected non-empty text"));
        }
        let retention = match get_retention(d) {
            Ok(p) => p,
            Err(e) => return Err(e),
        };
        let max_consumers = match d.get_num("max_consumers", isize::MIN as i128, isize::MAX as i128)
            {
            Ok(None) => 0,
            Ok(Some(n)) => n as isize,
            Err(()) => return Err(
                DecodeError::MalformedField("max_consumers", "expected an integer"),
            ),
        };
        let max_msgs = match d.get_num("max_msgs", i64::MIN as i128, i64::MAX as i128) {
            Ok(None) => 0,
            Ok(Some(n)) => n as i64,
            Err(()) => return Err(DecodeError::MalformedField("max_msgs", "expected an integer")),
        };
        let max_bytes = match d.get_num("max_bytes", i64::MIN as i128, i64::MAX as i128) {
            Ok(None) => 0,
            Ok(Some(n)) => n as i64,
            Err(()) => return Err(DecodeError::MalformedField("max_bytes", "expected an integer")),
        };
        let discard = match get_discard(d) {
            Ok(p) => p,
            Err(e) => return Err(e),
        };
        let max_age = match d.get_num("max_age", isize::MIN as i128, isize::MAX as i128) {
            Ok(None) => 0,
            Ok(Some(n)) => n as isize,
            Err(()) => return Err(DecodeError::MalformedField("max_age", "expected an integer")),
        };
        let max_msg_size = match d.get_num("max_msg_size", i32::MIN as i128, i32::MAX as i128) {
            Ok(None) => None,
            Ok(Some(n)) => Some(n as i32),
            Err(()) => return Err(
                DecodeError::MalformedField("max_msg_size", "expected an integer"),
            ),
        };
        let storage = match get_storage(d) {
            Ok(p) => p,
            Err(e) => return Err(e),
        };
        let num_replicas = match d.get_num("num_replicas", 0, usize::MAX as i128) {
            Ok(None) => 0,
            Ok(Some(n)) => n as usize,
            Err(()) => return Err(
                DecodeError::MalformedField("num_replicas", "expected an unsigned integer"),
            ),
        };
        let no_ack = match d.get_bool("no_ack") {
            Ok(v) => v,
            Err(()) => return Err(DecodeError::MalformedField("no_ack", "expected a boolean")),
        };
        let template_owner = match d.get_str("template_owner") {
            Ok(v) => v,
            Err(()) => return Err(DecodeError::MalformedField("template_owner", "expected text")),
        };
        let duplicate_window = match d.get_num(
            "duplicate_window",
            isize::MIN as i128,
            isize::MAX as i128,
        ) {
            Ok(None) => None,
            Ok(Some(n)) => Some(n as isize),
            Err(()) => return Err(
                DecodeError::MalformedField("duplicate_window", "expected an integer"),
            ),
        };
        Ok(
            StreamConfig {
                subjects,
                name,
                retention,
                max_consumers,
                max_msgs,
                max_bytes,
                discard,
                max_age,
                max_msg_size,
                storage,
                num_replicas,
                no_ack,
                template_owner,
                duplicate_window,
            },
        )
    }

    /// A configuration with only the name set and everything else default:
    /// an identity shorthand, not a full configuration.
    pub fn from(name: &str) -> (r: StreamConfig)
        ensures
            r.name@ == name@,
            r.subjects is None,
            r.retention == RetentionPolicy::LimitsPolicy,
            r.max_consumers == 0 && r.max_msgs == 0 && r.max_bytes == 0,
            r.discard == DiscardPolicy::DiscardOld,
            r.max_age == 0,
            r.max_msg_size is None,
            r.storage == StorageType::FileStorage,
            r.num_replicas == 0,
            r.no_ack is None,
            r.template_owner is None,
            r.duplicate_window is None,
    {
        let mut c = StreamConfig::default();
        c.name = String::from_str(name);
        c
    }
}

impl Default for StreamConfig {
    /// Every optional field unset, every policy at its documented default,
    /// every limit at the zero "unlimited" sentinel, and an empty name.
    fn default() -> (r: StreamConfig)
        ensures
            r.subjects is None,
            r.name@.len() == 0,
            r.retention == RetentionPolicy::LimitsPolicy,
            r.max_consumers == 0 && r.max_msgs == 0 && r.max_bytes == 0,
            r.discard == DiscardPolicy::DiscardOld,
            r.max_age == 0,
            r.max_msg_size is None,
            r.storage == StorageType::FileStorage,
            r.num_replicas == 0,
            r.no_ack is None,
            r.template_owner is None,
            r.duplicate_window is None,
            Self::is_default(r),
    {
        StreamConfig {
            subjects: None,
            name: String::new(),
            retention: RetentionPolicy::LimitsPolicy,
            max_consumers: 0,
            max_msgs: 0,
            max_bytes: 0,
            discard: DiscardPolicy::DiscardOld,
            max_age: 0,
            max_msg_size: None,
            storage: StorageType::FileStorage,
            num_replicas: 0,
            no_ack: None,
            template_owner: None,
            duplicate_window: None,
        }
    }
}

/// Round-trip law for the stream schema, stated purely: decoding any faithful
/// wire form of a well-formed configuration succeeds and yields a
/// field-for-field equal configuration.
pub proof fn lemma_stream_config_round_trip(c: StreamConfig, d: Doc)
    requires
        c.wf(),
        c.encodes(d),
    ensures
        StreamConfig::spec_decode(d) matches Ok(c2) && StreamConfig::eqv(c2, c),
{
    reveal_stream_keys();
}

/// Makes the stream schema's key texts and their distinctness available.
pub proof fn reveal_stream_keys()
    ensures
        ("subjects"@).len() == 8 && ("subjects"@)[0] == 's',
        ("name"@).len() == 4,
        ("retention"@).len() == 9 && ("retention"@)[0] == 'r',
        ("max_consumers"@).len() == 13,
        ("max_msgs"@).len() == 8 && ("max_msgs"@)[0] == 'm',
        ("max_bytes"@).len() == 9 && ("max_bytes"@)[0] == 'm',
        ("discard"@).len() == 7 && ("discard"@)[0] == 'd',
        ("max_age"@).len() == 7 && ("max_age"@)[0] == 'm',
        ("max_msg_size"@).len() == 12 && ("max_msg_size"@)[0] == 'm',
        ("storage"@).len() == 7 && ("storage"@)[0] == 's',
        ("num_replicas"@).len() == 12 && ("num_replicas"@)[0] == 'n',
        ("no_ack"@).len() == 6,
        ("template_owner"@).len() == 14,
        ("duplicate_window"@).len() == 16,
{
    reveal_strlit("subjects");
    reveal_strlit("name");
    reveal_strlit("retention");
    reveal_strlit("max_consumers");
    reveal_strlit("max_msgs");
    reveal_strlit("max_bytes");
    reveal_strlit("discard");
    reveal_strlit("max_age");
    reveal_strlit("max_msg_size");
    reveal_strlit("storage");
    reveal_strlit("num_replicas");
    reveal_strlit("no_ack");
    reveal_strlit("duplicate_window");
    reveal_strlit("template_owner");
}

} // verus!

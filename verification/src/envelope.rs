//! Request and reply envelopes: thin carriers pairing one operation's
//! identifying data with a configuration record or control parameters. No
//! field synthesis or cross-field validation happens here; contracts that tie
//! fields together (such as start hints to delivery policies) belong to the
//! broker.

use vstd::prelude::*;
use crate::config::ConsumerConfig;
use crate::error::DecodeError;
use crate::time::{get_time, is_time_entry, put_time, sget_time, DateTime, TimeFieldError};
use crate::wire::{lookup, sget_bool, sget_num, sget_obj, sget_str, Doc, Entry};

verus! {

broadcast use crate::wire::lemma_lookup_push;

/// Asks the broker to create a consumer on a named stream.
#[derive(Debug, Clone, PartialEq)]
pub struct CreateConsumerRequest {
    /// The stream to attach the consumer to.
    pub stream_name: String,
    /// The consumer to create.
    pub config: ConsumerConfig,
}

impl CreateConsumerRequest {
    /// Every field at its zero, empty, unset, or inner-default value.
    pub open spec fn is_default(c: CreateConsumerRequest) -> bool {
        &&& c.stream_name@.len() == 0
        &&& ConsumerConfig::is_default(c.config)
    }

    /// Timestamps lie in the wire range and embedded records are well-formed.
    pub open spec fn wf(self) -> bool {
        &&& self.config.wf()
    }

    /// The keys of the create-consumer-request schema.
    pub open spec fn wire_key(k: Seq<char>) -> bool {
        k == "stream_name"@ || k == "config"@
    }

    /// The document `d` is a faithful wire form of `self`: every schema field
    /// reads back exactly, and every unset optional field has no key at all.
    pub open spec fn encodes(self, d: Doc) -> bool {
        let es = d.entries@;
        &&& lookup(es, "stream_name"@) == Some(Entry::Str(self.stream_name))
        &&& (lookup(es, "config"@) matches Some(Entry::Obj(sub)) && self.config.encodes(sub))
    }

    /// What decoding a document yields: the record on success, the first
    /// offending field's error otherwise, fields read in declaration order.
    pub open spec fn spec_decode(d: Doc) -> Result<CreateConsumerRequest, DecodeError> {
        let es = d.entries@;
        if sget_str(es, "stream_name"@) is Err {
            Err(DecodeError::MalformedField("stream_name", "expected text"))
        } else if sget_str(es, "stream_name"@) == Ok::<_, ()>(None::<String>) {
            Err(DecodeError::MissingRequiredField("stream_name"))
        } else if sget_obj(es, "config"@) is Err {
            Err(DecodeError::MalformedField("config", "expected an object"))
        } else if sget_obj(es, "config"@) == Ok::<_, ()>(None::<Doc>) {
            Err(DecodeError::MissingRequiredField("config"))
        } else if ConsumerConfig::spec_decode(sget_obj(es, "config"@)->Ok_0.unwrap()) is Err {
            Err(ConsumerConfig::spec_decode(sget_obj(es, "config"@)->Ok_0.unwrap())->Err_0)
        } else {
            Ok(CreateConsumerRequest {
                stream_name: sget_str(es, "stream_name"@)->Ok_0.unwrap(),
                config: ConsumerConfig::spec_decode(sget_obj(es, "config"@)->Ok_0.unwrap())->Ok_0,
            })
        }
    }

    /// Encodes the record as a wire document: every schema field in
    /// declaration order, every unset optional field omitted.
    pub fn encode(&self) -> (d: Doc)
        requires
            self.wf(),
        ensures
            self.encodes(d),
            forall|k: Seq<char>| !Self::wire_key(k) ==> lookup(d.entries@, k) is None,
    {
        proof {
            reveal_create_consumer_request_keys();
        }
        let mut d = Doc::new();
        d.put("stream_name", Entry::Str(self.stream_name.clone()));
        d.put("config", Entry::Obj(self.config.encode()));
        d
    }

    /// Decodes a wire document, ignoring unknown fields; a faithful wire form
    /// of any well-formed record decodes back to exactly it.
    pub fn decode(d: &Doc) -> (r: Result<CreateConsumerRequest, DecodeError>)
        ensures
            r == Self::spec_decode(*d),
            forall|c: CreateConsumerRequest| c.wf() && c.encodes(*d) ==> r == Ok::<_, DecodeError>(c),
    {
        proof {
            reveal_create_consumer_request_keys();
        }
        let stream_name = match d.get_str("stream_name") {
            Ok(Some(s)) => s,
            Ok(None) => return Err(DecodeError::MissingRequiredField("stream_name")),
            Err(()) => return Err(DecodeError::MalformedField("stream_name", "expected text")),
        };
        let config = match d.get_obj("config") {
            Ok(Some(sub)) => match ConsumerConfig::decode(sub) {
                Ok(v) => v,
                Err(e) => return Err(e),
            },
            Ok(None) => return Err(DecodeError::MissingRequiredField("config")),
            Err(()) => return Err(DecodeError::MalformedField("config", "expected an object")),
        };
        Ok(CreateConsumerRequest { stream_name, config })
    }
}

impl Default for CreateConsumerRequest {
    /// Every field at its zero, empty, unset, or inner-default value.
    fn default() -> (r: CreateConsumerRequest)
        ensures
            CreateConsumerRequest::is_default(r),
            r.wf(),
    {
        CreateConsumerRequest {
            stream_name: String::new(),
            config: ConsumerConfig::default(),
        }
    }
}

/// Makes the create-consumer-request schema's key texts and their distinctness available.
pub proof fn reveal_create_consumer_request_keys()
    ensures
        ("stream_name"@).len() == 11,
        ("config"@).len() == 6,
{
    reveal_strlit("stream_name");
    reveal_strlit("config");
}

/// Asks a pull consumer for its next messages. The deadline is an
/// absolute instant, not a duration.
#[derive(Debug, Clone, PartialEq, Copy)]
pub struct NextRequest {
    /// The absolute deadline after which the request lapses.
    pub expires: DateTime,
    /// How many messages to hand over at most.
    pub batch: Option<usize>,
    /// Answer at once instead of waiting for messages.
    pub no_wait: Option<bool>,
}

impl NextRequest {
    /// Every field at its zero, empty, unset, or inner-default value.
    pub open spec fn is_default(c: NextRequest) -> bool {
        &&& c.expires.secs == 0 && c.expires.nanos == 0
        &&& c.batch is None
        &&& c.no_wait is None
    }

    /// Timestamps lie in the wire range and embedded records are well-formed.
    pub open spec fn wf(self) -> bool {
        &&& self.expires.wf()
    }

    /// The keys of the next-request schema.
    pub open spec fn wire_key(k: Seq<char>) -> bool {
        k == "expires"@ || k == "batch"@ || k == "no_wait"@
    }

    /// The document `d` is a faithful wire form of `self`: every schema field
    /// reads back exactly, and every unset optional field has no key at all.
    pub open spec fn encodes(self, d: Doc) -> bool {
        let es = d.entries@;
        &&& is_time_entry(lookup(es, "expires"@), self.expires)
        &&& (match self.batch {
            None => lookup(es, "batch"@) is None,
            Some(x) => lookup(es, "batch"@) == Some(Entry::Num(x as i128)),
        })
        &&& (match self.no_wait {
            None => lookup(es, "no_wait"@) is None,
            Some(b) => lookup(es, "no_wait"@) == Some(Entry::Bool(b)),
        })
    }

    /// What decoding a document yields: the record on success, the first
    /// offending field's error otherwise, fields read in declaration order.
    pub open spec fn spec_decode(d: Doc) -> Result<NextRequest, DecodeError> {
        let es = d.entries@;
        if sget_time(es, "expires"@) is Err {
            if sget_time(es, "expires"@) == Err::<Option<DateTime>, _>(TimeFieldError::NotText) {
                        Err(DecodeError::MalformedField("expires", "expected RFC 3339 text"))
                    } else {
                        Err(DecodeError::TimeParseError)
                    }
        } else if sget_time(es, "expires"@) == Ok::<_, TimeFieldError>(None::<DateTime>) {
            Err(DecodeError::MissingRequiredField("expires"))
        } else if sget_num(es, "batch"@, 0 as int, usize::MAX as int) is Err {
            Err(DecodeError::MalformedField("batch", "expected an unsigned integer"))
        } else if sget_bool(es, "no_wait"@) is Err {
            Err(DecodeError::MalformedField("no_wait", "expected a boolean"))
        } else {
            Ok(NextRequest {
                expires: sget_time(es, "expires"@)->Ok_0.unwrap(),
                batch: match sget_num(es, "batch"@, 0 as int, usize::MAX as int)->Ok_0 {
                    Some(n) => Some(n as usize),
                    None => None,
                },
                no_wait: sget_bool(es, "no_wait"@)->Ok_0,
            })
        }
    }

    /// Encodes the record as a wire document: every schema field in
    /// declaration order, every unset optional field omitted.
    pub fn encode(&self) -> (d: Doc)
        requires
            self.wf(),
        ensures
            self.encodes(d),
            forall|k: Seq<char>| !Self::wire_key(k) ==> lookup(d.entries@, k) is None,
    {
        proof {
            reveal_next_request_keys();
        }
        let mut d = Doc::new();
        put_time(&mut d, "expires", &self.expires);
        if let Some(n) = self.batch {
            d.put("batch", Entry::Num(n as i128));
        }
        if let Some(b) = self.no_wait {
            d.put("no_wait", Entry::Bool(b));
        }
        d
    }

    /// Decodes a wire document, ignoring unknown fields; a faithful wire form
    /// of any well-formed record decodes back to exactly it.
    pub fn decode(d: &Doc) -> (r: Result<NextRequest, DecodeError>)
        ensures
            r == Self::spec_decode(*d),
            forall|c: NextRequest| c.wf() && c.encodes(*d) ==> r == Ok::<_, DecodeError>(c),
    {
        proof {
            reveal_next_request_keys();
        }
        let expires = match get_time(d, "expires") {
            Ok(Some(t)) => t,
            Ok(None) => return Err(DecodeError::MissingRequiredField("expires")),
            Err(TimeFieldError::NotText) => return Err(
                DecodeError::MalformedField("expires", "expected RFC 3339 text"),
            ),
            Err(TimeFieldError::Unparsable) => return Err(DecodeError::TimeParseError),
        };
        let batch = match d.get_num("batch", 0 as i128, usize::MAX as i128) {
            Ok(None) => None,
            Ok(Some(n)) => Some(n as usize),
            Err(()) => return Err(
                DecodeError::MalformedField("batch", "expected an unsigned integer"),
            ),
        };
        let no_wait = match d.get_bool("no_wait") {
            Ok(v) => v,
            Err(()) => return Err(DecodeError::MalformedField("no_wait", "expected a boolean")),
        };
        Ok(NextRequest { expires, batch, no_wait })
    }
}

impl Default for NextRequest {
    /// Every field at its zero, empty, unset, or inner-default value.
    fn default() -> (r: NextRequest)
        ensures
            NextRequest::is_default(r),
            r.wf(),
    {
        NextRequest {
            expires: DateTime { secs: 0, nanos: 0 },
            batch: None,
            no_wait: None,
        }
    }
}

/// Makes the next-request schema's key texts and their distinctness available.
pub proof fn reveal_next_request_keys()
    ensures
        ("expires"@).len() == 7,
        ("batch"@).len() == 5,
        ("no_wait"@).len() == 7,
        ("expires"@)[0] == 'e',
        ("no_wait"@)[0] == 'n',
{
    reveal_strlit("expires");
    reveal_strlit("batch");
    reveal_strlit("no_wait");
}

/// Asks the broker which stream serves a subject.
#[derive(Debug, Clone, PartialEq)]
pub struct StreamRequest {
    /// The subject to look up; absent lists all streams.
    pub subject: Option<String>,
}

impl StreamRequest {
    /// Every field at its zero, empty, unset, or inner-default value.
    pub open spec fn is_default(c: StreamRequest) -> bool {
        &&& c.subject is None
    }

    /// The keys of the stream-request schema.
    pub open spec fn wire_key(k: Seq<char>) -> bool {
        k == "subject"@
    }

    /// The document `d` is a faithful wire form of `self`: every schema field
    /// reads back exactly, and every unset optional field has no key at all.
    pub open spec fn encodes(self, d: Doc) -> bool {
        let es = d.entries@;
        &&& (match self.subject {
            None => lookup(es, "subject"@) is None,
            Some(s) => lookup(es, "subject"@) == Some(Entry::Str(s)),
        })
    }

    /// What decoding a document yields: the record on success, the first
    /// offending field's error otherwise, fields read in declaration order.
    pub open spec fn spec_decode(d: Doc) -> Result<StreamRequest, DecodeError> {
        let es = d.entries@;
        if sget_str(es, "subject"@) is Err {
            Err(DecodeError::MalformedField("subject", "expected text"))
        } else {
            Ok(StreamRequest {
                subject: sget_str(es, "subject"@)->Ok_0,
            })
        }
    }

    /// Encodes the record as a wire document: every schema field in
    /// declaration order, every unset optional field omitted.
    pub fn encode(&self) -> (d: Doc)
        ensures
            self.encodes(d),
            forall|k: Seq<char>| !Self::wire_key(k) ==> lookup(d.entries@, k) is None,
    {
        proof {
            reveal_stream_request_keys();
        }
        let mut d = Doc::new();
        if let Some(s) = &self.subject {
            d.put("subject", Entry::Str(s.clone()));
        }
        d
    }

    /// Decodes a wire document, ignoring unknown fields; a faithful wire form
    /// of any well-formed record decodes back to exactly it.
    pub fn decode(d: &Doc) -> (r: Result<StreamRequest, DecodeError>)
        ensures
            r == Self::spec_decode(*d),
            forall|c: StreamRequest| c.encodes(*d) ==> r == Ok::<_, DecodeError>(c),
    {
        proof {
            reveal_stream_request_keys();
        }
        let subject = match d.get_str("subject") {
            Ok(v) => v,
            Err(()) => return Err(DecodeError::MalformedField("subject", "expected text")),
        };
        Ok(StreamRequest { subject })
    }
}

impl Default for StreamRequest {
    /// Every field at its zero, empty, unset, or inner-default value.
    fn default() -> (r: StreamRequest)
        ensures
            StreamRequest::is_default(r),
    {
        StreamRequest {
            subject: None,
        }
    }
}

/// Makes the stream-request schema's key texts and their distinctness available.
pub proof fn reveal_stream_request_keys()
    ensures
        ("subject"@).len() == 7,
{
    reveal_strlit("subject");
}

/// Options carried by a subscription: where to attach, how to pull,
/// and the consumer to create or update.
#[derive(Debug, Clone, PartialEq)]
pub struct SubOpts {
    /// The stream to attach to.
    pub stream: String,
    /// The consumer to attach to.
    pub consumer: String,
    /// Pull batch size; zero lets the broker decide.
    pub pull: usize,
    /// Acknowledge manually rather than automatically.
    pub mack: bool,
    /// The consumer configuration to create or update with.
    pub cfg: ConsumerConfig,
}

impl SubOpts {
    /// Every field at its zero, empty, unset, or inner-default value.
    pub open spec fn is_default(c: SubOpts) -> bool {
        &&& c.stream@.len() == 0
        &&& c.consumer@.len() == 0
        &&& c.pull == 0
        &&& c.mack == false
        &&& ConsumerConfig::is_default(c.cfg)
    }

    /// Timestamps lie in the wire range and embedded records are well-formed.
    pub open spec fn wf(self) -> bool {
        &&& self.cfg.wf()
    }

    /// The keys of the sub-opts schema.
    pub open spec fn wire_key(k: Seq<char>) -> bool {
        k == "stream"@ || k == "consumer"@ || k == "pull"@ || k == "mack"@ || k == "cfg"@
    }

    /// The document `d` is a faithful wire form of `self`: every schema field
    /// reads back exactly, and every unset optional field has no key at all.
    pub open spec fn encodes(self, d: Doc) -> bool {
        let es = d.entries@;
        &&& lookup(es, "stream"@) == Some(Entry::Str(self.stream))
        &&& lookup(es, "consumer"@) == Some(Entry::Str(self.consumer))
        &&& lookup(es, "pull"@) == Some(Entry::Num(self.pull as i128))
        &&& lookup(es, "mack"@) == Some(Entry::Bool(self.mack))
        &&& (lookup(es, "cfg"@) matches Some(Entry::Obj(sub)) && self.cfg.encodes(sub))
    }

    /// What decoding a document yields: the record on success, the first
    /// offending field's error otherwise, fields read in declaration order.
    pub open spec fn spec_decode(d: Doc) -> Result<SubOpts, DecodeError> {
        let es = d.entries@;
        if sget_str(es, "stream"@) is Err {
            Err(DecodeError::MalformedField("stream", "expected text"))
        } else if sget_str(es, "stream"@) == Ok::<_, ()>(None::<String>) {
            Err(DecodeError::MissingRequiredField("stream"))
        } else if sget_str(es, "consumer"@) is Err {
            Err(DecodeError::MalformedField("consumer", "expected text"))
        } else if sget_str(es, "consumer"@) == Ok::<_, ()>(None::<String>) {
            Err(DecodeError::MissingRequiredField("consumer"))
        } else if sget_num(es, "pull"@, 0 as int, usize::MAX as int) is Err {
            Err(DecodeError::MalformedField("pull", "expected an unsigned integer"))
        } else if sget_bool(es, "mack"@) is Err {
            Err(DecodeError::MalformedField("mack", "expected a boolean"))
        } else if sget_obj(es, "cfg"@) is Err {
            Err(DecodeError::MalformedField("cfg", "expected an object"))
        } else if sget_obj(es, "cfg"@) == Ok::<_, ()>(None::<Doc>) {
            Err(DecodeError::MissingRequiredField("cfg"))
        } else if ConsumerConfig::spec_decode(sget_obj(es, "cfg"@)->Ok_0.unwrap()) is Err {
            Err(ConsumerConfig::spec_decode(sget_obj(es, "cfg"@)->Ok_0.unwrap())->Err_0)
        } else {
            Ok(SubOpts {
                stream: sget_str(es, "stream"@)->Ok_0.unwrap(),
                consumer: sget_str(es, "consumer"@)->Ok_0.unwrap(),
                pull: match sget_num(es, "pull"@, 0 as int, usize::MAX as int)->Ok_0 {
                    Some(n) => n as usize,
                    None => 0 as usize,
                },
                mack: match sget_bool(es, "mack"@)->Ok_0 {
                    Some(b) => b,
                    None => false,
                },
                cfg: ConsumerConfig::spec_decode(sget_obj(es, "cfg"@)->Ok_0.unwrap())->Ok_0,
            })
        }
    }

    /// Encodes the record as a wire document: every schema field in
    /// declaration order, every unset optional field omitted.
    pub fn encode(&self) -> (d: Doc)
        requires
            self.wf(),
        ensures
            self.encodes(d),
            forall|k: Seq<char>| !Self::wire_key(k) ==> lookup(d.entries@, k) is None,
    {
        proof {
            reveal_sub_opts_keys();
        }
        let mut d = Doc::new();
        d.put("stream", Entry::Str(self.stream.clone()));
        d.put("consumer", Entry::Str(self.consumer.clone()));
        d.put("pull", Entry::Num(self.pull as i128));
        d.put("mack", Entry::Bool(self.mack));
        d.put("cfg", Entry::Obj(self.cfg.encode()));
        d
    }

    /// Decodes a wire document, ignoring unknown fields; a faithful wire form
    /// of any well-formed record decodes back to exactly it.
    pub fn decode(d: &Doc) -> (r: Result<SubOpts, DecodeError>)
        ensures
            r == Self::spec_decode(*d),
            forall|c: SubOpts| c.wf() && c.encodes(*d) ==> r == Ok::<_, DecodeError>(c),
    {
        proof {
            reveal_sub_opts_keys();
        }
        let stream = match d.get_str("stream") {
            Ok(Some(s)) => s,
            Ok(None) => return Err(DecodeError::MissingRequiredField("stream")),
            Err(()) => return Err(DecodeError::MalformedField("stream", "expected text")),
        };
        let consumer = match d.get_str("consumer") {
            Ok(Some(s)) => s,
            Ok(None) => return Err(DecodeError::MissingRequiredField("consumer")),
            Err(()) => return Err(DecodeError::MalformedField("consumer", "expected text")),
        };
        let pull = match d.get_num("pull", 0 as i128, usize::MAX as i128) {
            Ok(None) => 0,
            Ok(Some(n)) => n as usize,
            Err(()) => return Err(
                DecodeError::MalformedField("pull", "expected an unsigned integer"),
            ),
        };
        let mack = match d.get_bool("mack") {
            Ok(None) => false,
            Ok(Some(b)) => b,
            Err(()) => return Err(DecodeError::MalformedField("mack", "expected a boolean")),
        };
        let cfg = match d.get_obj("cfg") {
            Ok(Some(sub)) => match ConsumerConfig::decode(sub) {
                Ok(v) => v,
                Err(e) => return Err(e),
            },
            Ok(None) => return Err(DecodeError::MissingRequiredField("cfg")),
            Err(()) => return Err(DecodeError::MalformedField("cfg", "expected an object")),
        };
        Ok(SubOpts { stream, consumer, pull, mack, cfg })
    }
}

impl Default for SubOpts {
    /// Every field at its zero, empty, unset, or inner-default value.
    fn default() -> (r: SubOpts)
        ensures
            SubOpts::is_default(r),
            r.wf(),
    {
        SubOpts {
            stream: String::new(),
            consumer: String::new(),
            pull: 0,
            mack: false,
            cfg: ConsumerConfig::default(),
        }
    }
}

/// Makes the subscribe-options schema's key texts and their distinctness available.
pub proof fn reveal_sub_opts_keys()
    ensures
        ("stream"@).len() == 6,
        ("consumer"@).len() == 8,
        ("pull"@).len() == 4,
        ("mack"@).len() == 4,
        ("cfg"@).len() == 3,
        ("mack"@)[0] == 'm',
        ("pull"@)[0] == 'p',
{
    reveal_strlit("stream");
    reveal_strlit("consumer");
    reveal_strlit("pull");
    reveal_strlit("mack");
    reveal_strlit("cfg");
}

/// Options carried by a publish: a deduplication id and the
/// expectations the broker must check before storing.
#[derive(Debug, Clone, PartialEq)]
pub struct PubOpts {
    /// How long to wait for the acknowledgment, in nanoseconds.
    pub ttl: isize,
    /// The message's deduplication id.
    pub id: String,
    /// The last message id the broker is expected to hold.
    pub lid: String,
    /// The stream expected to store the message, under the wire key `str`.
    pub stream: String,
    /// The last sequence the broker is expected to hold.
    pub seq: u64,
}

impl PubOpts {
    /// Every field at its zero, empty, unset, or inner-default value.
    pub open spec fn is_default(c: PubOpts) -> bool {
        &&& c.ttl == 0
        &&& c.id@.len() == 0
        &&& c.lid@.len() == 0
        &&& c.stream@.len() == 0
        &&& c.seq == 0
    }

    /// The keys of the pub-opts schema.
    pub open spec fn wire_key(k: Seq<char>) -> bool {
        k == "ttl"@ || k == "id"@ || k == "lid"@ || k == "str"@ || k == "seq"@
    }

    /// The document `d` is a faithful wire form of `self`: every schema field
    /// reads back exactly, and every unset optional field has no key at all.
    pub open spec fn encodes(self, d: Doc) -> bool {
        let es = d.entries@;
        &&& lookup(es, "ttl"@) == Some(Entry::Num(self.ttl as i128))
        &&& lookup(es, "id"@) == Some(Entry::Str(self.id))
        &&& lookup(es, "lid"@) == Some(Entry::Str(self.lid))
        &&& lookup(es, "str"@) == Some(Entry::Str(self.stream))
        &&& lookup(es, "seq"@) == Some(Entry::Num(self.seq as i128))
    }

    /// What decoding a document yields: the record on success, the first
    /// offending field's error otherwise, fields read in declaration order.
    pub open spec fn spec_decode(d: Doc) -> Result<PubOpts, DecodeError> {
        let es = d.entries@;
        if sget_num(es, "ttl"@, isize::MIN as int, isize::MAX as int) is Err {
            Err(DecodeError::MalformedField("ttl", "expected an integer"))
        } else if sget_str(es, "id"@) is Err {
            Err(DecodeError::MalformedField("id", "expected text"))
        } else if sget_str(es, "id"@) == Ok::<_, ()>(None::<String>) {
            Err(DecodeError::MissingRequiredField("id"))
        } else if sget_str(es, "lid"@) is Err {
            Err(DecodeError::MalformedField("lid", "expected text"))
        } else if sget_str(es, "lid"@) == Ok::<_, ()>(None::<String>) {
            Err(DecodeError::MissingRequiredField("lid"))
        } else if sget_str(es, "str"@) is Err {
            Err(DecodeError::MalformedField("str", "expected text"))
        } else if sget_str(es, "str"@) == Ok::<_, ()>(None::<String>) {
            Err(DecodeError::MissingRequiredField("str"))
        } else if sget_num(es, "seq"@, 0 as int, u64::MAX as int) is Err {
            Err(DecodeError::MalformedField("seq", "expected an unsigned integer"))
        } else {
            Ok(PubOpts {
                ttl: match sget_num(es, "ttl"@, isize::MIN as int, isize::MAX as int)->Ok_0 {
                    Some(n) => n as isize,
                    None => 0 as isize,
                },
                id: sget_str(es, "id"@)->Ok_0.unwrap(),
                lid: sget_str(es, "lid"@)->Ok_0.unwrap(),
                stream: sget_str(es, "str"@)->Ok_0.unwrap(),
                seq: match sget_num(es, "seq"@, 0 as int, u64::MAX as int)->Ok_0 {
                    Some(n) => n as u64,
                    None => 0 as u64,
                },
            })
        }
    }

    /// Encodes the record as a wire document: every schema field in
    /// declaration order, every unset optional field omitted.
    pub fn encode(&self) -> (d: Doc)
        ensures
            self.encodes(d),
            forall|k: Seq<char>| !Self::wire_key(k) ==> lookup(d.entries@, k) is None,
    {
        proof {
            reveal_pub_opts_keys();
        }
        let mut d = Doc::new();
        d.put("ttl", Entry::Num(self.ttl as i128));
        d.put("id", Entry::Str(self.id.clone()));
        d.put("lid", Entry::Str(self.lid.clone()));
        d.put("str", Entry::Str(self.stream.clone()));
        d.put("seq", Entry::Num(self.seq as i128));
        d
    }

    /// Decodes a wire document, ignoring unknown fields; a faithful wire form
    /// of any well-formed record decodes back to exactly it.
    pub fn decode(d: &Doc) -> (r: Result<PubOpts, DecodeError>)
        ensures
            r == Self::spec_decode(*d),
            forall|c: PubOpts| c.encodes(*d) ==> r == Ok::<_, DecodeError>(c),
    {
        proof {
            reveal_pub_opts_keys();
        }
        let ttl = match d.get_num("ttl", isize::MIN as i128, isize::MAX as i128) {
            Ok(None) => 0,
            Ok(Some(n)) => n as isize,
            Err(()) => return Err(
                DecodeError::MalformedField("ttl", "expected an integer"),
            ),
        };
        let id = match d.get_str("id") {
            Ok(Some(s)) => s,
            Ok(None) => return Err(DecodeError::MissingRequiredField("id")),
            Err(()) => return Err(DecodeError::MalformedField("id", "expected text")),
        };
        let lid = match d.get_str("lid") {
            Ok(Some(s)) => s,
            Ok(None) => return Err(DecodeError::MissingRequiredField("lid")),
            Err(()) => return Err(DecodeError::MalformedField("lid", "expected text")),
        };
        let stream = match d.get_str("str") {
            Ok(Some(s)) => s,
            Ok(None) => return Err(DecodeError::MissingRequiredField("str")),
            Err(()) => return Err(DecodeError::MalformedField("str", "expected text")),
        };
        let seq = match d.get_num("seq", 0 as i128, u64::MAX as i128) {
            Ok(None) => 0,
            Ok(Some(n)) => n as u64,
            Err(()) => return Err(
                DecodeError::MalformedField("seq", "expected an unsigned integer"),
            ),
        };
        Ok(PubOpts { ttl, id, lid, stream, seq })
    }
}

impl Default for PubOpts {
    /// Every field at its zero, empty, unset, or inner-default value.
    fn default() -> (r: PubOpts)
        ensures
            PubOpts::is_default(r),
    {
        PubOpts {
            ttl: 0,
            id: String::new(),
            lid: String::new(),
            stream: String::new(),
            seq: 0,
        }
    }
}

/// Makes the publish-options schema's key texts and their distinctness available.
pub proof fn reveal_pub_opts_keys()
    ensures
        ("ttl"@).len() == 3,
        ("id"@).len() == 2,
        ("lid"@).len() == 3,
        ("str"@).len() == 3,
        ("seq"@).len() == 3,
        ("lid"@)[0] == 'l',
        ("seq"@)[0] == 's',
        ("seq"@)[1] == 'e',
        ("str"@)[0] == 's',
        ("str"@)[1] == 't',
        ("ttl"@)[0] == 't',
{
    reveal_strlit("ttl");
    reveal_strlit("id");
    reveal_strlit("lid");
    reveal_strlit("str");
    reveal_strlit("seq");
}

} // verus!

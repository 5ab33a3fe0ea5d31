//! Policy enumerations: closed sets of named alternatives, each with a
//! documented default and a stable lowercase wire tag that is independent of
//! declaration order. Tags travel as text, never as numeric ordinals, and an
//! unrecognized tag is reported rather than coerced to the default.

use vstd::prelude::*;
use crate::error::DecodeError;
use crate::wire::{sget_str, str_eq, Doc, Entry};

verus! {

/// How a consumer selects the first message to deliver.
#[derive(Debug, Clone, Copy, PartialEq, Eq, Structural)]
pub enum DeliverPolicy {
    /// Deliver everything the stream retains. The default.
    DeliverAllPolicy,
    /// Start with the last sequence received.
    DeliverLastPolicy,
    /// Deliver only messages sent after the consumer is created.
    DeliverNewPolicy,
    /// Start at a caller-given stream sequence.
    DeliverByStartSequencePolicy,
    /// Start at the first message with a timestamp at or past a caller-given instant.
    DeliverByStartTimePolicy,
}

impl DeliverPolicy {
    /// The documented wire tag of each variant.
    pub open spec fn spec_tag(self) -> Seq<char> {
        match self {
            DeliverPolicy::DeliverAllPolicy => "all"@,
            DeliverPolicy::DeliverLastPolicy => "last"@,
            DeliverPolicy::DeliverNewPolicy => "new"@,
            DeliverPolicy::DeliverByStartSequencePolicy => "by_start_sequence"@,
            DeliverPolicy::DeliverByStartTimePolicy => "by_start_time"@,
        }
    }

    /// The variant a wire tag names, if any.
    pub open spec fn spec_from_tag(s: Seq<char>) -> Option<DeliverPolicy> {
        if s == "all"@ {
            Some(DeliverPolicy::DeliverAllPolicy)
        } else if s == "last"@ {
            Some(DeliverPolicy::DeliverLastPolicy)
        } else if s == "new"@ {
            Some(DeliverPolicy::DeliverNewPolicy)
        } else if s == "by_start_sequence"@ {
            Some(DeliverPolicy::DeliverByStartSequencePolicy)
        } else if s == "by_start_time"@ {
            Some(DeliverPolicy::DeliverByStartTimePolicy)
        } else {
            None
        }
    }

    /// Encodes the variant as its documented wire tag.
    pub fn wire_tag(&self) -> (r: &'static str)
        ensures
            r@ == self.spec_tag(),
    {
        match self {
            DeliverPolicy::DeliverAllPolicy => "all",
            DeliverPolicy::DeliverLastPolicy => "last",
            DeliverPolicy::DeliverNewPolicy => "new",
            DeliverPolicy::DeliverByStartSequencePolicy => "by_start_sequence",
            DeliverPolicy::DeliverByStartTimePolicy => "by_start_time",
        }
    }

    /// Decodes a wire tag; an unrecognized tag yields `None`, never a default.
    pub fn from_wire_tag(s: &str) -> (r: Option<DeliverPolicy>)
        ensures
            r == Self::spec_from_tag(s@),
    {
        if str_eq(s, "all") {
            Some(DeliverPolicy::DeliverAllPolicy)
        } else if str_eq(s, "last") {
            Some(DeliverPolicy::DeliverLastPolicy)
        } else if str_eq(s, "new") {
            Some(DeliverPolicy::DeliverNewPolicy)
        } else if str_eq(s, "by_start_sequence") {
            Some(DeliverPolicy::DeliverByStartSequencePolicy)
        } else if str_eq(s, "by_start_time") {
            Some(DeliverPolicy::DeliverByStartTimePolicy)
        } else {
            None
        }
    }
}

impl Default for DeliverPolicy {
    fn default() -> (r: DeliverPolicy)
        ensures
            r == DeliverPolicy::DeliverAllPolicy,
    {
        DeliverPolicy::DeliverAllPolicy
    }
}

/// Every delivery-policy variant's documented tag decodes back to exactly
/// that variant.
pub broadcast proof fn lemma_deliver_policy_tags_total(p: DeliverPolicy)
    ensures
        #[trigger] DeliverPolicy::spec_from_tag(p.spec_tag()) == Some(p),
{
    reveal_strlit("all");
    reveal_strlit("last");
    reveal_strlit("new");
    reveal_strlit("by_start_sequence");
    reveal_strlit("by_start_time");
    assert(("all"@).len() == 3 && ("all"@)[0] == 'a');
    assert(("last"@).len() == 4);
    assert(("new"@).len() == 3 && ("new"@)[0] == 'n');
    assert(("by_start_sequence"@).len() == 17);
    assert(("by_start_time"@).len() == 13);
    match p {
        DeliverPolicy::DeliverAllPolicy => assert(DeliverPolicy::spec_from_tag("all"@) == Some(p)),
        DeliverPolicy::DeliverLastPolicy => assert(DeliverPolicy::spec_from_tag("last"@) == Some(p)),
        DeliverPolicy::DeliverNewPolicy => assert(DeliverPolicy::spec_from_tag("new"@) == Some(p)),
        DeliverPolicy::DeliverByStartSequencePolicy => assert(DeliverPolicy::spec_from_tag(
            "by_start_sequence"@,
        ) == Some(p)),
        DeliverPolicy::DeliverByStartTimePolicy => assert(DeliverPolicy::spec_from_tag(
            "by_start_time"@,
        ) == Some(p)),
    }
}

/// When the broker expects a message acknowledgment.
#[derive(Debug, Clone, Copy, PartialEq, Eq, Structural)]
pub enum AckPolicy {
    /// No acknowledgment expected.
    AckNone,
    /// Acknowledging one message acknowledges all before it.
    AckAll,
    /// Each message is acknowledged on its own. The default.
    AckExplicit,
}

impl AckPolicy {
    /// The documented wire tag of each variant.
    pub open spec fn spec_tag(self) -> Seq<char> {
        match self {
            AckPolicy::AckNone => "none"@,
            AckPolicy::AckAll => "all"@,
            AckPolicy::AckExplicit => "explicit"@,
        }
    }

    /// The variant a wire tag names, if any.
    pub open spec fn spec_from_tag(s: Seq<char>) -> Option<AckPolicy> {
        if s == "none"@ {
            Some(AckPolicy::AckNone)
        } else if s == "all"@ {
            Some(AckPolicy::AckAll)
        } else if s == "explicit"@ {
            Some(AckPolicy::AckExplicit)
        } else {
            None
        }
    }

    /// Encodes the variant as its documented wire tag.
    pub fn wire_tag(&self) -> (r: &'static str)
        ensures
            r@ == self.spec_tag(),
    {
        match self {
            AckPolicy::AckNone => "none",
            AckPolicy::AckAll => "all",
            AckPolicy::AckExplicit => "explicit",
        }
    }

    /// Decodes a wire tag; an unrecognized tag yields `None`, never a default.
    pub fn from_wire_tag(s: &str) -> (r: Option<AckPolicy>)
        ensures
            r == Self::spec_from_tag(s@),
    {
        if str_eq(s, "none") {
            Some(AckPolicy::AckNone)
        } else if str_eq(s, "all") {
            Some(AckPolicy::AckAll)
        } else if str_eq(s, "explicit") {
            Some(AckPolicy::AckExplicit)
        } else {
            None
        }
    }
}

impl Default for AckPolicy {
    fn default() -> (r: AckPolicy)
        ensures
            r == AckPolicy::AckExplicit,
    {
        AckPolicy::AckExplicit
    }
}

/// Every acknowledgment-policy variant's documented tag decodes back to
/// exactly that variant.
pub broadcast proof fn lemma_ack_policy_tags_total(p: AckPolicy)
    ensures
        #[trigger] AckPolicy::spec_from_tag(p.spec_tag()) == Some(p),
{
    reveal_strlit("none");
    reveal_strlit("all");
    reveal_strlit("explicit");
    assert(("none"@).len() == 4);
    assert(("all"@).len() == 3);
    assert(("explicit"@).len() == 8);
}

/// The pace at which retained messages are replayed.
#[derive(Debug, Clone, Copy, PartialEq, Eq, Structural)]
pub enum ReplayPolicy {
    /// As fast as possible. The default.
    ReplayInstant,
    /// At the original receive pace.
    ReplayOriginal,
}

impl ReplayPolicy {
    /// The documented wire tag of each variant.
    pub open spec fn spec_tag(self) -> Seq<char> {
        match self {
            ReplayPolicy::ReplayInstant => "instant"@,
            ReplayPolicy::ReplayOriginal => "original"@,
        }
    }

    /// The variant a wire tag names, if any.
    pub open spec fn spec_from_tag(s: Seq<char>) -> Option<ReplayPolicy> {
        if s == "instant"@ {
            Some(ReplayPolicy::ReplayInstant)
        } else if s == "original"@ {
            Some(ReplayPolicy::ReplayOriginal)
        } else {
            None
        }
    }

    /// Encodes the variant as its documented wire tag.
    pub fn wire_tag(&self) -> (r: &'static str)
        ensures
            r@ == self.spec_tag(),
    {
        match self {
            ReplayPolicy::ReplayInstant => "instant",
            ReplayPolicy::ReplayOriginal => "original",
        }
    }

    /// Decodes a wire tag; an unrecognized tag yields `None`, never a default.
    pub fn from_wire_tag(s: &str) -> (r: Option<ReplayPolicy>)
        ensures
            r == Self::spec_from_tag(s@),
    {
        if str_eq(s, "instant") {
            Some(ReplayPolicy::ReplayInstant)
        } else if str_eq(s, "original") {
            Some(ReplayPolicy::ReplayOriginal)
        } else {
            None
        }
    }
}

impl Default for ReplayPolicy {
    fn default() -> (r: ReplayPolicy)
        ensures
            r == ReplayPolicy::ReplayInstant,
    {
        ReplayPolicy::ReplayInstant
    }
}

/// Every replay-policy variant's documented tag decodes back to exactly that
/// variant.
pub broadcast proof fn lemma_replay_policy_tags_total(p: ReplayPolicy)
    ensures
        #[trigger] ReplayPolicy::spec_from_tag(p.spec_tag()) == Some(p),
{
    reveal_strlit("instant");
    reveal_strlit("original");
    assert(("instant"@).len() == 7);
    assert(("original"@).len() == 8);
}

/// When a stream may discard retained messages.
#[derive(Debug, Clone, Copy, PartialEq, Eq, Structural)]
pub enum RetentionPolicy {
    /// Retain until a size, count, or age limit is reached. The default.
    LimitsPolicy,
    /// Remove a message once every known consumer acknowledged it.
    InterestPolicy,
    /// Remove a message once the first worker acknowledged it.
    WorkQueuePolicy,
}

impl RetentionPolicy {
    /// The documented wire tag of each variant.
    pub open spec fn spec_tag(self) -> Seq<char> {
        match self {
            RetentionPolicy::LimitsPolicy => "limits"@,
            RetentionPolicy::InterestPolicy => "interest"@,
            RetentionPolicy::WorkQueuePolicy => "workqueue"@,
        }
    }

    /// The variant a wire tag names, if any.
    pub open spec fn spec_from_tag(s: Seq<char>) -> Option<RetentionPolicy> {
        if s == "limits"@ {
            Some(RetentionPolicy::LimitsPolicy)
        } else if s == "interest"@ {
            Some(RetentionPolicy::InterestPolicy)
        } else if s == "workqueue"@ {
            Some(RetentionPolicy::WorkQueuePolicy)
        } else {
            None
        }
    }

    /// Encodes the variant as its documented wire tag.
    pub fn wire_tag(&self) -> (r: &'static str)
        ensures
            r@ == self.spec_tag(),
    {
        match self {
            RetentionPolicy::LimitsPolicy => "limits",
            RetentionPolicy::InterestPolicy => "interest",
            RetentionPolicy::WorkQueuePolicy => "workqueue",
        }
    }

    /// Decodes a wire tag; an unrecognized tag yields `None`, never a default.
    pub fn from_wire_tag(s: &str) -> (r: Option<RetentionPolicy>)
        ensures
            r == Self::spec_from_tag(s@),
    {
        if str_eq(s, "limits") {
            Some(RetentionPolicy::LimitsPolicy)
        } else if str_eq(s, "interest") {
            Some(RetentionPolicy::InterestPolicy)
        } else if str_eq(s, "workqueue") {
            Some(RetentionPolicy::WorkQueuePolicy)
        } else {
            None
        }
    }
}

impl Default for RetentionPolicy {
    fn default() -> (r: RetentionPolicy)
        ensures
            r == RetentionPolicy::LimitsPolicy,
    {
        RetentionPolicy::LimitsPolicy
    }
}

/// Every retention-policy variant's documented tag decodes back to exactly
/// that variant.
pub broadcast proof fn lemma_retention_policy_tags_total(p: RetentionPolicy)
    ensures
        #[trigger] RetentionPolicy::spec_from_tag(p.spec_tag()) == Some(p),
{
    reveal_strlit("limits");
    reveal_strlit("interest");
    reveal_strlit("workqueue");
    assert(("limits"@).len() == 6);
    assert(("interest"@).len() == 8);
    assert(("workqueue"@).len() == 9);
}

/// How a full stream makes room, or refuses to.
#[derive(Debug, Clone, Copy, PartialEq, Eq, Structural)]
pub enum DiscardPolicy {
    /// Remove older messages to return under the limits. The default.
    DiscardOld,
    /// Refuse to store a new message instead.
    DiscardNew,
}

impl DiscardPolicy {
    /// The documented wire tag of each variant.
    pub open spec fn spec_tag(self) -> Seq<char> {
        match self {
            DiscardPolicy::DiscardOld => "old"@,
            DiscardPolicy::DiscardNew => "new"@,
        }
    }

    /// The variant a wire tag names, if any.
    pub open spec fn spec_from_tag(s: Seq<char>) -> Option<DiscardPolicy> {
        if s == "old"@ {
            Some(DiscardPolicy::DiscardOld)
        } else if s == "new"@ {
            Some(DiscardPolicy::DiscardNew)
        } else {
            None
        }
    }

    /// Encodes the variant as its documented wire tag.
    pub fn wire_tag(&self) -> (r: &'static str)
        ensures
            r@ == self.spec_tag(),
    {
        match self {
            DiscardPolicy::DiscardOld => "old",
            DiscardPolicy::DiscardNew => "new",
        }
    }

    /// Decodes a wire tag; an unrecognized tag yields `None`, never a default.
    pub fn from_wire_tag(s: &str) -> (r: Option<DiscardPolicy>)
        ensures
            r == Self::spec_from_tag(s@),
    {
        if str_eq(s, "old") {
            Some(DiscardPolicy::DiscardOld)
        } else if str_eq(s, "new") {
            Some(DiscardPolicy::DiscardNew)
        } else {
            None
        }
    }
}

impl Default for DiscardPolicy {
    fn default() -> (r: DiscardPolicy)
        ensures
            r == DiscardPolicy::DiscardOld,
    {
        DiscardPolicy::DiscardOld
    }
}

/// Every discard-policy variant's documented tag decodes back to exactly that
/// variant.
pub broadcast proof fn lemma_discard_policy_tags_total(p: DiscardPolicy)
    ensures
        #[trigger] DiscardPolicy::spec_from_tag(p.spec_tag()) == Some(p),
{
    reveal_strlit("old");
    reveal_strlit("new");
    assert(("old"@).len() == 3 && ("old"@)[0] == 'o');
    assert(("new"@).len() == 3 && ("new"@)[0] == 'n');
}

/// Where retained messages live.
#[derive(Debug, Clone, Copy, PartialEq, Eq, Structural)]
pub enum StorageType {
    /// On disk. The default.
    FileStorage,
    /// In memory only.
    MemoryStorage,
}

impl StorageType {
    /// The documented wire tag of each variant.
    pub open spec fn spec_tag(self) -> Seq<char> {
        match self {
            StorageType::FileStorage => "file"@,
            StorageType::MemoryStorage => "memory"@,
        }
    }

    /// The variant a wire tag names, if any.
    pub open spec fn spec_from_tag(s: Seq<char>) -> Option<StorageType> {
        if s == "file"@ {
            Some(StorageType::FileStorage)
        } else if s == "memory"@ {
            Some(StorageType::MemoryStorage)
        } else {
            None
        }
    }

    /// Encodes the variant as its documented wire tag.
    pub fn wire_tag(&self) -> (r: &'static str)
        ensures
            r@ == self.spec_tag(),
    {
        match self {
            StorageType::FileStorage => "file",
            StorageType::MemoryStorage => "memory",
        }
    }

    /// Decodes a wire tag; an unrecognized tag yields `None`, never a default.
    pub fn from_wire_tag(s: &str) -> (r: Option<StorageType>)
        ensures
            r == Self::spec_from_tag(s@),
    {
        if str_eq(s, "file") {
            Some(StorageType::FileStorage)
        } else if str_eq(s, "memory") {
            Some(StorageType::MemoryStorage)
        } else {
            None
        }
    }
}

impl Default for StorageType {
    fn default() -> (r: StorageType)
        ensures
            r == StorageType::FileStorage,
    {
        StorageType::FileStorage
    }
}

/// Every storage-type variant's documented tag decodes back to exactly that
/// variant.
pub broadcast proof fn lemma_storage_type_tags_total(p: StorageType)
    ensures
        #[trigger] StorageType::spec_from_tag(p.spec_tag()) == Some(p),
{
    reveal_strlit("file");
    reveal_strlit("memory");
    assert(("file"@).len() == 4);
    assert(("memory"@).len() == 6);
}


/// A delivery-policy field read under the key `deliver_policy`: the documented default
/// when absent, the named variant when the tag is recognized, and the exact
/// error otherwise.
pub open spec fn sget_deliver_policy(s: Seq<(String, Entry)>) -> Result<DeliverPolicy, DecodeError> {
    match sget_str(s, "deliver_policy"@) {
        Err(_) => Err(DecodeError::MalformedField("deliver_policy", "expected a policy tag")),
        Ok(None) => Ok(DeliverPolicy::DeliverAllPolicy),
        Ok(Some(t)) => match DeliverPolicy::spec_from_tag(t@) {
            Some(p) => Ok(p),
            None => Err(DecodeError::UnknownVariant("DeliverPolicy", t)),
        },
    }
}

/// Reads a delivery-policy field, defaulting when absent and refusing an
/// unrecognized tag.
pub fn get_deliver_policy(d: &Doc) -> (r: Result<DeliverPolicy, DecodeError>)
    ensures
        r == sget_deliver_policy(d.entries@),
{
    match d.get_str("deliver_policy") {
        Err(()) => Err(DecodeError::MalformedField("deliver_policy", "expected a policy tag")),
        Ok(None) => Ok(DeliverPolicy::default()),
        Ok(Some(t)) => match DeliverPolicy::from_wire_tag(t.as_str()) {
            Some(p) => Ok(p),
            None => Err(DecodeError::UnknownVariant("DeliverPolicy", t)),
        },
    }
}

/// A acknowledgment-policy field read under the key `ack_policy`: the documented default
/// when absent, the named variant when the tag is recognized, and the exact
/// error otherwise.
pub open spec fn sget_ack_policy(s: Seq<(String, Entry)>) -> Result<AckPolicy, DecodeError> {
    match sget_str(s, "ack_policy"@) {
        Err(_) => Err(DecodeError::MalformedField("ack_policy", "expected a policy tag")),
        Ok(None) => Ok(AckPolicy::AckExplicit),
        Ok(Some(t)) => match AckPolicy::spec_from_tag(t@) {
            Some(p) => Ok(p),
            None => Err(DecodeError::UnknownVariant("AckPolicy", t)),
        },
    }
}

/// Reads a acknowledgment-policy field, defaulting when absent and refusing an
/// unrecognized tag.
pub fn get_ack_policy(d: &Doc) -> (r: Result<AckPolicy, DecodeError>)
    ensures
        r == sget_ack_policy(d.entries@),
{
    match d.get_str("ack_policy") {
        Err(()) => Err(DecodeError::MalformedField("ack_policy", "expected a policy tag")),
        Ok(None) => Ok(AckPolicy::default()),
        Ok(Some(t)) => match AckPolicy::from_wire_tag(t.as_str()) {
            Some(p) => Ok(p),
            None => Err(DecodeError::UnknownVariant("AckPolicy", t)),
        },
    }
}

/// A replay-policy field read under the key `replay_policy`: the documented default
/// when absent, the named variant when the tag is recognized, and the exact
/// error otherwise.
pub open spec fn sget_replay_policy(s: Seq<(String, Entry)>) -> Result<ReplayPolicy, DecodeError> {
    match sget_str(s, "replay_policy"@) {
        Err(_) => Err(DecodeError::MalformedField("replay_policy", "expected a policy tag")),
        Ok(None) => Ok(ReplayPolicy::ReplayInstant),
        Ok(Some(t)) => match ReplayPolicy::spec_from_tag(t@) {
            Some(p) => Ok(p),
            None => Err(DecodeError::UnknownVariant("ReplayPolicy", t)),
        },
    }
}

/// Reads a replay-policy field, defaulting when absent and refusing an
/// unrecognized tag.
pub fn get_replay_policy(d: &Doc) -> (r: Result<ReplayPolicy, DecodeError>)
    ensures
        r == sget_replay_policy(d.entries@),
{
    match d.get_str("replay_policy") {
        Err(()) => Err(DecodeError::MalformedField("replay_policy", "expected a policy tag")),
        Ok(None) => Ok(ReplayPolicy::default()),
        Ok(Some(t)) => match ReplayPolicy::from_wire_tag(t.as_str()) {
            Some(p) => Ok(p),
            None => Err(DecodeError::UnknownVariant("ReplayPolicy", t)),
        },
    }
}

/// A retention-policy field read under the key `retention`: the documented default
/// when absent, the named variant when the tag is recognized, and the exact
/// error otherwise.
pub open spec fn sget_retention(s: Seq<(String, Entry)>) -> Result<RetentionPolicy, DecodeError> {
    match sget_str(s, "retention"@) {
        Err(_) => Err(DecodeError::MalformedField("retention", "expected a policy tag")),
        Ok(None) => Ok(RetentionPolicy::LimitsPolicy),
        Ok(Some(t)) => match RetentionPolicy::spec_from_tag(t@) {
            Some(p) => Ok(p),
            None => Err(DecodeError::UnknownVariant("RetentionPolicy", t)),
        },
    }
}

/// Reads a retention-policy field, defaulting when absent and refusing an
/// unrecognized tag.
pub fn get_retention(d: &Doc) -> (r: Result<RetentionPolicy, DecodeError>)
    ensures
        r == sget_retention(d.entries@),
{
    match d.get_str("retention") {
        Err(()) => Err(DecodeError::MalformedField("retention", "expected a policy tag")),
        Ok(None) => Ok(RetentionPolicy::default()),
        Ok(Some(t)) => match RetentionPolicy::from_wire_tag(t.as_str()) {
            Some(p) => Ok(p),
            None => Err(DecodeError::UnknownVariant("RetentionPolicy", t)),
        },
    }
}

/// A discard-policy field read under the key `discard`: the documented default
/// when absent, the named variant when the tag is recognized, and the exact
/// error otherwise.
pub open spec fn sget_discard(s: Seq<(String, Entry)>) -> Result<DiscardPolicy, DecodeError> {
    match sget_str(s, "discard"@) {
        Err(_) => Err(DecodeError::MalformedField("discard", "expected a policy tag")),
        Ok(None) => Ok(DiscardPolicy::DiscardOld),
        Ok(Some(t)) => match DiscardPolicy::spec_from_tag(t@) {
            Some(p) => Ok(p),
            None => Err(DecodeError::UnknownVariant("DiscardPolicy", t)),
        },
    }
}

/// Reads a discard-policy field, defaulting when absent and refusing an
/// unrecognized tag.
pub fn get_discard(d: &Doc) -> (r: Result<DiscardPolicy, DecodeError>)
    ensures
        r == sget_discard(d.entries@),
{
    match d.get_str("discard") {
        Err(()) => Err(DecodeError::MalformedField("discard", "expected a policy tag")),
        Ok(None) => Ok(DiscardPolicy::default()),
        Ok(Some(t)) => match DiscardPolicy::from_wire_tag(t.as_str()) {
            Some(p) => Ok(p),
            None => Err(DecodeError::UnknownVariant("DiscardPolicy", t)),
        },
    }
}

/// A storage-type field read under the key `storage`: the documented default
/// when absent, the named variant when the tag is recognized, and the exact
/// error otherwise.
pub open spec fn sget_storage(s: Seq<(String, Entry)>) -> Result<StorageType, DecodeError> {
    match sget_str(s, "storage"@) {
        Err(_) => Err(DecodeError::MalformedField("storage", "expected a policy tag")),
        Ok(None) => Ok(StorageType::FileStorage),
        Ok(Some(t)) => match StorageType::spec_from_tag(t@) {
            Some(p) => Ok(p),
            None => Err(DecodeError::UnknownVariant("StorageType", t)),
        },
    }
}

/// Reads a storage-type field, defaulting when absent and refusing an
/// unrecognized tag.
pub fn get_storage(d: &Doc) -> (r: Result<StorageType, DecodeError>)
    ensures
        r == sget_storage(d.entries@),
{
    match d.get_str("storage") {
        Err(()) => Err(DecodeError::MalformedField("storage", "expected a policy tag")),
        Ok(None) => Ok(StorageType::default()),
        Ok(Some(t)) => match StorageType::from_wire_tag(t.as_str()) {
            Some(p) => Ok(p),
            None => Err(DecodeError::UnknownVariant("StorageType", t)),
        },
    }
}

} // verus!

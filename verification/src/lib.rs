//! Control-plane data model for a message-streaming broker: policy
//! enumerations, stream and consumer configuration records, broker-authored
//! status snapshots, and request envelopes, together with their wire codec.
//!
//! Every record is a plain value: constructed, optionally encoded to or
//! decoded from a [`wire::Doc`], and discarded. Decoding tolerates unknown
//! fields and fills documented defaults for absent ones; it never silently
//! coerces an unrecognized enumeration tag to a default.

pub mod error;
pub mod wire;
pub mod time;
pub mod policy;
pub mod config;
pub mod status;
pub mod envelope;

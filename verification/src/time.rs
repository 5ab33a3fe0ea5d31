//! The canonical UTC timestamp: an absolute point in time held as whole
//! seconds since the Unix epoch plus a sub-second nanosecond part. Its
//! default is the epoch itself, not an unset sentinel; callers that need
//! absence wrap it in an `Option`. On the wire a timestamp is an RFC 3339
//! text field, kept to at least millisecond resolution.

use vstd::prelude::*;
use crate::wire::{lookup, Doc, Entry};

verus! {

/// Earliest representable wire instant: 0001-01-01T00:00:00Z.
pub const MIN_TIME_SECS: i64 = -62135596800;

/// Latest representable wire instant: 9999-12-31T23:59:59Z.
pub const MAX_TIME_SECS: i64 = 253402300799;

/// An instant that the four-digit-year RFC 3339 wire form can carry.
pub open spec fn time_valid(secs: int, nanos: int) -> bool {
    &&& MIN_TIME_SECS as int <= secs <= MAX_TIME_SECS as int
    &&& 0 <= nanos < 1_000_000_000
}

/// An absolute UTC instant.
#[derive(Debug, Clone, Copy, PartialEq, Eq, Structural)]
pub struct DateTime {
    /// Whole seconds since 1970-01-01T00:00:00Z; negative before it.
    pub secs: i64,
    /// Nanoseconds past the whole second, below one billion.
    pub nanos: u32,
}

impl DateTime {
    /// The instant lies in the range the wire form can carry.
    pub open spec fn wf(self) -> bool {
        time_valid(self.secs as int, self.nanos as int)
    }
}

impl Default for DateTime {
    /// The Unix epoch, 1970-01-01T00:00:00Z.
    fn default() -> (r: DateTime)
        ensures
            r.secs == 0 && r.nanos == 0,
            r.wf(),
    {
        DateTime { secs: 0, nanos: 0 }
    }
}

/// The RFC 3339 text that the wire carries for the instant `(secs, nanos)`.
pub uninterp spec fn rfc3339_of(secs: int, nanos: int) -> Seq<char>;

/// The instant read out of an RFC 3339 text, if it parses.
pub uninterp spec fn rfc3339_reading(s: Seq<char>) -> Option<(i64, u32)>;

/// Relies on chrono's `DateTime::<Utc>::from_timestamp` and `to_rfc3339`:
/// formats the instant as RFC 3339 text, a function of the two arguments
/// alone, with the full sub-second part preserved.
#[verifier::external_body]
fn format_rfc3339(secs: i64, nanos: u32) -> (r: String)
    requires
        time_valid(secs as int, nanos as int),
    ensures
        r@ == rfc3339_of(secs as int, nanos as int),
{
    match chrono::DateTime::<chrono::Utc>::from_timestamp(secs, nanos) {
        Some(dt) => dt.to_rfc3339(),
        None => String::new(),
    }
}

/// Relies on chrono's `DateTime::parse_from_rfc3339`: the result depends on
/// the text alone, and parsing a text that `to_rfc3339` produced for an
/// in-range instant gives back exactly that instant.
#[verifier::external_body]
fn parse_rfc3339(s: &str) -> (r: Option<(i64, u32)>)
    ensures
        r == rfc3339_reading(s@),
        forall|se: i64, na: u32|
            time_valid(se as int, na as int) && s@ == rfc3339_of(se as int, na as int) ==> r
                == Some((se, na)),
{
    match chrono::DateTime::parse_from_rfc3339(s) {
        Ok(dt) => {
            let utc = dt.with_timezone(&chrono::Utc);
            Some((utc.timestamp(), utc.timestamp_subsec_nanos()))
        },
        Err(_) => None,
    }
}

/// The wire entry under `e` carries exactly the instant `t`.
pub open spec fn is_time_entry(e: Option<Entry>, t: DateTime) -> bool {
    e matches Some(Entry::Str(s)) && s@ == rfc3339_of(t.secs as int, t.nanos as int)
}

/// A timestamp field that failed to read: not text at all, or text that is
/// no RFC 3339 instant.
#[derive(Debug, Clone, Copy, PartialEq, Eq, Structural)]
pub enum TimeFieldError {
    NotText,
    Unparsable,
}

/// A timestamp field read: absent, carrying an instant, or failed.
pub open spec fn sget_time(s: Seq<(String, Entry)>, key: Seq<char>) -> Result<
    Option<DateTime>,
    TimeFieldError,
> {
    match lookup(s, key) {
        None => Ok(None),
        Some(Entry::Str(t)) => match rfc3339_reading(t@) {
            Some(p) => Ok(Some(DateTime { secs: p.0, nanos: p.1 })),
            None => Err(TimeFieldError::Unparsable),
        },
        Some(_) => Err(TimeFieldError::NotText),
    }
}

/// Appends a timestamp field in its RFC 3339 wire form.
pub fn put_time(d: &mut Doc, key: &str, t: &DateTime)
    requires
        t.wf(),
    ensures
        final(d).entries@.len() == old(d).entries@.len() + 1,
        final(d).entries@ == old(d).entries@.push(final(d).entries@.last()),
        final(d).entries@.last().0@ == key@,
        is_time_entry(Some(final(d).entries@.last().1), *t),
{
    let text = format_rfc3339(t.secs, t.nanos);
    d.put(key, Entry::Str(text));
}

/// Reads a timestamp field; an entry that carries an in-range instant's
/// canonical wire form reads back exactly that instant.
pub fn get_time(d: &Doc, key: &str) -> (r: Result<Option<DateTime>, TimeFieldError>)
    ensures
        r == sget_time(d.entries@, key@),
        forall|t: DateTime|
            t.wf() && is_time_entry(lookup(d.entries@, key@), t) ==> r == Ok::<_, TimeFieldError>(
                Some(t),
            ),
{
    match d.get(key) {
        None => Ok(None),
        Some(e) => match e {
            Entry::Str(t) => match parse_rfc3339(t.as_str()) {
                Some(p) => Ok(Some(DateTime { secs: p.0, nanos: p.1 })),
                None => Err(TimeFieldError::Unparsable),
            },
            _ => Err(TimeFieldError::NotText),
        },
    }
}

} // verus!

//! Fresh identifiers and the local clock.
use vstd::prelude::*;

verus! {

/// A moment on the local clock, in the forms the records use.
#[derive(Debug)]
pub struct Timestamp {
    /// RFC 3339, with the local offset.
    pub rfc3339: String,
    /// `%Y-%m-%d %H:%M:%S`.
    pub date_time: String,
    /// `%H:%M:%S`.
    pub clock: String,
    /// `%Y%m%d_%H%M%S`, for file names.
    pub compact: String,
}

/// Reads `chrono::Local::now()` and formats it with `to_rfc3339` and
/// `format` into the four forms of `Timestamp`.
///
/// Nothing is claimed of the result: it depends on the clock and the
/// machine's time zone.
#[verifier::external_body]
fn local_now() -> (t: Timestamp) {
    let now = chrono::Local::now();
    Timestamp {
        rfc3339: now.to_rfc3339(),
        date_time: now.format("%Y-%m-%d %H:%M:%S").to_string(),
        clock: now.format("%H:%M:%S").to_string(),
        compact: now.format("%Y%m%d_%H%M%S").to_string(),
    }
}

impl Timestamp {
    /// The current local time.
    pub fn now() -> (t: Timestamp) {
        local_now()
    }
}

/// Makes a random (version 4) UUID with `uuid::Uuid::new_v4` and writes it
/// with `to_string`.
///
/// Claimed: the text has 36 characters (the hyphenated form that `Display`
/// writes). Which UUID comes out is random and not stated.
#[verifier::external_body]
pub(crate) fn new_uuid() -> (s: String)
    ensures
        s@.len() == 36,
{
    uuid::Uuid::new_v4().to_string()
}

} // verus!

verus! {

impl View for Timestamp {
    type V = (Seq<char>, Seq<char>, Seq<char>, Seq<char>);

    open spec fn view(&self) -> Self::V {
        (self.rfc3339@, self.date_time@, self.clock@, self.compact@)
    }
}

impl Timestamp {
    /// A copy.
    pub fn copy(&self) -> (r: Self)
        ensures
            r@ == self@,
    {
        Timestamp {
            rfc3339: self.rfc3339.clone(),
            date_time: self.date_time.clone(),
            clock: self.clock.clone(),
            compact: self.compact.clone(),
        }
    }
}

} // verus!

verus! {

/// Whether `chrono::DateTime::parse_from_rfc3339` accepts a text.
pub uninterp spec fn is_rfc3339(text: Seq<char>) -> bool;

/// Reads an RFC 3339 time with `chrono::DateTime::parse_from_rfc3339`, moves
/// it to the local time zone with `with_timezone(&chrono::Local)` and
/// formats it like `local_now` does; `None` where the text is no valid RFC
/// 3339 time.
///
/// Claimed: whether a time comes out depends on the text alone
/// (`is_rfc3339`); which time comes out depends on the machine's time zone
/// and is not stated.
#[verifier::external_body]
fn parse_local_time(text: &str) -> (t: Option<Timestamp>)
    ensures
        (t is Some) == is_rfc3339(text@),
{
    match chrono::DateTime::parse_from_rfc3339(text) {
        Ok(dt) => {
            let local = dt.with_timezone(&chrono::Local);
            Some(Timestamp {
                rfc3339: local.to_rfc3339(),
                date_time: local.format("%Y-%m-%d %H:%M:%S").to_string(),
                clock: local.format("%H:%M:%S").to_string(),
                compact: local.format("%Y%m%d_%H%M%S").to_string(),
            })
        },
        Err(_) => None,
    }
}

impl Timestamp {
    /// The local time that an RFC 3339 text gives; `None` where the text is
    /// no valid RFC 3339 time.
    pub fn parse(text: &str) -> (t: Option<Timestamp>)
        ensures
            (t is Some) == is_rfc3339(text@),
    {
        parse_local_time(text)
    }

    /// The local time that an RFC 3339 text gives, or the current local
    /// time where the text is no valid RFC 3339 time.
    pub fn parse_or_now(text: &str) -> (t: Timestamp) {
        match parse_local_time(text) {
            Some(t) => t,
            None => local_now(),
        }
    }
}

} // verus!

verus! {

/// Reads `chrono::Utc::now()` and writes it with `to_rfc3339`.
///
/// Nothing is claimed of the result: it depends on the clock.
#[verifier::external_body]
fn utc_now_rfc3339() -> (s: String) {
    chrono::Utc::now().to_rfc3339()
}

/// Reads `chrono::Utc::now()` and gives `timestamp()`, the seconds since
/// 1970.
///
/// Nothing is claimed of the result: it depends on the clock.
#[verifier::external_body]
pub(crate) fn unix_now() -> (s: i64) {
    chrono::Utc::now().timestamp()
}

/// The current time in UTC, as RFC 3339.
pub fn utc_now() -> (s: String) {
    utc_now_rfc3339()
}

} // verus!

//! Time stamps as text.

use vstd::prelude::*;
use crate::utils::text::join_texts;

verus! {

/// An instant, in seconds and nanoseconds since the Unix epoch.
#[derive(Debug, Clone, Copy, PartialEq, Eq, Structural)]
pub struct Timestamp {
    pub secs: i64,
    pub nanos: u32,
}

/// The text that chrono writes for the instant `secs` seconds and `nanos`
/// nanoseconds after the Unix epoch: in UTC, as RFC 3339 with milliseconds and
/// a closing `Z`, such as `2018-01-26T18:30:09.453Z`. `None` where chrono
/// cannot represent the instant.
pub uninterp spec fn rfc3339_millis(secs: i64, nanos: u32) -> Option<Seq<char>>;

/// Calls `chrono::DateTime::<Utc>::from_timestamp` and, on the instant that it
/// gives, `to_rfc3339_opts` with milliseconds and `Z`. The contract only names
/// what comes back; that the same instant always gives the same text is taken
/// from chrono, which reads neither the clock nor the time zone here.
#[verifier::external_body]
pub(crate) fn format_rfc3339_millis(secs: i64, nanos: u32) -> (text: Option<String>)
    ensures
        text.deep_view() == rfc3339_millis(secs, nanos),
{
    match chrono::DateTime::<chrono::Utc>::from_timestamp(secs, nanos) {
        Some(instant) => Some(instant.to_rfc3339_opts(chrono::SecondsFormat::Millis, true)),
        None => None,
    }
}

/// The message of a commit made at the time that `timestamp` spells out.
pub open spec fn commit_message(timestamp: Seq<char>) -> Seq<char> {
    "Commit Changes, time: "@ + timestamp
}

/// The message of a commit made at the time that `timestamp` spells out.
pub fn stamp_commit_message(timestamp: &str) -> (message: String)
    ensures
        message@ == commit_message(timestamp@),
{
    join_texts("Commit Changes, time: ", timestamp)
}

/// The message of a commit made `secs` seconds and `nanos` nanoseconds after
/// the Unix epoch, or `None` where that instant cannot be written down.
pub fn commit_message_at(secs: i64, nanos: u32) -> (message: Option<String>)
    ensures
        message.deep_view() == match rfc3339_millis(secs, nanos) {
            Some(timestamp) => Some(commit_message(timestamp)),
            None => None,
        },
{
    match format_rfc3339_millis(secs, nanos) {
        Some(timestamp) => Some(stamp_commit_message(timestamp.as_str())),
        None => None,
    }
}

} // verus!

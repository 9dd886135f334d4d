//! Instants of a job's life and the metrics reported with its outcome.
use vstd::prelude::*;
use crate::messages::ProofMetrics;

verus! {

/// An instant, as seconds and nanoseconds since the Unix epoch (UTC).
#[derive(Clone, Copy, Debug, PartialEq, Eq, Structural)]
pub struct Timestamp {
    pub secs: i64,
    /// Below one second.
    pub nanos: u32,
}

/// The RFC 3339 text of an instant in UTC, or `None` for an instant outside
/// the calendar's range.
pub uninterp spec fn rfc3339_of(secs: i64, nanos: u32) -> Option<Seq<char>>;

/// Relies on chrono's `DateTime::from_timestamp` (the instant in UTC, if in
/// range) and `DateTime::to_rfc3339` (its text).
#[verifier::external_body]
fn rfc3339_text(secs: i64, nanos: u32) -> (r: Option<String>)
    ensures
        match (r, rfc3339_of(secs, nanos)) {
            (Some(t), Some(s)) => t@ == s,
            (None, None) => true,
            _ => false,
        },
{
    match chrono::DateTime::from_timestamp(secs, nanos) {
        Some(t) => Some(t.to_rfc3339()),
        None => None,
    }
}

/// The nanoseconds since the epoch.
pub open spec fn instant_nanos(t: Timestamp) -> int {
    t.secs * 1_000_000_000 + t.nanos
}

/// The whole milliseconds from `from` to `to`: 0 when `to` is not later,
/// and at most `u64::MAX`.
pub open spec fn elapsed_ms(from: Timestamp, to: Timestamp) -> nat {
    let d = instant_nanos(to) - instant_nanos(from);
    if d <= 0 {
        0
    } else if d / 1_000_000 > u64::MAX {
        u64::MAX as nat
    } else {
        (d / 1_000_000) as nat
    }
}

/// The text reported for an instant: its RFC 3339 text, or nothing when it
/// is out of range.
pub open spec fn instant_text(t: Timestamp) -> Seq<char> {
    match rfc3339_of(t.secs, t.nanos) {
        Some(s) => s,
        None => Seq::empty(),
    }
}

/// The whole milliseconds from `from` to `to` (0 when `to` is not later).
pub fn elapsed_millis(from: Timestamp, to: Timestamp) -> (r: u64)
    ensures
        r as nat == elapsed_ms(from, to),
{
    let d: i128 = (to.secs as i128 - from.secs as i128) * 1_000_000_000 + (to.nanos as i128
        - from.nanos as i128);
    if d <= 0 {
        0
    } else if d / 1_000_000 > u64::MAX as i128 {
        u64::MAX
    } else {
        (d / 1_000_000) as u64
    }
}

/// The RFC 3339 text of an instant, or an empty text when it is out of range.
pub fn timestamp_text(t: Timestamp) -> (r: String)
    ensures
        r@ == instant_text(t),
{
    match rfc3339_text(t.secs, t.nanos) {
        Some(s) => s,
        None => String::new(),
    }
}

/// The metrics of a job received, started and completed at these instants;
/// the duration runs from receipt to completion.
pub fn job_metrics(received: Timestamp, started: Timestamp, completed: Timestamp) -> (r: ProofMetrics)
    ensures
        r.received_at@ == instant_text(received),
        r.started_at@ == instant_text(started),
        r.completed_at@ == instant_text(completed),
        r.duration_ms as nat == elapsed_ms(received, completed),
{
    ProofMetrics {
        received_at: timestamp_text(received),
        started_at: timestamp_text(started),
        completed_at: timestamp_text(completed),
        duration_ms: elapsed_millis(received, completed),
    }
}

} // verus!

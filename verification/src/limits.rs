//! Policy bounds that both ends of the relay hold their settings to.

use crate::text::{append_decimal, decimal};
use vstd::prelude::*;

verus! {

/// An inclusive range of seconds.
#[derive(Clone, Copy, Debug)]
pub struct Limits {
    pub start: u64,
    pub end: u64,
}

impl Limits {
    /// Whether `value` lies inside the range, both ends included.
    pub open spec fn spec_contains(&self, value: u64) -> bool {
        self.start <= value <= self.end
    }

    /// Whether `value` lies inside the range, both ends included.
    #[verifier::when_used_as_spec(spec_contains)]
    pub fn contains(&self, value: u64) -> (inside: bool)
        ensures
            inside == self.spec_contains(value),
    {
        self.start <= value && value <= self.end
    }

    /// The smallest value in the range.
    pub fn start(&self) -> (s: u64)
        ensures
            s == self.start,
    {
        self.start
    }

    /// The largest value in the range.
    pub fn end(&self) -> (e: u64)
        ensures
            e == self.end,
    {
        self.end
    }
}

/// Shortest packet timeout, in seconds: one minute.
pub const TIMEOUT_MIN: u64 = 60;

/// Longest packet timeout, in seconds: twelve hours.
pub const TIMEOUT_MAX: u64 = 43200;

/// Shortest tolerated silence of the hub, in seconds: two weeks.
pub const SIGNAL_OUTAGE_MIN: u64 = 1209600;

/// Longest tolerated silence of the hub, in seconds: two months.
pub const SIGNAL_OUTAGE_MAX: u64 = 5184000;

/// The range a packet timeout must lie in.
pub open spec fn spec_timeout_limits() -> Limits {
    Limits { start: TIMEOUT_MIN, end: TIMEOUT_MAX }
}

/// The range a packet timeout must lie in.
#[verifier::when_used_as_spec(spec_timeout_limits)]
pub fn timeout_limits() -> (limits: Limits)
    ensures
        limits == spec_timeout_limits(),
{
    Limits { start: TIMEOUT_MIN, end: TIMEOUT_MAX }
}

/// The range the tolerated silence of the hub must lie in.
pub open spec fn spec_signal_outage_limits() -> Limits {
    Limits { start: SIGNAL_OUTAGE_MIN, end: SIGNAL_OUTAGE_MAX }
}

/// The range the tolerated silence of the hub must lie in.
#[verifier::when_used_as_spec(spec_signal_outage_limits)]
pub fn signal_outage_limits() -> (limits: Limits)
    ensures
        limits == spec_signal_outage_limits(),
{
    Limits { start: SIGNAL_OUTAGE_MIN, end: SIGNAL_OUTAGE_MAX }
}

/// The text of the error that refuses a timeout outside the policy bounds.
pub open spec fn timeout_limits_text() -> Seq<char> {
    "Timeout must be within limits ("@ + decimal(TIMEOUT_MIN as nat) + " <= timeout <= "@ + decimal(
        TIMEOUT_MAX as nat,
    ) + ")"@
}

/// The text of the error that refuses a timeout outside the policy bounds.
pub fn timeout_limits_message() -> (text: String)
    ensures
        text@ == timeout_limits_text(),
{
    let mut text = String::from_str("Timeout must be within limits (");
    append_decimal(&mut text, TIMEOUT_MIN);
    text.append(" <= timeout <= ");
    append_decimal(&mut text, TIMEOUT_MAX);
    text.append(")");
    text
}

/// The text of the error that refuses an outage outside the policy bounds.
pub open spec fn signal_outage_limits_text() -> Seq<char> {
    "Signal outage must be within limits ("@ + decimal(SIGNAL_OUTAGE_MIN as nat)
        + " <= outage <= "@ + decimal(SIGNAL_OUTAGE_MAX as nat) + ")"@
}

/// The text of the error that refuses an outage outside the policy bounds.
pub fn signal_outage_limits_message() -> (text: String)
    ensures
        text@ == signal_outage_limits_text(),
{
    let mut text = String::from_str("Signal outage must be within limits (");
    append_decimal(&mut text, SIGNAL_OUTAGE_MIN);
    text.append(" <= outage <= ");
    append_decimal(&mut text, SIGNAL_OUTAGE_MAX);
    text.append(")");
    text
}

} // verus!

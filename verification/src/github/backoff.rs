//! When to wait, and for how long.

use crate::number::{i32_value, parse_i32};
use vstd::prelude::*;

verus! {

/// How long a run waits when the service has no calls left for it.
pub const BACKOFF_MILLIS: u64 = 60_000;

/// How long a run waits after each file, whatever became of it.
pub const PACING_MILLIS: u64 = 100;

/// How many calls the service says are left, where it says so.
#[derive(Debug, Clone, Copy, PartialEq, Eq, Structural)]
pub struct RateLimitSignal {
    pub remaining: Option<i32>,
}

impl RateLimitSignal {
    /// The service has said that no call is left. A signal without a count
    /// does not say so.
    pub open spec fn exhausted(self) -> bool {
        self.remaining == Some(0i32)
    }

    /// Whether the service has said that no call is left.
    pub fn is_exhausted(&self) -> (exhausted: bool)
        ensures
            exhausted == self.exhausted(),
    {
        match self.remaining {
            Some(left) => left == 0,
            None => false,
        }
    }
}

/// The signal that a response carries in its header for the calls that are
/// left: the count where the header is there and is a number, none
/// otherwise.
pub open spec fn signal_of(header: Option<Seq<char>>) -> RateLimitSignal {
    RateLimitSignal {
        remaining: match header {
            Some(text) => i32_value(text),
            None => None,
        },
    }
}

/// Reads the signal from the header for the calls that are left.
pub fn read_signal(header: &Option<String>) -> (signal: RateLimitSignal)
    ensures
        signal == signal_of(header.deep_view()),
{
    RateLimitSignal {
        remaining: match header {
            Some(text) => parse_i32(text.as_str()),
            None => None,
        },
    }
}

} // verus!

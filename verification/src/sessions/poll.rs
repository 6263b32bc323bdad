use std::sync::Arc;
use std::sync::atomic::{AtomicU64, Ordering};

use vstd::prelude::*;

use crate::shared::config::{
    DEFAULT_POLL_INTERVAL_SECS, MAX_POLL_INTERVAL_SECS, MIN_POLL_INTERVAL_SECS,
};
use crate::shared::text::{opt_view, parse_u64, parse_unsigned};

verus! {

/// `secs` brought into `[MIN_POLL_INTERVAL_SECS, MAX_POLL_INTERVAL_SECS]`.
pub open spec fn spec_clamp_interval(secs: u64) -> u64 {
    if secs < MIN_POLL_INTERVAL_SECS {
        MIN_POLL_INTERVAL_SECS
    } else if secs > MAX_POLL_INTERVAL_SECS {
        MAX_POLL_INTERVAL_SECS
    } else {
        secs
    }
}

/// Brings a polling period into the accepted range.
pub fn clamp_interval(secs: u64) -> (r: u64)
    ensures
        r == spec_clamp_interval(secs),
{
    if secs < MIN_POLL_INTERVAL_SECS {
        MIN_POLL_INTERVAL_SECS
    } else if secs > MAX_POLL_INTERVAL_SECS {
        MAX_POLL_INTERVAL_SECS
    } else {
        secs
    }
}

/// The polling period for a stored value: the clamped number it holds, or the default
/// when there is none or it is not a number.
pub open spec fn spec_initial_interval(stored: Option<Seq<char>>) -> u64 {
    match stored {
        Some(v) => match parse_unsigned(v, u64::MAX as nat) {
            Some(secs) => spec_clamp_interval(secs as u64),
            None => DEFAULT_POLL_INTERVAL_SECS,
        },
        None => DEFAULT_POLL_INTERVAL_SECS,
    }
}

/// The polling period to start with, from the stored configuration value.
pub fn initial_interval(stored: Option<&str>) -> (r: u64)
    ensures
        r == spec_initial_interval(opt_view(stored)),
{
    match stored {
        Some(v) => match parse_u64(v) {
            Some(secs) => clamp_interval(secs),
            None => DEFAULT_POLL_INTERVAL_SECS,
        },
        None => DEFAULT_POLL_INTERVAL_SECS,
    }
}

/// The current fallback polling period in seconds, shared with the polling thread,
/// which reads it at the start of every round.
pub struct PollIntervalState(pub Arc<AtomicU64>);

impl PollIntervalState {
    /// A state holding `secs`.
    pub fn new(secs: u64) -> Self {
        PollIntervalState(Arc::new(AtomicU64::new(secs)))
    }

    /// The period now in force, always within the accepted range. Another thread may
    /// change it at any time, so which period in the range it is cannot be stated; a
    /// value stored past the setters is brought back into the range.
    pub fn seconds(&self) -> (r: u64)
        ensures
            MIN_POLL_INTERVAL_SECS <= r <= MAX_POLL_INTERVAL_SECS,
    {
        clamp_interval(self.0.load(Ordering::Relaxed))
    }

    /// Sets the period, clamped to the accepted range; the next round uses it.
    pub fn set_interval(&self, secs: u64) {
        self.0.store(clamp_interval(secs), Ordering::Relaxed);
    }
}

} // verus!

verus! {

/// A clamped period lies in the accepted range, a period already in range is kept,
/// and clamping twice changes nothing more.
pub proof fn lemma_clamp_interval(secs: u64)
    ensures
        MIN_POLL_INTERVAL_SECS <= spec_clamp_interval(secs) <= MAX_POLL_INTERVAL_SECS,
        MIN_POLL_INTERVAL_SECS <= secs <= MAX_POLL_INTERVAL_SECS ==> spec_clamp_interval(secs)
            == secs,
        spec_clamp_interval(spec_clamp_interval(secs)) == spec_clamp_interval(secs),
{
}

/// The starting period is always in the accepted range, whatever is stored.
pub proof fn lemma_initial_interval_in_range(stored: Option<Seq<char>>)
    ensures
        MIN_POLL_INTERVAL_SECS <= spec_initial_interval(stored) <= MAX_POLL_INTERVAL_SECS,
{
}

} // verus!

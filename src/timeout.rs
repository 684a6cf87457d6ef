use std::time::Duration;
use vstd::prelude::*;

verus! {

/// The duration of exactly `secs` whole seconds.
pub uninterp spec fn duration_from_secs(secs: u64) -> Duration;

/// Relies on std's `Duration::from_secs`: the duration of exactly `secs`
/// seconds, which depends on `secs` alone.
pub assume_specification[ core::time::Duration::from_secs ](secs: u64) -> (r: Duration)
    ensures
        r == duration_from_secs(secs),
;

/// The wait a request asks for: `secs` seconds where given, none otherwise.
pub open spec fn timeout_duration(secs: Option<u64>) -> Option<Duration> {
    match secs {
        Some(s) => Some(duration_from_secs(s)),
        None => None,
    }
}

/// Turns an optional whole-second count into the optional wait it stands for.
pub fn timeout_from_secs(secs: Option<u64>) -> (r: Option<Duration>)
    ensures
        r == timeout_duration(secs),
{
    match secs {
        Some(s) => Some(Duration::from_secs(s)),
        None => None,
    }
}

/// A request that may bound how long the coordinator waits for it.
pub trait WithTimeout {
    /// The whole seconds the request carries, if any.
    spec fn timeout_secs(&self) -> Option<u64>;

    fn wait_timeout(&self) -> (r: Option<Duration>)
        ensures
            r == timeout_duration(self.timeout_secs()),
    ;
}

} // verus!

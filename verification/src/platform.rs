//! What the library takes from the platform without proof.

use std::time::Duration;
use vstd::prelude::*;

verus! {

/// The whole seconds that a `Duration` holds.
pub uninterp spec fn duration_secs(duration: Duration) -> u64;

/// The duration of exactly `secs` whole seconds, with no fraction of a
/// second: what `Duration::from_secs` returns.
pub uninterp spec fn duration_from_secs(secs: u64) -> Duration;

/// `Duration::from_secs` builds the duration of that many whole seconds
/// and nothing more. The same number always gives the same duration, and
/// the duration holds that many whole seconds.
pub assume_specification[ Duration::from_secs ](secs: u64) -> (duration: Duration)
    ensures
        duration == duration_from_secs(secs),
        duration_secs(duration) == secs,
;

/// `Duration::as_secs` returns the whole seconds of the duration, dropping
/// any fraction of a second.
pub assume_specification[ Duration::as_secs ](duration: &Duration) -> (secs: u64)
    ensures
        secs == duration_secs(*duration),
;

/// `Duration` is `Copy`: its `clone` returns the same duration.
pub assume_specification[ <Duration as Clone>::clone ](duration: &Duration) -> (copy: Duration)
    ensures
        copy == *duration,
;

/// An error of the standard library's I/O functions, carried as it is.
#[verifier::external_type_specification]
#[verifier::external_body]
pub struct ExIoError(std::io::Error);

/// Asks `num_cpus::get` how many CPUs this process may use.
///
/// The answer depends on the machine, on the scheduler's affinity mask and
/// on cgroup quotas, so nothing is claimed of it but what the crate
/// documents for every platform: it is at least 1.
#[verifier::external_body]
pub(crate) fn available_cpus() -> (count: usize)
    ensures
        count >= 1,
{
    num_cpus::get()
}

} // verus!

//! Requeue intervals: how long the controller waits before it looks at an
//! object again. The intervals are drawn at random from a range, so that the
//! objects of a cluster do not all come back at the same moment.

use rand::Rng;
use vstd::prelude::*;

verus! {

/// Lower bound, in seconds, of the interval after a successful reconcile.
pub const REFRESH_MIN_SECS: u64 = 240;

/// Upper bound (exclusive), in seconds, of the interval after a successful reconcile.
pub const REFRESH_MAX_SECS: u64 = 360;

/// Lower bound, in milliseconds, of the interval after a failed reconcile.
pub const BACKOFF_MIN_MILLIS: u64 = 4000;

/// Upper bound (exclusive), in milliseconds, of the interval after a failed reconcile.
pub const BACKOFF_MAX_MILLIS: u64 = 8000;

/// What the controller runtime is told to do with an object once a reconcile has ended.
#[derive(Clone, Copy, Debug, PartialEq, Eq, Structural)]
pub enum Requeue {
    /// Do not schedule another reconcile; wait for the next change.
    AwaitChange,
    /// Reconcile again after this many milliseconds.
    AfterMillis(u64),
}

/// Draws a number from `low..high` with `rand::Rng::gen_range` on the
/// generator of the current thread (`rand::thread_rng`). The contract
/// claims only that the number lies in the range; an empty range, on which
/// `gen_range` panics, is excluded. Nothing is claimed of which number is
/// drawn, and two draws may differ. Where the operating system gives the
/// generator no seed, `thread_rng` ends the process; the contract is about
/// the draws that return.
#[verifier::external_body]
fn random_in_range(low: u64, high: u64) -> (r: u64)
    requires
        low < high,
    ensures
        low <= r < high,
{
    rand::thread_rng().gen_range(low..high)
}

/// The instruction that follows a draw of `seconds` for the refresh interval.
pub open spec fn refresh_after(seconds: u64) -> Requeue {
    Requeue::AfterMillis((seconds * 1000) as u64)
}

/// The instruction to come back after `seconds` seconds.
pub fn requeue_after_secs(seconds: u64) -> (r: Requeue)
    requires
        seconds * 1000 <= u64::MAX,
    ensures
        r == refresh_after(seconds),
{
    Requeue::AfterMillis(seconds * 1000)
}

/// What follows a reconcile that succeeded: where it asks to be refreshed,
/// another reconcile after a whole number of seconds drawn from 240 up to
/// but not including 360; else nothing until the object changes.
pub fn on_success(refresh: bool) -> (r: Requeue)
    ensures
        refresh ==> exists|seconds: u64|
            REFRESH_MIN_SECS <= seconds < REFRESH_MAX_SECS && r == #[trigger] refresh_after(seconds),
        !refresh ==> r == Requeue::AwaitChange,
{
    if refresh {
        let seconds = random_in_range(REFRESH_MIN_SECS, REFRESH_MAX_SECS);
        requeue_after_secs(seconds)
    } else {
        Requeue::AwaitChange
    }
}

/// What follows a reconcile that failed: another one after a number of
/// milliseconds drawn from 4000 up to but not including 8000.
pub fn on_error() -> (r: Requeue)
    ensures
        r matches Requeue::AfterMillis(millis) && BACKOFF_MIN_MILLIS <= millis < BACKOFF_MAX_MILLIS,
{
    Requeue::AfterMillis(random_in_range(BACKOFF_MIN_MILLIS, BACKOFF_MAX_MILLIS))
}

} // verus!

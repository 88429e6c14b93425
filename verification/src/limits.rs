//! The time limits and budgets of the player.
//!
//! Every duration and every clock reading in the library is a count of
//! nanoseconds, as `std::time::Duration::as_nanos` gives it. Clock readings are
//! taken from one monotonic clock, from an origin that the caller picks.
use vstd::prelude::*;

verus! {

/// How often a wait on the audio thread stops to ask again whether the device is
/// still there: three seconds. Well above a healthy clear, which takes one
/// buffer, and short enough that a real disconnect is noticed while the user
/// still connects it to what they just did.
pub const AUDIO_THREAD_POLL: u128 = 3_000_000_000;

/// The absolute ceiling on such a wait: ninety seconds. Above the stall that a
/// slow network is allowed, so that it is never mistaken for a dead device, and
/// finite, so that an audio thread that wedges for a reason nothing here can name
/// still cannot take the application with it.
pub const AUDIO_THREAD_CEILING: u128 = 90_000_000_000;

/// How long to wait for the audio thread to hand back an opened device: five
/// seconds. A backstop, not a deadline that anybody should reach.
pub const DEVICE_OPEN_TIMEOUT: u128 = 5_000_000_000;

/// For how long one read of the default output device answers for it: one second.
pub const DEVICE_CHECK_INTERVAL: u128 = 1_000_000_000;

/// The spacing between attempts to reopen the device: two seconds.
pub const DEVICE_REOPEN_RETRY_AFTER: u128 = 2_000_000_000;

/// How many attempts to reopen the device are made before it is given up on.
pub const DEVICE_REOPEN_ATTEMPTS: u8 = 5;

/// The time from one clock reading to a later one, and nothing where the second
/// is the earlier of the two.
pub open spec fn elapsed(since: u128, now: u128) -> int {
    if now >= since {
        now - since
    } else {
        0
    }
}

/// The nanoseconds that passed from the reading `since` to the reading `now`.
pub fn time_since(since: u128, now: u128) -> (passed: u128)
    ensures
        passed == elapsed(since, now),
{
    if now >= since {
        now - since
    } else {
        0
    }
}

} // verus!

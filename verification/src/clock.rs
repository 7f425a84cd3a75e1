//! Times, and how they are stored.
//!
//! A time is a number of milliseconds on the caller's clock. It is stored as
//! the time that has gone by since, and read back against the clock of the
//! day: the order in which things happened survives a restart, the times
//! themselves are as good as the clocks agree.

use vstd::prelude::*;
use crate::error::PickleError;

verus! {

/// The time from `then` to `now`, none where `now` is the earlier.
pub open spec fn elapsed(then: u64, now: u64) -> u64 {
    if now >= then {
        (now - then) as u64
    } else {
        0
    }
}

/// The later of two times.
pub open spec fn later(a: u64, b: u64) -> u64 {
    if a >= b {
        a
    } else {
        b
    }
}

/// The instant that lay `stored` before `now`, where the clock reaches that
/// far back.
pub open spec fn instant_before(stored: u64, now: u64) -> Option<u64> {
    if stored <= now {
        Some((now - stored) as u64)
    } else {
        None
    }
}

/// What is stored for `instant` at `now`: the time that has gone by since.
pub fn serialize_instant(instant: u64, now: u64) -> (r: u64)
    ensures
        r == elapsed(instant, now),
{
    if now >= instant {
        now - instant
    } else {
        0
    }
}

/// The instant that a stored time stands for at `now`.
pub fn deserialize_instant(stored: u64, now: u64) -> (r: Result<u64, PickleError>)
    ensures
        match r {
            Ok(instant) => instant_before(stored, now) == Some(instant),
            Err(error) => instant_before(stored, now) is None && error
                == PickleError::ClockUnderflow,
        },
{
    if stored <= now {
        Ok(now - stored)
    } else {
        Err(PickleError::ClockUnderflow)
    }
}

/// An instant that is stored and read back at once is the instant.
pub proof fn lemma_instant_read_back(instant: u64, now: u64)
    requires
        instant <= now,
    ensures
        instant_before(elapsed(instant, now), now) == Some(instant),
{
}

/// Instants that are stored together and read back together, however much
/// later, keep their order and their distance.
pub proof fn lemma_instants_keep_their_order(first: u64, second: u64, stored_at: u64, read_at: u64)
    requires
        first <= second <= stored_at <= read_at,
    ensures
        instant_before(elapsed(first, stored_at), read_at) is Some,
        instant_before(elapsed(second, stored_at), read_at) is Some,
        instant_before(elapsed(second, stored_at), read_at).unwrap() - instant_before(
            elapsed(first, stored_at),
            read_at,
        ).unwrap() == second - first,
{
}

} // verus!

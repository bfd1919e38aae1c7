//! The game clock: milliseconds since the clock started, the unit every
//! deadline of the rules is measured in.

use vstd::prelude::*;
use crate::spawner::MAX_TIME;

verus! {

#[verifier::external_type_specification]
#[verifier::external_body]
pub struct ExInstant(instant::Instant);

/// Relies on `instant::Instant::now` (std's `Instant::now` off the web):
/// the current instant.
#[verifier::external_body]
fn instant_now() -> (r: instant::Instant) {
    instant::Instant::now()
}

/// Relies on `Instant::elapsed`: the time that has passed since `origin`.
#[verifier::external_body]
fn elapsed_since(origin: &instant::Instant) -> (r: core::time::Duration) {
    origin.elapsed()
}

/// Relies on `Duration::as_millis`: the whole milliseconds in `d`.
#[verifier::external_body]
fn whole_millis(d: core::time::Duration) -> (r: u128) {
    d.as_millis()
}

/// A clock started at some instant.
pub struct Clock {
    origin: instant::Instant,
}

impl Clock {
    /// A clock that starts now.
    pub fn start() -> Clock {
        Clock { origin: instant_now() }
    }

    /// Milliseconds since the clock started, held at `MAX_TIME` beyond it.
    pub fn now_ms(&self) -> (r: u64)
        ensures
            r <= MAX_TIME,
    {
        let ms = whole_millis(elapsed_since(&self.origin));
        if ms > MAX_TIME as u128 {
            MAX_TIME
        } else {
            ms as u64
        }
    }
}

} // verus!

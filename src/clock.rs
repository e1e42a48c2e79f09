//! Elapsed time, for the waits that the protocol bounds.
use vstd::prelude::*;
use std::time::{Duration, Instant};

verus! {

#[verifier::external_type_specification]
#[verifier::external_body]
pub struct ExInstant(Instant);

/// Relies on std::time::Instant::now: a reading of the monotonic clock.
#[verifier::external_body]
fn instant_now() -> Instant {
    Instant::now()
}

/// Relies on std::time::Instant::elapsed: the time since `start`.
#[verifier::external_body]
fn elapsed_since(start: &Instant) -> Duration {
    start.elapsed()
}

/// Relies on std::time::Duration::as_micros: the whole microseconds in `d`.
#[verifier::external_body]
fn whole_micros(d: &Duration) -> u128 {
    d.as_micros()
}

/// Measures time from the moment it was started.
pub struct Stopwatch {
    start: Instant,
}

impl Stopwatch {
    pub fn start() -> Stopwatch {
        Stopwatch { start: instant_now() }
    }

    /// Microseconds since `start`.
    pub fn elapsed_us(&self) -> u64 {
        let us = whole_micros(&elapsed_since(&self.start));
        if us > u64::MAX as u128 {
            u64::MAX
        } else {
            us as u64
        }
    }
}

/// Waits for `us` microseconds by watching the clock.
pub fn pause(us: u64) {
    if us == 0 {
        return;
    }
    let watch = Stopwatch::start();
    let mut spins: u64 = 0;
    loop
        decreases u64::MAX - spins,
    {
        if watch.elapsed_us() >= us || spins == u64::MAX {
            return;
        }
        spins = spins + 1;
    }
}

} // verus!

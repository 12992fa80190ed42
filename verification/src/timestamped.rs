//! A generic wrapper pairing a value with the time elapsed since a
//! caller-held reference instant. Both fields are immutable once the wrapper
//! is built; the value can be read in place, taken out, or replaced while
//! the timestamp is kept.

use vstd::prelude::*;
use core::time::Duration;
use std::time::Instant;

verus! {

#[verifier::external_type_specification]
#[verifier::external_body]
pub struct ExInstant(Instant);

/// Relies on std::time::Instant::now and Instant::duration_since: reads the
/// monotonic clock and returns the time elapsed since `base`, saturating to
/// zero where `base` lies in the future. Nothing is promised of the value.
#[verifier::external_body]
fn elapsed_since(base: Instant) -> Duration {
    Instant::now().duration_since(base)
}

/// A value of any type tagged with a duration: the time elapsed since a
/// reference instant that the caller establishes once, so that timestamps
/// are comparable across a system's lifetime.
pub struct Timestamped<T> {
    timestamp: Duration,
    value: T,
}

impl<T> Timestamped<T> {
    /// The stored elapsed duration.
    pub closed spec fn spec_timestamp(self) -> Duration {
        self.timestamp
    }

    /// The wrapped value.
    pub closed spec fn spec_value(self) -> T {
        self.value
    }

    /// Wraps `value` with an explicit pre-computed elapsed duration.
    pub fn new(timestamp: Duration, value: T) -> (t: Self)
        ensures
            t.spec_timestamp() == timestamp,
            t.spec_value() == value,
    {
        Self { timestamp, value }
    }

    /// Wraps `value` with the time elapsed from `base_time` to the current
    /// instant. The duration comes from the monotonic clock, so nothing is
    /// known of it beyond the value being stored as the timestamp.
    pub fn now(base_time: Instant, value: T) -> (t: Self)
        ensures
            t.spec_value() == value,
    {
        Self { timestamp: elapsed_since(base_time), value }
    }

    /// The stored duration.
    pub fn timestamp(&self) -> (timestamp: &Duration)
        ensures
            *timestamp == self.spec_timestamp(),
    {
        &self.timestamp
    }

    /// The wrapped value, read in place. Every operation valid on the value
    /// is reached through this borrow without disturbing the timestamp.
    pub fn value(&self) -> (value: &T)
        ensures
            *value == self.spec_value(),
    {
        &self.value
    }

    /// Consumes the wrapper, yielding the timestamp and the value as a pair.
    pub fn destruct(self) -> (parts: (Duration, T))
        ensures
            parts.0 == self.spec_timestamp(),
            parts.1 == self.spec_value(),
    {
        (self.timestamp, self.value)
    }

    /// A new wrapper around `value`, possibly of another type, carrying this
    /// wrapper's timestamp unchanged: the capture time travels with a
    /// derived value without being re-measured.
    pub fn new_value<R>(&self, value: R) -> (t: Timestamped<R>)
        ensures
            t.spec_timestamp() == self.spec_timestamp(),
            t.spec_value() == value,
    {
        Timestamped::new(self.timestamp, value)
    }
}

} // verus!

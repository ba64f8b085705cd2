//! Clock readings stamped into fresh headers. The four fields are recorded
//! for observability only; nothing validates them at open time.

use vstd::prelude::*;

verus! {

/// The four clock readings a fresh header carries: monotonic and wall-clock
/// time, in seconds and in nanoseconds.
#[derive(Clone, Copy, Debug, PartialEq, Eq, Structural)]
pub struct Timestamps {
    pub monotonic_s: u32,
    pub unix_s: u32,
    pub monotonic_ns: u64,
    pub unix_ns: u64,
}

#[verifier::external_type_specification]
#[verifier::external_body]
pub struct ExInstant(std::time::Instant);

#[verifier::external_type_specification]
#[verifier::external_body]
pub struct ExSystemTime(std::time::SystemTime);

/// Relies on std::time::Instant::now: an opaque reading of the monotonic
/// clock. Nothing is assumed of the value.
#[verifier::external_body]
pub(crate) fn instant_now() -> std::time::Instant {
    std::time::Instant::now()
}

/// Relies on std::time::Instant::elapsed: the monotonic time since `base`
/// was sampled, split into whole seconds and total nanoseconds. Nothing is
/// assumed of the values.
#[verifier::external_body]
fn elapsed_parts(base: &std::time::Instant) -> (u32, u64) {
    let d = base.elapsed();
    (d.as_secs() as u32, d.as_nanos() as u64)
}

/// Relies on std::time::SystemTime::now: an opaque reading of the wall
/// clock. Nothing is assumed of the value.
#[verifier::external_body]
fn system_time_now() -> std::time::SystemTime {
    std::time::SystemTime::now()
}

/// Relies on std::time::SystemTime::duration_since: the wall-clock time
/// since the Unix epoch, split into whole seconds and total nanoseconds, or
/// zeros for a reading before the epoch. Nothing is assumed of the values.
#[verifier::external_body]
fn unix_parts(t: &std::time::SystemTime) -> (u32, u64) {
    match t.duration_since(std::time::UNIX_EPOCH) {
        Ok(d) => (d.as_secs() as u32, d.as_nanos() as u64),
        Err(_) => (0, 0),
    }
}

/// Samples both clocks: monotonic time relative to `base`, wall-clock time
/// relative to the Unix epoch.
pub(crate) fn sample_timestamps(base: &std::time::Instant) -> Timestamps {
    let (monotonic_s, monotonic_ns) = elapsed_parts(base);
    let now = system_time_now();
    let (unix_s, unix_ns) = unix_parts(&now);
    Timestamps { monotonic_s, unix_s, monotonic_ns, unix_ns }
}

} // verus!

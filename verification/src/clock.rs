//! Elapsed-time measurement for the session.
//!
//! A [`std::time::Instant`] taken at construction anchors the session; the
//! elapsed duration since then is split into whole seconds and a sub-second
//! nanosecond remainder by verified arithmetic. The clock reading itself is
//! trusted (std documents `Instant` as monotonically nondecreasing), while
//! the split and its monotonicity are proved.

use vstd::prelude::*;

use std::time::Duration;
use std::time::Instant;

verus! {

/// An opaque reading of the monotonic process clock.
#[verifier::external_type_specification]
#[verifier::external_body]
pub struct ExInstant(Instant);

/// Relies on std::time::Instant::now: a reading of a monotonically
/// nondecreasing clock. The value itself is unknowable, so nothing is
/// assumed of it.
#[verifier::external_body]
pub(crate) fn instant_now() -> Instant {
    Instant::now()
}

/// Relies on std::time::Instant::elapsed: the time between `start` and
/// now. Its value depends on the wall clock, so nothing is assumed of it.
#[verifier::external_body]
pub(crate) fn elapsed_since(start: &Instant) -> Duration {
    start.elapsed()
}

/// Relies on std::time::Duration::as_nanos: the duration as a total number
/// of nanoseconds.
#[verifier::external_body]
pub(crate) fn duration_nanos(d: &Duration) -> u128 {
    d.as_nanos()
}

/// Elapsed time split into whole seconds and the sub-second remainder.
#[derive(Clone, Copy, PartialEq, Eq, Structural, Debug)]
pub struct TimeParts {
    /// Whole seconds elapsed, saturating at the largest representable value.
    pub secs: u64,
    /// Nanoseconds beyond the last whole second; always below one billion.
    pub subsec_nanos: u32,
}

/// Nanoseconds in one second.
pub open spec fn nanos_per_sec() -> int {
    1_000_000_000
}

/// Whether `total` nanoseconds fit the saturating split without clipping.
pub open spec fn splittable(total: u128) -> bool {
    total / 1_000_000_000 <= u64::MAX
}

/// The seconds component of the split.
pub open spec fn split_secs(total: u128) -> int {
    if splittable(total) {
        (total / 1_000_000_000) as int
    } else {
        u64::MAX as int
    }
}

/// The sub-second component of the split.
pub open spec fn split_subsec(total: u128) -> int {
    if splittable(total) {
        (total % 1_000_000_000) as int
    } else {
        nanos_per_sec() - 1
    }
}

/// Split a nanosecond count into whole seconds and remainder.
///
/// For any count whose second count fits in 64 bits — over five hundred
/// years — the split is exact; beyond that it saturates.
pub fn split_nanos(total: u128) -> (r: TimeParts)
    ensures
        r.secs == split_secs(total),
        r.subsec_nanos == split_subsec(total),
        r.subsec_nanos < 1_000_000_000,
{
    let secs: u128 = total / 1_000_000_000;
    if secs <= u64::MAX as u128 {
        TimeParts { secs: secs as u64, subsec_nanos: (total % 1_000_000_000) as u32 }
    } else {
        TimeParts { secs: u64::MAX, subsec_nanos: 999_999_999 }
    }
}

/// Later clock readings never report earlier times: splitting a larger
/// nanosecond count gives a lexicographically no-smaller (seconds,
/// remainder) pair, and a zero count splits to exactly zero.
pub proof fn lemma_split_monotonic(a: u128, b: u128)
    requires
        a <= b,
    ensures
        split_secs(a) < split_secs(b) || (split_secs(a) == split_secs(b) && split_subsec(a)
            <= split_subsec(b)),
        split_secs(0) == 0 && split_subsec(0) == 0,
{
    vstd::arithmetic::div_mod::lemma_div_is_ordered(a as int, b as int, 1_000_000_000);
    if split_secs(a) == split_secs(b) {
        if splittable(a) && splittable(b) {
            vstd::arithmetic::div_mod::lemma_fundamental_div_mod(a as int, 1_000_000_000);
            vstd::arithmetic::div_mod::lemma_fundamental_div_mod(b as int, 1_000_000_000);
        }
    }
}

} // verus!

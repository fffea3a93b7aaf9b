//! Linux and Android: a `timespec` to nanoseconds.
//!
//! `clock_gettime` reports a clock as whole seconds plus nanoseconds within
//! the second. `CLOCK_BOOTTIME` keeps counting while the system is suspended,
//! `CLOCK_MONOTONIC` does not. Where the kernel's clock is coarser than a
//! nanosecond the reading is only as fine as the kernel gives it; nothing is
//! added to it here.

use vstd::prelude::*;

verus! {

/// Nanoseconds in a second.
pub const NANOS_PER_SEC: u64 = 1_000_000_000;

/// The nanoseconds that a reading of `secs` seconds and `nanos` nanoseconds
/// stands for.
pub open spec fn timespec_nanos(secs: int, nanos: int) -> int {
    secs * 1_000_000_000 + nanos
}

/// A reading as a monotonic clock gives it, and small enough for a `u64` of
/// nanoseconds: no negative part, less than a second in `nanos`, and at most
/// `u64::MAX` nanoseconds in all.
pub open spec fn timespec_fits(secs: int, nanos: int) -> bool {
    &&& 0 <= secs
    &&& 0 <= nanos < 1_000_000_000
    &&& timespec_nanos(secs, nanos) <= u64::MAX
}

/// Converts the two fields of a `timespec`, `tv_sec` and `tv_nsec`, into
/// nanoseconds.
///
/// The reading must satisfy [`timespec_fits`]; a `u64` of nanoseconds ends
/// after some 584 years.
pub fn timespec_to_nanos(secs: i64, nanos: i64) -> (ticks: u64)
    requires
        timespec_fits(secs as int, nanos as int),
    ensures
        ticks == timespec_nanos(secs as int, nanos as int),
{
    (secs as u64) * NANOS_PER_SEC + (nanos as u64)
}

/// A later reading never converts to fewer nanoseconds: readings are ordered
/// by their seconds first and by their nanoseconds within the same second,
/// and so are the nanoseconds they stand for.
pub proof fn lemma_timespec_nanos_monotonic(
    earlier_secs: int,
    earlier_nanos: int,
    later_secs: int,
    later_nanos: int,
)
    requires
        0 <= earlier_nanos < 1_000_000_000,
        0 <= later_nanos < 1_000_000_000,
        earlier_secs < later_secs || (earlier_secs == later_secs && earlier_nanos <= later_nanos),
    ensures
        timespec_nanos(earlier_secs, earlier_nanos) <= timespec_nanos(later_secs, later_nanos),
{
}

/// Converting keeps distances: the nanoseconds of two readings differ by the
/// difference of their seconds, a thousand million each, plus the difference
/// of their nanosecond parts. So readings whose seconds are `secs` apart,
/// with the later nanosecond part no smaller, are at least `secs` thousand
/// million nanoseconds apart.
pub proof fn lemma_timespec_nanos_difference(
    earlier_secs: int,
    earlier_nanos: int,
    later_secs: int,
    later_nanos: int,
)
    ensures
        timespec_nanos(later_secs, later_nanos) - timespec_nanos(earlier_secs, earlier_nanos) == (
        later_secs - earlier_secs) * 1_000_000_000 + (later_nanos - earlier_nanos),
        earlier_nanos <= later_nanos ==> timespec_nanos(later_secs, later_nanos) - timespec_nanos(
            earlier_secs,
            earlier_nanos,
        ) >= (later_secs - earlier_secs) * 1_000_000_000,
{
}

} // verus!

//! Windows: interrupt time to nanoseconds.
//!
//! `QueryInterruptTime` and `QueryUnbiasedInterruptTime` report the
//! interrupt-time count in system time units of 100 nanoseconds. The first
//! includes the time the system spent suspended, the second does not.

use vstd::prelude::*;

verus! {

/// Windows counts time in a system time unit of 100 nanoseconds.
pub const SYSTEM_TIME_UNIT: u64 = 100;

/// The largest interrupt-time count whose nanosecond value fits in a `u64`.
pub const MAX_INTERRUPT_TIME: u64 = 184_467_440_737_095_516;

/// The nanoseconds that an interrupt-time count stands for.
pub open spec fn interrupt_time_nanos(interrupt_time: nat) -> nat {
    interrupt_time * 100
}

/// Converts an interrupt-time count, as either of the two interrupt-time
/// queries reports it, into nanoseconds.
///
/// The count must not exceed [`MAX_INTERRUPT_TIME`]: beyond it (more than 584
/// years of uptime) the nanosecond value does not fit in a `u64`.
pub fn interrupt_time_to_nanos(interrupt_time: u64) -> (nanos: u64)
    requires
        interrupt_time <= MAX_INTERRUPT_TIME,
    ensures
        nanos == interrupt_time_nanos(interrupt_time as nat),
{
    interrupt_time * SYSTEM_TIME_UNIT
}

/// A later interrupt-time count never converts to fewer nanoseconds.
pub proof fn lemma_interrupt_time_nanos_monotonic(earlier: nat, later: nat)
    requires
        earlier <= later,
    ensures
        interrupt_time_nanos(earlier) <= interrupt_time_nanos(later),
{
}

/// Converting keeps distances: two counts that are `units` apart stand for
/// nanoseconds that are a hundred times `units` apart. A millisecond is
/// 10 000 units, so counts at least `millis` milliseconds apart convert to
/// nanoseconds at least `millis` million apart.
pub proof fn lemma_interrupt_time_nanos_difference(earlier: nat, later: nat, millis: nat)
    requires
        earlier <= later,
    ensures
        interrupt_time_nanos(later) - interrupt_time_nanos(earlier) == (later - earlier) * 100,
        later - earlier >= millis * 10_000 ==> interrupt_time_nanos(later) - interrupt_time_nanos(
            earlier,
        ) >= millis * 1_000_000,
{
}

} // verus!

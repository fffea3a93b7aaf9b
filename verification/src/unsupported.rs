//! The portable fallback clock, for platforms without a clock of their own.
//!
//! Both clocks degrade to the same reading here: the milliseconds (not
//! nanoseconds) that have passed since the reference point, which is taken
//! once, on the first reading through a given cell. Time spent suspended
//! cannot be observed this way, so both readings behave as the clock that
//! excludes it.
//!
//! The reference point lives in a `OnceCell` that the caller keeps, as a
//! process-wide value where one shared epoch is wanted. The cell resolves
//! concurrent first readings: one caller takes the reference point, the
//! others wait for it and see the same one.

use core::time::Duration;
use once_cell::sync::OnceCell;
use std::time::Instant;
use vstd::prelude::*;
use crate::duration::duration_nanos;

verus! {

/// `std::time::Instant`, carried through without looking inside.
#[verifier::external_type_specification]
#[verifier::external_body]
pub struct ExInstant(std::time::Instant);

/// `once_cell::sync::OnceCell`, carried through without looking inside.
#[verifier::external_type_specification]
#[verifier::external_body]
#[verifier::reject_recursive_types(T)]
pub struct ExOnceCell<T>(once_cell::sync::OnceCell<T>);

/// Calls `OnceCell::get_or_init` with `Instant::now` as the initialiser: the
/// cell's reference point, taken now if the cell was still empty.
///
/// Nothing is claimed of the result, which depends on when the cell was
/// first read.
#[verifier::external_body]
fn reference_point(init_time: &OnceCell<Instant>) -> (start: &Instant) {
    init_time.get_or_init(Instant::now)
}

/// Calls `Instant::elapsed`: the time that has passed since `start`.
///
/// Nothing is claimed of the result, which depends on the time of the call.
#[verifier::external_body]
fn elapsed_since(start: &Instant) -> (elapsed: Duration) {
    start.elapsed()
}

/// The timestamp that stands for a count of milliseconds: the count itself,
/// or 0 where it does not fit in a `u64`.
pub open spec fn millis_timestamp(millis: nat) -> u64 {
    if millis <= u64::MAX {
        millis as u64
    } else {
        0
    }
}

/// What either clock reads when `elapsed` has passed since the reference
/// point: the whole milliseconds of `elapsed`, or 0 where they do not fit in
/// a `u64`.
pub open spec fn fallback_reading(elapsed: Duration) -> u64 {
    millis_timestamp(duration_nanos(elapsed) / 1_000_000)
}

/// The fallback clock's reading for a given time since the reference point:
/// its whole milliseconds, or 0 where they do not fit in a `u64`.
pub fn elapsed_to_millis(elapsed: Duration) -> (millis: u64)
    ensures
        millis == fallback_reading(elapsed),
        millis == millis_timestamp(duration_nanos(elapsed) / 1_000_000),
{
    match u64::try_from(elapsed.as_millis()) {
        Ok(millis) => millis,
        Err(_) => 0,
    }
}

/// Milliseconds since the reference point of `init_time`, which this call
/// takes if no earlier call has.
///
/// Time spent suspended is not counted, although the name asks for it: the
/// fallback clock cannot observe it.
///
/// How much time has passed is for the system's clock to say; whatever it
/// says, the result is the reading that [`fallback_reading`] gives for it.
pub fn now_including_suspend_ms(init_time: &OnceCell<Instant>) -> (millis: u64)
    ensures
        exists|elapsed: Duration| millis == #[trigger] fallback_reading(elapsed),
{
    let d = elapsed_since(reference_point(init_time));
    elapsed_to_millis(d)
}

/// Milliseconds since the reference point of `init_time`, which this call
/// takes if no earlier call has.
///
/// How much time has passed is for the system's clock to say; whatever it
/// says, the result is the reading that [`fallback_reading`] gives for it,
/// the same rule as for the other clock.
pub fn now_excluding_suspend_ms(init_time: &OnceCell<Instant>) -> (millis: u64)
    ensures
        exists|elapsed: Duration| millis == #[trigger] fallback_reading(elapsed),
{
    let d = elapsed_since(reference_point(init_time));
    elapsed_to_millis(d)
}

/// As long as the milliseconds fit in a `u64`, a longer time since the
/// reference point never gives a smaller reading.
pub proof fn lemma_millis_timestamp_monotonic(earlier: nat, later: nat)
    requires
        earlier <= later,
        later / 1_000_000 <= u64::MAX,
    ensures
        millis_timestamp(earlier / 1_000_000) <= millis_timestamp(later / 1_000_000),
{
}

/// As long as the milliseconds fit in a `u64`, two readings are at least as
/// many milliseconds apart as whole milliseconds lie between the two times:
/// after `millis` more milliseconds the reading has grown by `millis` or more.
pub proof fn lemma_millis_timestamp_difference(earlier: nat, later: nat, millis: nat)
    requires
        earlier + millis * 1_000_000 <= later,
        later / 1_000_000 <= u64::MAX,
    ensures
        millis_timestamp(earlier / 1_000_000) + millis <= millis_timestamp(later / 1_000_000),
{
}

} // verus!

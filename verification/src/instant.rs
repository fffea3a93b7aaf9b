//! Instants that remember which clock they were read from.

use core::cmp::Ordering;
use core::marker::PhantomData;
use core::ops::Sub;
use core::time::Duration;
use vstd::prelude::*;
use vstd::std_specs::cmp::PartialEqSpec;
use vstd::std_specs::cmp::PartialOrdSpec;
use vstd::std_specs::ops::SubSpec;
use crate::duration::duration_nanos;

verus! {

/// Marks an [`Instant`] of the clock that keeps counting while the host is
/// suspended or hibernating.
#[derive(Clone, Copy, Debug, PartialEq, Eq, PartialOrd, Ord, Hash)]
pub struct IncludingSuspend;

/// Marks an [`Instant`] of the clock that pauses while the host is suspended
/// or hibernating.
#[derive(Clone, Copy, Debug, PartialEq, Eq, PartialOrd, Ord, Hash)]
pub struct ExcludingSuspend;

/// A point on one of the two monotonic clocks.
///
/// The type parameter is the clock: [`IncludingSuspend`] or
/// [`ExcludingSuspend`]. Every operation on two instants asks for the same
/// parameter on both, so instants of different clocks cannot meet.
#[derive(Debug, Eq, Ord, Hash)]
pub struct Instant<T> {
    ticks: u64,
    clock: PhantomData<T>,
}

impl<T> Copy for Instant<T> {

}

impl<T> Clone for Instant<T> {
    fn clone(&self) -> (copy: Self)
        ensures
            copy == *self,
    {
        *self
    }
}

impl<T> View for Instant<T> {
    type V = nat;

    /// An instant is modelled by its tick count: nanoseconds since the
    /// clock's epoch.
    closed spec fn view(&self) -> nat {
        self.ticks as nat
    }
}

impl<T> Instant<T> {
    /// The instant of this clock that lies `ticks` nanoseconds after its epoch.
    pub closed spec fn at(ticks: u64) -> Self {
        Instant { ticks, clock: PhantomData }
    }

    /// Rebuilds an instant from a tick count that [`Instant::as_timestamp`]
    /// handed out, or builds one from a fresh reading of the clock `T`.
    ///
    /// The caller answers for the count really being one of clock `T`, taken
    /// in the current boot session.
    pub fn from_timestamp(ticks: u64) -> (instant: Self)
        ensures
            instant == Self::at(ticks),
            instant@ == ticks,
    {
        Instant { ticks, clock: PhantomData }
    }

    /// The raw tick count, for storage or transport.
    pub fn as_timestamp(self) -> (ticks: u64)
        ensures
            ticks == self@,
    {
        self.ticks
    }

    /// The nanoseconds from `earlier` to `self`, if `earlier` is not the later
    /// of the two.
    pub open spec fn nanos_since(self, earlier: Instant<T>) -> Option<nat> {
        if earlier@ <= self@ {
            Some((self@ - earlier@) as nat)
        } else {
            None
        }
    }

    /// The time from `earlier` to `self`, or `None` if `earlier` is in fact
    /// later than `self`: an instant that seems to lie in the past of an
    /// earlier one is reported, never turned into a wrapped-around duration.
    pub fn checked_duration_since(self, earlier: Instant<T>) -> (elapsed: Option<Duration>)
        ensures
            earlier@ <= self@ <==> elapsed.is_some(),
            elapsed matches Some(d) ==> self.nanos_since(earlier) == Some(duration_nanos(d)),
    {
        if self.ticks >= earlier.ticks {
            Some(Duration::from_nanos(self.ticks - earlier.ticks))
        } else {
            None
        }
    }

    /// The time from `earlier` to `self`.
    ///
    /// `earlier` must not be later than `self`.
    pub fn duration_since(self, earlier: Instant<T>) -> (elapsed: Duration)
        requires
            earlier@ <= self@,
        ensures
            self.nanos_since(earlier) == Some(duration_nanos(elapsed)),
    {
        Duration::from_nanos(self.ticks - earlier.ticks)
    }
}

/// Two instants of one clock are equal when their tick counts are.
impl<T> PartialEq for Instant<T> {
    fn eq(&self, other: &Self) -> (equal: bool) {
        self.ticks == other.ticks
    }
}

impl<T> vstd::std_specs::cmp::PartialEqSpecImpl for Instant<T> {
    open spec fn obeys_eq_spec() -> bool {
        true
    }

    open spec fn eq_spec(&self, other: &Self) -> bool {
        self@ == other@
    }
}

/// Instants of one clock are ordered as their tick counts are.
impl<T> PartialOrd for Instant<T> {
    fn partial_cmp(&self, other: &Self) -> (order: Option<Ordering>) {
        if self.ticks < other.ticks {
            Some(Ordering::Less)
        } else if self.ticks > other.ticks {
            Some(Ordering::Greater)
        } else {
            Some(Ordering::Equal)
        }
    }
}

impl<T> vstd::std_specs::cmp::PartialOrdSpecImpl for Instant<T> {
    open spec fn obeys_partial_cmp_spec() -> bool {
        true
    }

    open spec fn partial_cmp_spec(&self, other: &Self) -> Option<Ordering> {
        if self@ < other@ {
            Some(Ordering::Less)
        } else if self@ > other@ {
            Some(Ordering::Greater)
        } else {
            Some(Ordering::Equal)
        }
    }
}

impl<T> vstd::std_specs::ops::SubSpecImpl for Instant<T> {
    /// The difference is described by the `ensures` of `sub` instead: a
    /// `Duration` cannot be written down in a specification.
    open spec fn obeys_sub_spec() -> bool {
        false
    }

    open spec fn sub_req(self, earlier: Self) -> bool {
        earlier@ <= self@
    }

    open spec fn sub_spec(self, earlier: Self) -> Duration {
        arbitrary()
    }
}

/// `later - earlier` is `later.duration_since(earlier)`.
impl<T> Sub for Instant<T> {
    type Output = Duration;

    fn sub(self, earlier: Self) -> (elapsed: Duration)
        ensures
            self.nanos_since(earlier) == Some(duration_nanos(elapsed)),
    {
        self.duration_since(earlier)
    }
}

/// A tick count names exactly one instant of a clock: rebuilding an instant
/// from its own timestamp gives the same instant back, and two instants of
/// one clock with the same timestamp are the same instant.
pub proof fn lemma_timestamp_round_trip<T>(a: Instant<T>, b: Instant<T>, ticks: u64)
    ensures
        Instant::<T>::at(ticks)@ == ticks,
        Instant::<T>::at(a@ as u64) == a,
        a@ == b@ ==> a == b,
{
}

/// Comparing two instants of one clock is comparing their timestamps: `==`,
/// `<` and the other comparison operators give on the instants what they give
/// on the tick counts, and exactly one of "earlier", "equal" and "later" holds.
pub proof fn lemma_compare_by_timestamp<T>(a: Instant<T>, b: Instant<T>)
    ensures
        a.eq_spec(&b) <==> a@ == b@,
        a.partial_cmp_spec(&b) == Some(Ordering::Less) <==> a@ < b@,
        a.partial_cmp_spec(&b) == Some(Ordering::Equal) <==> a@ == b@,
        a.partial_cmp_spec(&b) == Some(Ordering::Greater) <==> a@ > b@,
        a.partial_cmp_spec(&b).is_some(),
{
}

/// The time between two instants of one clock is the difference of their
/// timestamps, and it is only defined towards the later one: from a strictly
/// later instant back to an earlier one there is no duration. Such a pair
/// fails what `duration_since` and `-` require, so neither can be reached
/// with it, and the checked form answers `None`.
pub proof fn lemma_reversed_order_has_no_duration<T>(earlier: Instant<T>, later: Instant<T>)
    requires
        earlier@ < later@,
    ensures
        earlier.nanos_since(later).is_none(),
        later.nanos_since(earlier) == Some((later@ - earlier@) as nat),
        !(later@ <= earlier@),
        !earlier.sub_req(later),
        later.sub_req(earlier),
{
}

} // verus!

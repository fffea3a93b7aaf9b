//! What this crate takes for granted about `core::time::Duration`.
//!
//! A `Duration` is opaque to the verifier. Its length is given a name here,
//! and the two functions of the standard library that this crate calls on a
//! `Duration` are described in terms of that name.

use core::time::Duration;
use vstd::prelude::*;

verus! {

/// The length of a `Duration` in whole nanoseconds: the number that
/// `Duration::as_nanos` returns for it.
pub uninterp spec fn duration_nanos(d: Duration) -> nat;

/// `Duration::from_nanos` is documented to create a `Duration` from the given
/// number of nanoseconds. Taken on trust: the result is exactly that long.
pub assume_specification[ Duration::from_nanos ](nanos: u64) -> (d: Duration)
    ensures
        duration_nanos(d) == nanos,
;

/// `Duration::as_millis` is documented to return the total number of whole
/// milliseconds contained in the `Duration`. Taken on trust: that is its
/// length in nanoseconds divided by a million, rounded down.
pub assume_specification[ Duration::as_millis ](d: &Duration) -> (millis: u128)
    ensures
        millis == duration_nanos(*d) / 1_000_000,
;

} // verus!

//! Monotonic timestamps as plain integers, with the clock that produced them
//! carried in the type.
//!
//! A timestamp counts nanoseconds since an arbitrary point fixed at boot. Two
//! clocks are told apart: one keeps counting while the host is suspended, the
//! other pauses. An [`Instant`] carries the clock it came from as a type
//! parameter, so instants of different clocks can be neither compared nor
//! subtracted.
//!
//! This crate holds everything that can be stated and proved without touching
//! the operating system: the typed instants, the conversion of each platform's
//! raw clock reading into nanoseconds, and the portable fallback clock. The
//! foreign calls that read the platform clocks are left to the caller, who
//! hands the reading over as a plain integer.
//!
//! Timestamps are only comparable within one boot session of one host.

pub mod duration;
pub mod instant;
pub mod linux;
pub mod unsupported;
pub mod windows;

pub use instant::{ExcludingSuspend, IncludingSuspend, Instant};

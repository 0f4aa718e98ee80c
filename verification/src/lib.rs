//! Scoped execution timing.
//!
//! A [`Timing`] remembers the instant at which it was made. When it is
//! finished it measures the time that has passed since then and, unless it is
//! quiet, hands one report line to its sink: the console or a writer that the
//! caller supplied. [`future::Timing`] does the same around an asynchronous
//! computation and also notes the moment at which the computation settled.

pub mod clock;
pub mod label;
pub mod future;
pub mod sink;
pub mod text;
pub mod timing;

pub use clock::Lapse;
pub use timing::Timing;

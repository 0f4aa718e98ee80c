//! The monotonic clock, and the plain value that stands for a measured span.

use vstd::prelude::*;
use std::time::Duration;
use std::time::Instant;

verus! {

/// Number of nanoseconds in one second.
pub const NANOS_PER_SEC: u32 = 1_000_000_000;

/// `std::time::Instant`: a reading of the monotonic clock. The verifier sees
/// nothing inside it; the library only carries it around.
#[verifier::external_type_specification]
#[verifier::external_body]
pub struct ExInstant(std::time::Instant);

/// A span of time as whole seconds and the nanoseconds beyond them.
#[derive(Clone, Copy, Debug, PartialEq, Eq, Structural)]
pub struct Lapse {
    /// The whole seconds of the span.
    pub secs: u64,
    /// The nanoseconds beyond the whole seconds.
    pub nanos: u32,
}

impl Lapse {
    /// The nanosecond part stays below one second.
    pub open spec fn wf(&self) -> bool {
        self.nanos < NANOS_PER_SEC
    }

    /// The empty span.
    pub open spec fn spec_zero() -> Lapse {
        Lapse { secs: 0, nanos: 0 }
    }

    /// The empty span: what a timer holds before it is finished.
    #[verifier::when_used_as_spec(spec_zero)]
    pub fn zero() -> (r: Lapse)
        ensures
            r == Lapse::spec_zero(),
            r.wf(),
    {
        Lapse { secs: 0, nanos: 0 }
    }

    /// The span of `secs` whole seconds and `nanos` nanoseconds beyond them.
    pub(crate) fn of(secs: u64, nanos: u32) -> (r: Lapse)
        ensures
            r == (Lapse { secs, nanos }),
    {
        Lapse { secs, nanos }
    }
}

/// Calls `Instant::now`. Nothing is claimed of the reading: it depends on the
/// moment of the call.
#[verifier::external_body]
pub(crate) fn now() -> (r: Instant)
{
    Instant::now()
}

/// Calls `Instant::elapsed`: the time that has passed since `start`. Nothing
/// is claimed of the span: it depends on the moment of the call.
#[verifier::external_body]
pub(crate) fn since(start: &Instant) -> (r: Duration)
{
    start.elapsed()
}

/// Calls `Duration::as_secs`: the whole seconds of the span.
#[verifier::external_body]
pub(crate) fn whole_secs(span: &Duration) -> (r: u64)
{
    span.as_secs()
}

/// Calls `Duration::subsec_nanos`: the part of the span beyond its whole
/// seconds, in nanoseconds. The standard library documents that this part is
/// always less than one second, which is all that is claimed here.
#[verifier::external_body]
pub(crate) fn subsec_nanos(span: &Duration) -> (r: u32)
    ensures
        r < NANOS_PER_SEC,
{
    span.subsec_nanos()
}

} // verus!

//! Exact media time spans.
use vstd::prelude::*;

verus! {

/// A span of media time, counted in nanoseconds.
#[derive(Clone, Copy, Debug, PartialEq, Eq, Structural)]
pub struct TimeSpan {
    pub nanos: u128,
}

impl TimeSpan {
    /// The empty span.
    pub fn zero() -> (res: TimeSpan)
        ensures
            res.nanos == 0,
    {
        TimeSpan { nanos: 0 }
    }

    /// Whether the span is empty.
    pub fn is_zero(&self) -> (res: bool)
        ensures
            res == (self.nanos == 0),
    {
        self.nanos == 0
    }

    /// The number of whole milliseconds in the span.
    pub open spec fn millis(self) -> nat {
        (self.nanos / 1_000_000) as nat
    }

    /// The number of whole milliseconds in the span.
    pub fn as_millis(&self) -> (res: u128)
        ensures
            res == self.millis(),
    {
        self.nanos / 1_000_000
    }

    /// `self - earlier`; the caller guarantees that `earlier` is not longer.
    pub fn minus(&self, earlier: &TimeSpan) -> (res: TimeSpan)
        requires
            earlier.nanos <= self.nanos,
        ensures
            res.nanos == self.nanos - earlier.nanos,
    {
        TimeSpan { nanos: self.nanos - earlier.nanos }
    }

    /// The shorter of two spans.
    pub fn min(a: TimeSpan, b: TimeSpan) -> (res: TimeSpan)
        ensures
            res.nanos == if a.nanos <= b.nanos { a.nanos } else { b.nanos },
    {
        if a.nanos <= b.nanos {
            a
        } else {
            b
        }
    }
}

} // verus!

//! A start and an end.
use super::TimePoint;
use vstd::prelude::*;

verus! {

/// Define a time span with a start time and an end time.
///
/// Nothing asks that `start <= end`: a span is the pair it was made of.
#[derive(Debug, Clone, Copy, PartialEq, Eq, Structural)]
pub struct TimeSpan {
    /// Start time of the span
    pub start: TimePoint,
    /// End time of the span
    pub end: TimePoint,
}

impl View for TimeSpan {
    type V = TimeSpan;

    /// A span is its own view.
    open spec fn view(&self) -> TimeSpan {
        *self
    }
}

impl TimeSpan {
    /// Create a new `TimeSpan` from a start and an end.
    #[must_use]
    pub fn new(start: TimePoint, end: TimePoint) -> (span: Self)
        ensures
            span.start == start,
            span.end == end,
    {
        Self { start, end }
    }
}

} // verus!
